//! The converter: validates attached native funds, forwards them to a fee
//! collector, and requests a 1:1 token mint, with an operator-gated reward
//! path.

use vstd::prelude::*;

use crate::types::{coins_view, instrs_view, opt_str_view, Coin, CoinV, InstrV, Instruction};

verus! {

/// Errors a converter call can fail with. Every error aborts the whole
/// call; no state is written and no instruction is emitted.
#[derive(Clone, Copy, Debug, PartialEq, Eq, Structural)]
pub enum ContractError {
    Unauthorized,
    UnsupportedDenom,
    InvalidFunds,
}

/// Saturating 128-bit addition, as the executable accumulation performs it.
pub open spec fn sat_add_u128(a: int, b: int) -> int {
    if a + b > u128::MAX {
        u128::MAX as int
    } else {
        a + b
    }
}

/// The saturating sum of the amounts attached under the expected
/// denomination, accumulated left to right.
pub open spec fn matched_sum(funds: Seq<CoinV>, denom: Seq<char>) -> int
    decreases funds.len(),
{
    if funds.len() == 0 {
        0
    } else {
        let prev = matched_sum(funds.drop_last(), denom);
        if funds.last().denom == denom {
            sat_add_u128(prev, funds.last().amount)
        } else {
            prev
        }
    }
}

/// Whether the attached funds hold a non-zero amount of some other
/// denomination; any such coin is rejected outright.
pub open spec fn has_foreign(funds: Seq<CoinV>, denom: Seq<char>) -> bool {
    exists|i: int| 0 <= i < funds.len() && funds[i].denom != denom && funds[i].amount > 0
}

/// The matched sum stays within `u128` bounds.
proof fn lemma_matched_sum_bounds(funds: Seq<CoinV>, denom: Seq<char>)
    requires
        forall|i: int| 0 <= i < funds.len() ==> #[trigger] funds[i].amount >= 0,
    ensures
        0 <= matched_sum(funds, denom) <= u128::MAX,
    decreases funds.len(),
{
    if funds.len() > 0 {
        lemma_matched_sum_bounds(funds.drop_last(), denom);
    }
}

/// The sole funds-validation gate for both public entry points: sums the
/// amounts attached under `denom`, rejects any non-zero amount of another
/// denomination with `UnsupportedDenom`, and rejects an empty matched sum
/// with `InvalidFunds`.
pub fn extract_amount(funds: &Vec<Coin>, denom: &String) -> (r: Result<u128, ContractError>)
    ensures
        has_foreign(coins_view(funds@), denom@) ==> r == Err::<u128, ContractError>(
            ContractError::UnsupportedDenom,
        ),
        !has_foreign(coins_view(funds@), denom@) && matched_sum(coins_view(funds@), denom@) == 0
            ==> r == Err::<u128, ContractError>(ContractError::InvalidFunds),
        !has_foreign(coins_view(funds@), denom@) && matched_sum(coins_view(funds@), denom@) > 0
            ==> r == Ok::<u128, ContractError>(
            matched_sum(coins_view(funds@), denom@) as u128,
        ),
{
    let ghost fv = coins_view(funds@);
    let mut amt: u128 = 0;
    let mut i: usize = 0;
    while i < funds.len()
        invariant
            0 <= i <= funds.len(),
            fv == coins_view(funds@),
            fv.len() == funds@.len(),
            forall|j: int| 0 <= j < fv.len() ==> #[trigger] fv[j] == funds@[j]@,
            forall|j: int| 0 <= j < i ==> !(#[trigger] fv[j].denom != denom@ && fv[j].amount > 0),
            amt == matched_sum(fv.take(i as int), denom@),
        decreases funds.len() - i,
    {
        let c = &funds[i];
        if c.denom == *denom {
            proof {
                assert(fv.take(i + 1).drop_last() =~= fv.take(i as int));
                assert(fv.take(i + 1).last() == fv[i as int]);
            }
            amt = amt.saturating_add(c.amount);
        } else if c.amount > 0 {
            assert(has_foreign(fv, denom@)) by {
                assert(0 <= i < fv.len() && fv[i as int].denom != denom@ && fv[i as int].amount
                    > 0);
            }
            return Err(ContractError::UnsupportedDenom);
        } else {
            proof {
                assert(fv.take(i + 1).drop_last() =~= fv.take(i as int));
                assert(fv.take(i + 1).last() == fv[i as int]);
            }
        }
        i = i + 1;
    }
    proof {
        assert(fv.take(funds@.len() as int) =~= fv);
    }
    if amt == 0 {
        return Err(ContractError::InvalidFunds);
    }
    Ok(amt)
}

/// The converter's configuration record.
#[derive(Debug, PartialEq, Eq)]
pub struct Config {
    /// Address of the fungible-token contract that mints 1:1.
    pub ra_cw20_addr: String,
    /// The native denomination accepted for conversion.
    pub native_denom: String,
    /// Address that receives the full native deposit.
    pub fee_collector_addr: String,
    /// Who may trigger the reward path; absent means the path is disabled.
    pub operator: Option<String>,
}

/// Mathematical model of a converter [`Config`].
pub struct ConfigV {
    pub ra_cw20_addr: Seq<char>,
    pub native_denom: Seq<char>,
    pub fee_collector_addr: Seq<char>,
    pub operator: Option<Seq<char>>,
}

impl View for Config {
    type V = ConfigV;

    open spec fn view(&self) -> ConfigV {
        ConfigV {
            ra_cw20_addr: self.ra_cw20_addr@,
            native_denom: self.native_denom@,
            fee_collector_addr: self.fee_collector_addr@,
            operator: match &self.operator {
                Some(op) => Some(op@),
                None => None,
            },
        }
    }
}

/// The message that creates a converter instance.
#[derive(Debug, PartialEq, Eq)]
pub struct InstantiateMsg {
    pub ra_cw20_addr: String,
    pub native_denom: String,
    pub fee_collector_addr: String,
    /// Optional operator for the reward path; the sender when absent.
    pub operator: Option<String>,
}

/// Creates a converter instance. The operator defaults to the
/// instantiating sender when none is given.
///
/// The addresses in the message are taken as already validated by the
/// host.
pub fn instantiate(sender: &String, msg: InstantiateMsg) -> (c: Config)
    ensures
        c@.ra_cw20_addr == msg.ra_cw20_addr@,
        c@.native_denom == msg.native_denom@,
        c@.fee_collector_addr == msg.fee_collector_addr@,
        c@.operator == Some(
            match opt_str_view(msg.operator) {
                Some(op) => op,
                None => sender@,
            },
        ),
{
    let operator: String = match msg.operator {
        Some(op) => op,
        None => sender.clone(),
    };
    Config {
        ra_cw20_addr: msg.ra_cw20_addr,
        native_denom: msg.native_denom,
        fee_collector_addr: msg.fee_collector_addr,
        operator: Some(operator),
    }
}

/// What the fungible-token mint request encodes to, as a function of the
/// recipient and the amount alone.
pub uninterp spec fn cw20_mint_json(recipient: Seq<char>, amount: int) -> Seq<u8>;

/// Relies on `cosmwasm_std::to_json_binary` applied to
/// `cw20::Cw20ExecuteMsg::Mint`: the encoding is a deterministic function
/// of the recipient and the amount alone, and it cannot fail for this
/// message shape — the serializer writes into a growable buffer, and its
/// error paths are only for unsupported types and custom messages, none
/// reachable from a struct variant of a string and a decimal-string
/// integer.
#[verifier::external_body]
fn cw20_mint_payload(recipient: &String, amount: u128) -> (r: Vec<u8>)
    ensures
        r@ == cw20_mint_json(recipient@, amount as int),
{
    let msg = cw20::Cw20ExecuteMsg::Mint {
        recipient: recipient.clone(),
        amount: cosmwasm_std::Uint128::new(amount),
    };
    cosmwasm_std::to_json_binary(&msg).unwrap().to_vec()
}

/// The two instructions a successful conversion emits, in their fixed,
/// observable order: the full original deposit to the fee collector first,
/// then the 1:1 mint request to the token contract.
pub open spec fn convert_msgs(
    c: ConfigV,
    funds: Seq<CoinV>,
    recipient: Seq<char>,
    amount: int,
) -> Seq<InstrV> {
    seq![
        InstrV::BankSend { to_address: c.fee_collector_addr, amount: funds },
        InstrV::ExecuteContract {
            contract_addr: c.ra_cw20_addr,
            msg: cw20_mint_json(recipient, amount),
            funds: Seq::<CoinV>::empty(),
        },
    ]
}

/// Copies a coin list, element for element.
fn copy_coins(funds: &Vec<Coin>) -> (r: Vec<Coin>)
    ensures
        r@ == funds@,
{
    let mut r: Vec<Coin> = Vec::new();
    let mut i: usize = 0;
    while i < funds.len()
        invariant
            0 <= i <= funds.len(),
            r@ == funds@.take(i as int),
        decreases funds.len() - i,
    {
        r.push(Coin { denom: funds[i].denom.clone(), amount: funds[i].amount });
        proof {
            assert(funds@.take(i + 1).drop_last() =~= funds@.take(i as int));
            assert(r@ =~= funds@.take(i + 1));
        }
        i = i + 1;
    }
    proof {
        assert(funds@.take(funds@.len() as int) =~= funds@);
    }
    r
}

/// Builds the instruction pair of a conversion from the already-validated
/// amount and the already-encoded mint payload: the full deposit to the
/// fee collector, then the mint request carrying the payload.
pub fn convert_instructions(cfg: &Config, funds: &Vec<Coin>, recipient: &String, payload: Vec<u8>)
    -> (r: Vec<Instruction>)
    ensures
        instrs_view(r@) == seq![
            InstrV::BankSend { to_address: cfg@.fee_collector_addr, amount: coins_view(funds@) },
            InstrV::ExecuteContract {
                contract_addr: cfg@.ra_cw20_addr,
                msg: payload@,
                funds: Seq::<CoinV>::empty(),
            },
        ],
{
    let send_native = Instruction::BankSend {
        to_address: cfg.fee_collector_addr.clone(),
        amount: copy_coins(funds),
    };
    let mint = Instruction::ExecuteContract {
        contract_addr: cfg.ra_cw20_addr.clone(),
        msg: payload,
        funds: Vec::new(),
    };
    let msgs = vec![send_native, mint];
    proof {
        assert(instrs_view(msgs@) =~= seq![msgs@[0]@, msgs@[1]@]);
        assert(coins_view(msgs@[1]->ExecuteContract_funds@) =~= Seq::<CoinV>::empty());
    }
    msgs
}

/// Converts the attached native deposit: validates the funds, forwards the
/// entire original deposit to the fee collector, and requests a 1:1 mint
/// of the matched amount to the recipient — the sender, unless overridden
/// by the reward path.
pub fn execute_convert(
    cfg: &Config,
    sender: &String,
    funds: &Vec<Coin>,
    recipient_override: Option<String>,
) -> (r: Result<Vec<Instruction>, ContractError>)
    ensures
        ({
            let fv = coins_view(funds@);
            let d = cfg@.native_denom;
            let rec = match opt_str_view(recipient_override) {
                Some(a) => a,
                None => sender@,
            };
            &&& has_foreign(fv, d) ==> r == Err::<Vec<Instruction>, ContractError>(
                ContractError::UnsupportedDenom,
            )
            &&& !has_foreign(fv, d) && matched_sum(fv, d) == 0 ==> r == Err::<
                Vec<Instruction>,
                ContractError,
            >(ContractError::InvalidFunds)
            &&& !has_foreign(fv, d) && matched_sum(fv, d) > 0 ==> (r matches Ok(msgs)
                && instrs_view(msgs@) == convert_msgs(cfg@, fv, rec, matched_sum(fv, d)))
        }),
{
    proof {
        let fv = coins_view(funds@);
        assert forall|i: int| 0 <= i < fv.len() implies #[trigger] fv[i].amount >= 0 by {
            assert(fv[i] == funds@[i]@);
        }
        lemma_matched_sum_bounds(fv, cfg@.native_denom);
    }
    let amt = match extract_amount(funds, &cfg.native_denom) {
        Ok(a) => a,
        Err(e) => {
            return Err(e);
        },
    };

    let recipient: String = match recipient_override {
        Some(r) => r,
        None => sender.clone(),
    };

    let payload = cw20_mint_payload(&recipient, amt);
    Ok(convert_instructions(cfg, funds, &recipient, payload))
}

/// Whether the reward path accepts `sender`: an operator must be set and
/// the sender must equal it.
pub open spec fn reward_auth(c: ConfigV, sender: Seq<char>) -> bool {
    c.operator == Some(sender)
}

/// Mints a reward to an explicit recipient. Only the current operator may
/// call, whatever funds are attached; the call otherwise behaves exactly
/// as a conversion, with the deposit still routed to the fee collector.
///
/// The recipient address is taken as already validated by the host.
pub fn execute_reward_mint(
    cfg: &Config,
    sender: &String,
    funds: &Vec<Coin>,
    recipient: String,
) -> (r: Result<Vec<Instruction>, ContractError>)
    ensures
        !reward_auth(cfg@, sender@) ==> r == Err::<Vec<Instruction>, ContractError>(
            ContractError::Unauthorized,
        ),
        reward_auth(cfg@, sender@) ==> ({
            let fv = coins_view(funds@);
            let d = cfg@.native_denom;
            &&& has_foreign(fv, d) ==> r == Err::<Vec<Instruction>, ContractError>(
                ContractError::UnsupportedDenom,
            )
            &&& !has_foreign(fv, d) && matched_sum(fv, d) == 0 ==> r == Err::<
                Vec<Instruction>,
                ContractError,
            >(ContractError::InvalidFunds)
            &&& !has_foreign(fv, d) && matched_sum(fv, d) > 0 ==> (r matches Ok(msgs)
                && instrs_view(msgs@) == convert_msgs(cfg@, fv, recipient@, matched_sum(fv, d)))
        }),
{
    match &cfg.operator {
        None => Err(ContractError::Unauthorized),
        Some(op) => {
            if *sender != *op {
                return Err(ContractError::Unauthorized);
            }
            execute_convert(cfg, sender, funds, Some(recipient))
        },
    }
}

/// The error, if any, with which an operator update by `sender` is
/// rejected: an operator must currently be set and the sender must equal
/// it.
pub open spec fn update_operator_outcome(c: ConfigV, sender: Seq<char>) -> Option<ContractError> {
    if !reward_auth(c, sender) {
        Some(ContractError::Unauthorized)
    } else {
        None
    }
}

/// The configuration a successful operator update commits.
pub open spec fn update_operator_next(c: ConfigV, operator: Option<Seq<char>>) -> ConfigV {
    ConfigV { operator, ..c }
}

/// Transfers or revokes the operator capability. Only the current operator
/// may call; clearing the operator disables the reward path until some
/// future operator is set — and no path to set one remains.
///
/// A new operator address is taken as already validated by the host.
pub fn execute_update_operator(cfg: &mut Config, sender: &String, operator: Option<String>) -> (r:
    Result<(), ContractError>)
    ensures
        match update_operator_outcome(old(cfg)@, sender@) {
            Some(e) => r == Err::<(), ContractError>(e) && final(cfg)@ == old(cfg)@,
            None => r == Ok::<(), ContractError>(()) && final(cfg)@ == update_operator_next(
                old(cfg)@,
                opt_str_view(operator),
            ),
        },
{
    match &cfg.operator {
        None => Err(ContractError::Unauthorized),
        Some(op) => {
            if *sender != *op {
                return Err(ContractError::Unauthorized);
            }
            cfg.operator = operator;
            Ok(())
        },
    }
}

/// The executable calls a converter accepts.
#[derive(Debug, PartialEq, Eq)]
pub enum ExecuteMsg {
    /// Convert the attached native deposit 1:1 into the token and forward
    /// the deposit to the fee collector.
    Convert {},
    /// Mint a reward: operator-only, and funds must still be attached.
    RewardMint { recipient: String },
    /// Transfer or revoke the operator capability (current operator only).
    UpdateOperator { operator: Option<String> },
}

/// Dispatches an executable call against the current configuration.
pub fn execute(cfg: &mut Config, sender: &String, funds: &Vec<Coin>, msg: ExecuteMsg) -> (r: Result<
    Vec<Instruction>,
    ContractError,
>)
    ensures
        match msg {
            ExecuteMsg::Convert {} => {
                let fv = coins_view(funds@);
                let d = old(cfg)@.native_denom;
                &&& final(cfg)@ == old(cfg)@
                &&& has_foreign(fv, d) ==> r == Err::<Vec<Instruction>, ContractError>(
                    ContractError::UnsupportedDenom,
                )
                &&& !has_foreign(fv, d) && matched_sum(fv, d) == 0 ==> r == Err::<
                    Vec<Instruction>,
                    ContractError,
                >(ContractError::InvalidFunds)
                &&& !has_foreign(fv, d) && matched_sum(fv, d) > 0 ==> (r matches Ok(msgs)
                    && instrs_view(msgs@) == convert_msgs(old(cfg)@, fv, sender@, matched_sum(fv, d)))
            },
            ExecuteMsg::RewardMint { recipient } => {
                let fv = coins_view(funds@);
                let d = old(cfg)@.native_denom;
                &&& final(cfg)@ == old(cfg)@
                &&& !reward_auth(old(cfg)@, sender@) ==> r == Err::<Vec<Instruction>, ContractError>(
                    ContractError::Unauthorized,
                )
                &&& reward_auth(old(cfg)@, sender@) ==> {
                    &&& has_foreign(fv, d) ==> r == Err::<Vec<Instruction>, ContractError>(
                        ContractError::UnsupportedDenom,
                    )
                    &&& !has_foreign(fv, d) && matched_sum(fv, d) == 0 ==> r == Err::<
                        Vec<Instruction>,
                        ContractError,
                    >(ContractError::InvalidFunds)
                    &&& !has_foreign(fv, d) && matched_sum(fv, d) > 0 ==> (r matches Ok(msgs)
                        && instrs_view(msgs@) == convert_msgs(
                        old(cfg)@,
                        fv,
                        recipient@,
                        matched_sum(fv, d),
                    ))
                }
            },
            ExecuteMsg::UpdateOperator { operator } => match update_operator_outcome(
                old(cfg)@,
                sender@,
            ) {
                Some(e) => r == Err::<Vec<Instruction>, ContractError>(e) && final(cfg)@ == old(
                    cfg,
                )@,
                None => {
                    &&& r matches Ok(msgs) && msgs@.len() == 0
                    &&& final(cfg)@ == update_operator_next(old(cfg)@, opt_str_view(operator))
                },
            },
        },
{
    match msg {
        ExecuteMsg::Convert {} => execute_convert(cfg, sender, funds, None),
        ExecuteMsg::RewardMint { recipient } => execute_reward_mint(cfg, sender, funds, recipient),
        ExecuteMsg::UpdateOperator { operator } => {
            match execute_update_operator(cfg, sender, operator) {
                Ok(()) => Ok(Vec::new()),
                Err(e) => Err(e),
            }
        },
    }
}

/// The read-only queries a converter answers.
#[derive(Debug, PartialEq, Eq)]
pub enum QueryMsg {
    Config {},
}

/// The converter's configuration, addresses as plain strings.
#[derive(Debug, PartialEq, Eq)]
pub struct ConfigResponse {
    pub ra_cw20_addr: String,
    pub native_denom: String,
    pub fee_collector_addr: String,
    pub operator: Option<String>,
}

/// Answers a read-only query. Queries read the configuration and never
/// change it: each answer is a function of the stored record alone.
pub fn query(cfg: &Config, msg: QueryMsg) -> (r: ConfigResponse)
    ensures
        r.ra_cw20_addr@ == cfg@.ra_cw20_addr,
        r.native_denom@ == cfg@.native_denom,
        r.fee_collector_addr@ == cfg@.fee_collector_addr,
        opt_str_view(r.operator) == cfg@.operator,
{
    match msg {
        QueryMsg::Config {} => query_config(cfg),
    }
}

/// Returns the stored configuration, addresses as plain strings.
pub fn query_config(cfg: &Config) -> (r: ConfigResponse)
    ensures
        r.ra_cw20_addr@ == cfg@.ra_cw20_addr,
        r.native_denom@ == cfg@.native_denom,
        r.fee_collector_addr@ == cfg@.fee_collector_addr,
        opt_str_view(r.operator) == cfg@.operator,
{
    ConfigResponse {
        ra_cw20_addr: cfg.ra_cw20_addr.clone(),
        native_denom: cfg.native_denom.clone(),
        fee_collector_addr: cfg.fee_collector_addr.clone(),
        operator: match &cfg.operator {
            Some(op) => Some(op.clone()),
            None => None,
        },
    }
}

/// Law: clearing the operator locks the reward path. After a successful
/// operator update that sets no new operator, no sender — the former
/// operator included — is accepted by the reward path or by a further
/// operator update.
pub proof fn lemma_cleared_operator_locks_out(c: ConfigV, sender: Seq<char>)
    requires
        update_operator_outcome(c, sender) is None,
    ensures
        forall|caller: Seq<char>| !reward_auth(update_operator_next(c, None), caller),
        forall|caller: Seq<char>|
            update_operator_outcome(update_operator_next(c, None), caller) == Some(
                ContractError::Unauthorized,
            ),
{
}

/// Law: after an operator update to a new operator, the former operator is
/// no longer accepted by the reward path, and the new one is.
pub proof fn lemma_operator_transfer(c: ConfigV, sender: Seq<char>, new_op: Seq<char>)
    requires
        update_operator_outcome(c, sender) is None,
        new_op != sender,
    ensures
        !reward_auth(update_operator_next(c, Some(new_op)), sender),
        reward_auth(update_operator_next(c, Some(new_op)), new_op),
{
}

} // verus!
