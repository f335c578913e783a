//! The claim-drop distributor: a capped, single-claim-per-address
//! distribution of a fixed amount of one native denomination.
//!
//! The stored state is a configuration record, the set of addresses that
//! have claimed, and a claim counter. Every call validates against the
//! current state and either commits all its effects together or fails with
//! no effect at all.

use vstd::prelude::*;

use crate::types::{coins_view, instrs_view, opt_str_view, Coin, CoinV, InstrV, Instruction};

verus! {

/// Errors a distributor call can fail with. Every error aborts the whole
/// call; no state is written and no instruction is emitted.
#[derive(Clone, Copy, Debug, PartialEq, Eq, Structural)]
pub enum ContractError {
    Unauthorized,
    InvalidDenom,
    InvalidClaimAmount,
    InvalidTotalAmount,
    TotalNotDivisible,
    /// The quotient of the two amounts does not fit the cap field, so no
    /// stored cap could equal it; such a configuration is rejected rather
    /// than committed with a silently narrowed cap.
    CapTooLarge,
    AlreadyClaimed,
    CapReached,
}

/// The distributor's configuration record.
#[derive(Debug, PartialEq, Eq)]
pub struct Config {
    pub admin: String,
    pub denom: String,
    pub claim_amount: u128,
    pub total_amount: u128,
    pub max_claims: u64,
}

/// Mathematical model of a [`Config`].
pub struct ConfigV {
    pub admin: Seq<char>,
    pub denom: Seq<char>,
    pub claim_amount: int,
    pub total_amount: int,
    pub max_claims: int,
}

impl View for Config {
    type V = ConfigV;

    open spec fn view(&self) -> ConfigV {
        ConfigV {
            admin: self.admin@,
            denom: self.denom@,
            claim_amount: self.claim_amount as int,
            total_amount: self.total_amount as int,
            max_claims: self.max_claims as int,
        }
    }
}

impl ConfigV {
    /// Well-formedness of a stored configuration: both amounts are
    /// positive 128-bit values, the total divides evenly into claims, and
    /// the cap is exactly the recomputed quotient — never independently
    /// set, and never narrowed: a quotient beyond the cap field is
    /// rejected at validation instead.
    pub open spec fn wf(self) -> bool {
        &&& 0 < self.claim_amount <= u128::MAX
        &&& 0 < self.total_amount <= u128::MAX
        &&& self.total_amount % self.claim_amount == 0
        &&& self.total_amount / self.claim_amount <= u64::MAX
        &&& self.max_claims == self.total_amount / self.claim_amount
    }
}

/// The distributor's whole stored state.
#[derive(Debug, PartialEq, Eq)]
pub struct DistributorState {
    pub config: Config,
    /// Addresses that have successfully claimed; append-only.
    pub claimed: Vec<String>,
    /// Number of successful claims so far.
    pub claimed_count: u64,
}

/// Mathematical model of a [`DistributorState`].
pub struct StateV {
    pub config: ConfigV,
    pub claimed: Seq<Seq<char>>,
    pub claimed_count: int,
}

impl View for DistributorState {
    type V = StateV;

    open spec fn view(&self) -> StateV {
        StateV {
            config: self.config@,
            claimed: self.claimed@.map_values(|s: String| s@),
            claimed_count: self.claimed_count as int,
        }
    }
}

impl StateV {
    /// Well-formedness of the stored state: the configuration is
    /// well-formed, no address is marked claimed twice, and the counter
    /// equals the number of claimed addresses.
    pub open spec fn wf(self) -> bool {
        &&& self.config.wf()
        &&& self.claimed.no_duplicates()
        &&& self.claimed_count == self.claimed.len()
    }
}

/// What `str::trim` returns for a given character sequence.
pub uninterp spec fn trim_of(s: Seq<char>) -> Seq<char>;

/// A denomination is rejected when it is empty or all whitespace.
pub open spec fn blank(s: Seq<char>) -> bool {
    trim_of(s).len() == 0
}

/// Relies on `str::trim`: returns the input without leading and trailing
/// whitespace; the result depends on the characters alone.
#[verifier::external_body]
fn trim_str(s: &str) -> (r: &str)
    ensures
        r@ == trim_of(s@),
{
    s.trim()
}

/// Whether a denomination string is blank (empty once trimmed).
fn denom_is_blank(s: &String) -> (r: bool)
    ensures
        r == blank(s@),
{
    trim_str(s.as_str()).is_empty()
}

/// The message that creates a distributor instance.
#[derive(Debug, PartialEq, Eq)]
pub struct InstantiateMsg {
    pub admin: String,
    pub denom: String,
    pub claim_amount: u128,
    pub total_amount: u128,
}

/// The error, if any, with which instantiation rejects the given fields,
/// checked in order with short-circuit failure.
pub open spec fn instantiate_outcome(denom: Seq<char>, claim_amount: int, total_amount: int) -> Option<
    ContractError,
> {
    if blank(denom) {
        Some(ContractError::InvalidDenom)
    } else if claim_amount == 0 {
        Some(ContractError::InvalidClaimAmount)
    } else if total_amount == 0 {
        Some(ContractError::InvalidTotalAmount)
    } else if total_amount % claim_amount != 0 {
        Some(ContractError::TotalNotDivisible)
    } else if total_amount / claim_amount > u64::MAX {
        Some(ContractError::CapTooLarge)
    } else {
        None
    }
}

/// The configuration a successful instantiation or update commits: the cap
/// is always recomputed from the two amounts.
pub open spec fn config_of(
    admin: Seq<char>,
    denom: Seq<char>,
    claim_amount: int,
    total_amount: int,
) -> ConfigV {
    ConfigV { admin, denom, claim_amount, total_amount, max_claims: total_amount / claim_amount }
}

/// Creates a distributor instance: validates the fields and returns the
/// initial state, with an empty claimed set and a zero counter.
///
/// The admin address is taken as already validated by the host.
pub fn instantiate(msg: InstantiateMsg) -> (r: Result<DistributorState, ContractError>)
    ensures
        match instantiate_outcome(msg.denom@, msg.claim_amount as int, msg.total_amount as int) {
            Some(e) => r == Err::<DistributorState, ContractError>(e),
            None => r matches Ok(s) && {
                &&& s@.config == config_of(
                    msg.admin@,
                    msg.denom@,
                    msg.claim_amount as int,
                    msg.total_amount as int,
                )
                &&& s@.claimed == Seq::<Seq<char>>::empty()
                &&& s@.claimed_count == 0
                &&& s@.wf()
            },
        },
{
    if denom_is_blank(&msg.denom) {
        return Err(ContractError::InvalidDenom);
    }
    if msg.claim_amount == 0 {
        return Err(ContractError::InvalidClaimAmount);
    }
    if msg.total_amount == 0 {
        return Err(ContractError::InvalidTotalAmount);
    }
    if msg.total_amount % msg.claim_amount != 0 {
        return Err(ContractError::TotalNotDivisible);
    }
    let quotient: u128 = msg.total_amount / msg.claim_amount;
    if quotient > u64::MAX as u128 {
        return Err(ContractError::CapTooLarge);
    }

    let max_claims: u64 = quotient as u64;

    let state = DistributorState {
        config: Config {
            admin: msg.admin,
            denom: msg.denom,
            claim_amount: msg.claim_amount,
            total_amount: msg.total_amount,
            max_claims,
        },
        claimed: Vec::new(),
        claimed_count: 0,
    };
    assert(state@.claimed =~= Seq::<Seq<char>>::empty());
    Ok(state)
}

/// The error, if any, with which a claim for `recipient` is rejected
/// against state `s`: a repeated claim first, then the cap, checked in
/// order with short-circuit failure.
pub open spec fn claim_outcome(s: StateV, recipient: Seq<char>) -> Option<ContractError> {
    if s.claimed.contains(recipient) {
        Some(ContractError::AlreadyClaimed)
    } else if s.claimed_count >= s.config.max_claims {
        Some(ContractError::CapReached)
    } else {
        None
    }
}

/// The state a successful claim for `recipient` commits: the recipient is
/// appended to the claimed set and the counter grows by one.
pub open spec fn claim_next(s: StateV, recipient: Seq<char>) -> StateV {
    StateV {
        claimed: s.claimed.push(recipient),
        claimed_count: s.claimed_count + 1,
        ..s
    }
}

/// The single transfer instruction a successful claim emits: the
/// configured claim amount of the configured denomination, to the
/// recipient.
pub open spec fn claim_msgs(c: ConfigV, recipient: Seq<char>) -> Seq<InstrV> {
    seq![
        InstrV::BankSend {
            to_address: recipient,
            amount: seq![CoinV { denom: c.denom, amount: c.claim_amount }],
        },
    ]
}

/// Whether the claimed set holds the given address.
fn claimed_contains(claimed: &Vec<String>, addr: &String) -> (r: bool)
    ensures
        r == claimed@.map_values(|s: String| s@).contains(addr@),
{
    let ghost cv = claimed@.map_values(|s: String| s@);
    let mut i: usize = 0;
    while i < claimed.len()
        invariant
            0 <= i <= claimed.len(),
            cv == claimed@.map_values(|s: String| s@),
            cv.len() == claimed@.len(),
            forall|j: int| 0 <= j < cv.len() ==> #[trigger] cv[j] == claimed@[j]@,
            forall|j: int| 0 <= j < i ==> #[trigger] cv[j] != addr@,
        decreases claimed.len() - i,
    {
        if claimed[i] == *addr {
            assert(cv.contains(addr@)) by {
                assert(cv[i as int] == addr@);
            }
            return true;
        }
        i = i + 1;
    }
    assert(!cv.contains(addr@));
    false
}

/// Processes a claim. The effective recipient is `recipient` when given,
/// else the sender. On success the recipient is marked claimed, the
/// counter grows by one, and exactly one transfer instruction is emitted;
/// on failure the state is unchanged and nothing is emitted.
///
/// An explicit recipient address is taken as already validated by the
/// host.
pub fn execute_claim(
    state: &mut DistributorState,
    sender: &String,
    recipient: Option<String>,
) -> (r: Result<Vec<Instruction>, ContractError>)
    requires
        old(state)@.wf(),
    ensures
        final(state)@.wf(),
        ({
            let rec = match opt_str_view(recipient) {
                Some(a) => a,
                None => sender@,
            };
            match claim_outcome(old(state)@, rec) {
                Some(e) => r == Err::<Vec<Instruction>, ContractError>(e) && final(state)@ == old(
                    state,
                )@,
                None => {
                    &&& r matches Ok(msgs) && instrs_view(msgs@) == claim_msgs(
                        old(state)@.config,
                        rec,
                    )
                    &&& final(state)@ == claim_next(old(state)@, rec)
                },
            }
        }),
{
    let recipient: String = match recipient {
        Some(r) => r,
        None => sender.clone(),
    };

    if claimed_contains(&state.claimed, &recipient) {
        return Err(ContractError::AlreadyClaimed);
    }
    if state.claimed_count >= state.config.max_claims {
        return Err(ContractError::CapReached);
    }

    let ghost old_claimed = state@.claimed;
    let ghost rec: Seq<char> = recipient@;
    let send = Instruction::BankSend {
        to_address: recipient.clone(),
        amount: vec![Coin { denom: state.config.denom.clone(), amount: state.config.claim_amount }],
    };
    state.claimed.push(recipient);
    state.claimed_count = state.claimed_count + 1;

    let msgs = vec![send];
    proof {
        assert(state@.claimed =~= old_claimed.push(rec));
        assert(state@.claimed.no_duplicates()) by {
            assert(forall|j: int|
                0 <= j < old_claimed.len() ==> #[trigger] old_claimed[j] != rec);
        }
        assert(state@ == claim_next(old(state)@, rec));
        assert(instrs_view(msgs@) =~= claim_msgs(old(state)@.config, rec)) by {
            assert(instrs_view(msgs@)[0] == msgs@[0]@);
            assert(coins_view(msgs@[0]->BankSend_amount@) =~= seq![
                CoinV { denom: old(state)@.config.denom, amount: old(state)@.config.claim_amount },
            ]);
        }
    }
    Ok(msgs)
}

/// A partial configuration update: each field is applied only when
/// present, and the merged record is validated as a whole before anything
/// is committed.
pub struct ConfigPatchV {
    pub admin: Option<Seq<char>>,
    pub denom: Option<Seq<char>>,
    pub claim_amount: Option<int>,
    pub total_amount: Option<int>,
}

impl ConfigPatchV {
    /// A patch carries 128-bit amounts.
    pub open spec fn wf(self) -> bool {
        &&& (self.claim_amount matches Some(a) ==> 0 <= a <= u128::MAX)
        &&& (self.total_amount matches Some(t) ==> 0 <= t <= u128::MAX)
    }
}

/// The claim amount the merged record would hold.
pub open spec fn merged_claim_amount(c: ConfigV, p: ConfigPatchV) -> int {
    match p.claim_amount {
        Some(a) => a,
        None => c.claim_amount,
    }
}

/// The total amount the merged record would hold.
pub open spec fn merged_total_amount(c: ConfigV, p: ConfigPatchV) -> int {
    match p.total_amount {
        Some(t) => t,
        None => c.total_amount,
    }
}

/// The error, if any, with which a configuration update by `sender` is
/// rejected: authorization first, then each supplied field, then the
/// merged record as a whole, in order with short-circuit failure.
pub open spec fn update_outcome(c: ConfigV, sender: Seq<char>, p: ConfigPatchV) -> Option<
    ContractError,
> {
    if sender != c.admin {
        Some(ContractError::Unauthorized)
    } else if p.denom matches Some(d) && blank(d) {
        Some(ContractError::InvalidDenom)
    } else if p.claim_amount matches Some(a) && a == 0 {
        Some(ContractError::InvalidClaimAmount)
    } else if p.total_amount matches Some(t) && t == 0 {
        Some(ContractError::InvalidTotalAmount)
    } else if merged_total_amount(c, p) % merged_claim_amount(c, p) != 0 {
        Some(ContractError::TotalNotDivisible)
    } else if merged_total_amount(c, p) / merged_claim_amount(c, p) > u64::MAX {
        Some(ContractError::CapTooLarge)
    } else {
        None
    }
}

/// The configuration a successful update commits: the supplied fields
/// overlaid on the current record, with the cap recomputed.
pub open spec fn update_next(c: ConfigV, p: ConfigPatchV) -> ConfigV {
    config_of(
        match p.admin {
            Some(a) => a,
            None => c.admin,
        },
        match p.denom {
            Some(d) => d,
            None => c.denom,
        },
        merged_claim_amount(c, p),
        merged_total_amount(c, p),
    )
}

/// The patch the four optional execute fields describe.
pub open spec fn patch_view(
    admin: Option<String>,
    denom: Option<String>,
    claim_amount: Option<u128>,
    total_amount: Option<u128>,
) -> ConfigPatchV {
    ConfigPatchV {
        admin: opt_str_view(admin),
        denom: opt_str_view(denom),
        claim_amount: match claim_amount {
            Some(a) => Some(a as int),
            None => None,
        },
        total_amount: match total_amount {
            Some(t) => Some(t as int),
            None => None,
        },
    }
}

/// Applies a configuration patch. Only the admin may update; the merged
/// record is validated as a whole and committed atomically, with the cap
/// recomputed. On failure the stored configuration is completely
/// unchanged. The claimed set and the counter are never touched.
///
/// A new admin address is taken as already validated by the host.
pub fn execute_update_config(
    state: &mut DistributorState,
    sender: &String,
    admin: Option<String>,
    denom: Option<String>,
    claim_amount: Option<u128>,
    total_amount: Option<u128>,
) -> (r: Result<(), ContractError>)
    requires
        old(state)@.wf(),
    ensures
        final(state)@.wf(),
        final(state)@.claimed == old(state)@.claimed,
        final(state)@.claimed_count == old(state)@.claimed_count,
        ({
            let p = patch_view(admin, denom, claim_amount, total_amount);
            match update_outcome(old(state)@.config, sender@, p) {
                Some(e) => r == Err::<(), ContractError>(e) && final(state)@ == old(state)@,
                None => r == Ok::<(), ContractError>(()) && final(state)@.config == update_next(
                    old(state)@.config,
                    p,
                ),
            }
        }),
{
    if *sender != state.config.admin {
        return Err(ContractError::Unauthorized);
    }
    if let Some(d) = &denom {
        if denom_is_blank(d) {
            return Err(ContractError::InvalidDenom);
        }
    }
    if let Some(a) = claim_amount {
        if a == 0 {
            return Err(ContractError::InvalidClaimAmount);
        }
    }
    if let Some(t) = total_amount {
        if t == 0 {
            return Err(ContractError::InvalidTotalAmount);
        }
    }

    let new_claim_amount: u128 = match claim_amount {
        Some(a) => a,
        None => state.config.claim_amount,
    };
    let new_total_amount: u128 = match total_amount {
        Some(t) => t,
        None => state.config.total_amount,
    };
    if new_total_amount % new_claim_amount != 0 {
        return Err(ContractError::TotalNotDivisible);
    }
    let quotient: u128 = new_total_amount / new_claim_amount;
    if quotient > u64::MAX as u128 {
        return Err(ContractError::CapTooLarge);
    }

    if let Some(a) = admin {
        state.config.admin = a;
    }
    if let Some(d) = denom {
        state.config.denom = d;
    }
    state.config.claim_amount = new_claim_amount;
    state.config.total_amount = new_total_amount;
    state.config.max_claims = quotient as u64;

    Ok(())
}

/// The executable calls a distributor accepts.
#[derive(Debug, PartialEq, Eq)]
pub enum ExecuteMsg {
    /// Free-for-all claim: one claim per address, first-come-first-served.
    Claim { recipient: Option<String> },
    UpdateConfig {
        admin: Option<String>,
        denom: Option<String>,
        claim_amount: Option<u128>,
        total_amount: Option<u128>,
    },
    Withdraw { recipient: String, amount: Option<Coin> },
}

/// Dispatches an executable call against the current state.
///
/// `balance` is the distributor's current holding of the configured
/// denomination, read by the host; it is consulted only by a withdrawal
/// without an explicit amount.
pub fn execute(state: &mut DistributorState, sender: &String, msg: ExecuteMsg, balance: u128) -> (r:
    Result<Vec<Instruction>, ContractError>)
    requires
        old(state)@.wf(),
    ensures
        final(state)@.wf(),
        match msg {
            ExecuteMsg::Claim { recipient } => {
                let rec = match opt_str_view(recipient) {
                    Some(a) => a,
                    None => sender@,
                };
                match claim_outcome(old(state)@, rec) {
                    Some(e) => r == Err::<Vec<Instruction>, ContractError>(e) && final(state)@
                        == old(state)@,
                    None => {
                        &&& r matches Ok(msgs) && instrs_view(msgs@) == claim_msgs(
                            old(state)@.config,
                            rec,
                        )
                        &&& final(state)@ == claim_next(old(state)@, rec)
                    },
                }
            },
            ExecuteMsg::UpdateConfig { admin, denom, claim_amount, total_amount } => {
                let p = patch_view(admin, denom, claim_amount, total_amount);
                match update_outcome(old(state)@.config, sender@, p) {
                    Some(e) => r == Err::<Vec<Instruction>, ContractError>(e) && final(state)@
                        == old(state)@,
                    None => {
                        &&& r matches Ok(msgs) && msgs@.len() == 0
                        &&& final(state)@.config == update_next(old(state)@.config, p)
                        &&& final(state)@.claimed == old(state)@.claimed
                        &&& final(state)@.claimed_count == old(state)@.claimed_count
                    },
                }
            },
            ExecuteMsg::Withdraw { recipient, amount } => {
                &&& final(state)@ == old(state)@
                &&& match withdraw_outcome(old(state)@.config, sender@) {
                    Some(e) => r == Err::<Vec<Instruction>, ContractError>(e),
                    None => r matches Ok(msgs) && instrs_view(msgs@) == withdraw_msgs(
                        old(state)@.config,
                        recipient@,
                        opt_coin_view(amount),
                        balance as int,
                    ),
                }
            },
        },
{
    match msg {
        ExecuteMsg::Claim { recipient } => execute_claim(state, sender, recipient),
        ExecuteMsg::UpdateConfig { admin, denom, claim_amount, total_amount } => {
            match execute_update_config(state, sender, admin, denom, claim_amount, total_amount) {
                Ok(()) => Ok(Vec::new()),
                Err(e) => Err(e),
            }
        },
        ExecuteMsg::Withdraw { recipient, amount } => execute_withdraw(
            &state.config,
            sender,
            &recipient,
            amount,
            balance,
        ),
    }
}

/// The error, if any, with which a withdrawal by `sender` is rejected:
/// only the admin may withdraw.
pub open spec fn withdraw_outcome(c: ConfigV, sender: Seq<char>) -> Option<ContractError> {
    if sender != c.admin {
        Some(ContractError::Unauthorized)
    } else {
        None
    }
}

/// The instructions a successful withdrawal emits. With an explicit
/// amount, exactly that coin is sent. Without one, the whole held balance
/// of the configured denomination is sent, and a zero balance is an
/// explicit no-op.
pub open spec fn withdraw_msgs(
    c: ConfigV,
    recipient: Seq<char>,
    amount: Option<CoinV>,
    balance: int,
) -> Seq<InstrV> {
    match amount {
        Some(coin) => seq![InstrV::BankSend { to_address: recipient, amount: seq![coin] }],
        None => if balance == 0 {
            Seq::<InstrV>::empty()
        } else {
            seq![
                InstrV::BankSend {
                    to_address: recipient,
                    amount: seq![CoinV { denom: c.denom, amount: balance }],
                },
            ]
        },
    }
}

/// Model of an optional coin.
pub open spec fn opt_coin_view(o: Option<Coin>) -> Option<CoinV> {
    match o {
        Some(c) => Some(c@),
        None => None,
    }
}

/// Sweeps held balance to `recipient`; only the admin may call. With an
/// explicit `amount` exactly that coin is sent, whatever its denomination.
/// Without one, `balance` — the distributor's current holding of the
/// configured denomination, read by the host — is sent, unless it is zero,
/// in which case the call succeeds with no instruction.
///
/// The recipient address is taken as already validated by the host.
pub fn execute_withdraw(
    cfg: &Config,
    sender: &String,
    recipient: &String,
    amount: Option<Coin>,
    balance: u128,
) -> (r: Result<Vec<Instruction>, ContractError>)
    ensures
        match withdraw_outcome(cfg@, sender@) {
            Some(e) => r == Err::<Vec<Instruction>, ContractError>(e),
            None => r matches Ok(msgs) && instrs_view(msgs@) == withdraw_msgs(
                cfg@,
                recipient@,
                opt_coin_view(amount),
                balance as int,
            ),
        },
{
    if *sender != cfg.admin {
        return Err(ContractError::Unauthorized);
    }

    let ghost amt_v = opt_coin_view(amount);
    let send_amount: Vec<Coin> = match amount {
        Some(coin) => vec![coin],
        None => {
            if balance == 0 {
                let empty: Vec<Instruction> = Vec::new();
                assert(instrs_view(empty@) =~= withdraw_msgs(
                    cfg@,
                    recipient@,
                    amt_v,
                    balance as int,
                ));
                return Ok(empty);
            }
            vec![Coin { denom: cfg.denom.clone(), amount: balance }]
        },
    };

    let msgs = vec![
        Instruction::BankSend { to_address: recipient.clone(), amount: send_amount },
    ];
    proof {
        assert(instrs_view(msgs@) =~= withdraw_msgs(cfg@, recipient@, amt_v, balance as int)) by {
            assert(instrs_view(msgs@)[0] == msgs@[0]@);
            match amt_v {
                Some(cv) => {
                    assert(coins_view(msgs@[0]->BankSend_amount@) =~= seq![cv]);
                },
                None => {
                    assert(coins_view(msgs@[0]->BankSend_amount@) =~= seq![
                        CoinV { denom: cfg@.denom, amount: balance as int },
                    ]);
                },
            }
        }
    }
    Ok(msgs)
}

/// The read-only queries a distributor answers.
#[derive(Debug, PartialEq, Eq)]
pub enum QueryMsg {
    Config {},
    IsClaimed { address: String },
    Stats {},
}

/// Number of successful claims so far.
#[derive(Clone, Copy, Debug, PartialEq, Eq, Structural)]
pub struct StatsResponse {
    pub claimed_count: u64,
}

/// Whether an address has already claimed.
#[derive(Clone, Copy, Debug, PartialEq, Eq, Structural)]
pub struct IsClaimedResponse {
    pub is_claimed: bool,
}

/// The answer to a distributor query.
#[derive(Debug, PartialEq, Eq)]
pub enum QueryResponse {
    Config(Config),
    IsClaimed(IsClaimedResponse),
    Stats(StatsResponse),
}

/// Answers a read-only query. Queries read the state and never change it:
/// each answer is a function of the stored state and the query alone.
pub fn query(state: &DistributorState, msg: QueryMsg) -> (r: QueryResponse)
    ensures
        match msg {
            QueryMsg::Config {} => r matches QueryResponse::Config(c) && c@ == state@.config,
            QueryMsg::IsClaimed { address } => r matches QueryResponse::IsClaimed(ic)
                && ic.is_claimed == state@.claimed.contains(address@),
            QueryMsg::Stats {} => r matches QueryResponse::Stats(st) && st.claimed_count as int
                == state@.claimed_count,
        },
{
    match msg {
        QueryMsg::Config {} => QueryResponse::Config(query_config(state)),
        QueryMsg::IsClaimed { address } => QueryResponse::IsClaimed(query_is_claimed(
            state,
            &address,
        )),
        QueryMsg::Stats {} => QueryResponse::Stats(query_stats(state)),
    }
}

/// Returns the stored configuration record.
pub fn query_config(state: &DistributorState) -> (c: Config)
    ensures
        c@ == state@.config,
{
    Config {
        admin: state.config.admin.clone(),
        denom: state.config.denom.clone(),
        claim_amount: state.config.claim_amount,
        total_amount: state.config.total_amount,
        max_claims: state.config.max_claims,
    }
}

/// Returns whether `address` has already claimed.
pub fn query_is_claimed(state: &DistributorState, address: &String) -> (r: IsClaimedResponse)
    ensures
        r.is_claimed == state@.claimed.contains(address@),
{
    IsClaimedResponse { is_claimed: claimed_contains(&state.claimed, address) }
}

/// Returns the number of successful claims so far.
pub fn query_stats(state: &DistributorState) -> (r: StatsResponse)
    ensures
        r.claimed_count as int == state@.claimed_count,
{
    StatsResponse { claimed_count: state.claimed_count }
}

/// Law: claiming is one-time. After a successful claim for an address, a
/// second claim resolving to the same address is rejected with
/// `AlreadyClaimed`; by the claim contract, a rejected claim leaves the
/// state — the claimed set and the counter — exactly as it was.
pub proof fn lemma_second_claim_fails(s: StateV, recipient: Seq<char>)
    requires
        s.wf(),
        claim_outcome(s, recipient) is None,
    ensures
        claim_outcome(claim_next(s, recipient), recipient) == Some(ContractError::AlreadyClaimed),
{
    let next = claim_next(s, recipient);
    assert(next.claimed.contains(recipient)) by {
        assert(next.claimed[s.claimed.len() as int] == recipient);
    }
}

/// Law: the cap is never exceeded. A successful claim keeps the counter
/// within the cap, and every call other than a successful claim leaves the
/// counter unchanged or the configuration recomputed, so the bound is
/// preserved across claims.
pub proof fn lemma_cap_preserved(s: StateV, recipient: Seq<char>)
    requires
        s.wf(),
        s.claimed_count <= s.config.max_claims,
        claim_outcome(s, recipient) is None,
    ensures
        claim_next(s, recipient).claimed_count <= claim_next(s, recipient).config.max_claims,
{
}

/// Law: once the counter has reached the cap, a claim for any address not
/// yet claimed — the `(max_claims + 1)`-th distinct attempt — is rejected
/// with `CapReached`.
pub proof fn lemma_cap_reached(s: StateV, recipient: Seq<char>)
    requires
        s.wf(),
        s.claimed_count >= s.config.max_claims,
        !s.claimed.contains(recipient),
    ensures
        claim_outcome(s, recipient) == Some(ContractError::CapReached),
{
}

/// Law: in every well-formed configuration — in particular after every
/// successful instantiation or configuration update — the total is exactly
/// the claim amount times the cap.
pub proof fn lemma_config_total_exact(c: ConfigV)
    requires
        c.wf(),
    ensures
        c.total_amount == c.claim_amount * c.max_claims,
{
    vstd::arithmetic::div_mod::lemma_fundamental_div_mod(c.total_amount, c.claim_amount);
}

/// Law: a successful configuration update commits a well-formed record,
/// so the exact-total law above applies to it.
pub proof fn lemma_update_total_exact(c: ConfigV, sender: Seq<char>, p: ConfigPatchV)
    requires
        c.wf(),
        p.wf(),
        update_outcome(c, sender, p) is None,
    ensures
        update_next(c, p).total_amount == update_next(c, p).claim_amount * update_next(
            c,
            p,
        ).max_claims,
{
    let n = update_next(c, p);
    assert(n.wf());
    lemma_config_total_exact(n);
}

/// Law: the counter counts the claimed set. In every well-formed state the
/// claim counter equals the cardinality of the set of claimed addresses.
pub proof fn lemma_counter_is_cardinality(s: StateV)
    requires
        s.wf(),
    ensures
        s.claimed_count == s.claimed.to_set().len(),
{
    s.claimed.unique_seq_to_set();
}

/// Law: queries are idempotent reads. Each query answer is a function of
/// the stored state alone, so two reads of the same state — with no
/// intervening executable call to change it — agree exactly.
pub proof fn lemma_queries_idempotent(
    s: StateV,
    address: Seq<char>,
    first_claimed: bool,
    second_claimed: bool,
    first_count: int,
    second_count: int,
    first_config: ConfigV,
    second_config: ConfigV,
)
    requires
        first_claimed == s.claimed.contains(address),
        second_claimed == s.claimed.contains(address),
        first_count == s.claimed_count,
        second_count == s.claimed_count,
        first_config == s.config,
        second_config == s.config,
    ensures
        first_claimed == second_claimed,
        first_count == second_count,
        first_config == second_config,
{
}

} // verus!
