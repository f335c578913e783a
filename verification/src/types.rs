//! Plain value types shared by both contracts: native coins and the
//! outgoing instructions a call emits on success.

use vstd::prelude::*;

verus! {

/// A quantity of a native asset, identified by its denomination.
#[derive(Debug, PartialEq, Eq)]
pub struct Coin {
    pub denom: String,
    pub amount: u128,
}

/// Mathematical model of a [`Coin`].
pub struct CoinV {
    pub denom: Seq<char>,
    pub amount: int,
}

impl View for Coin {
    type V = CoinV;

    open spec fn view(&self) -> CoinV {
        CoinV { denom: self.denom@, amount: self.amount as int }
    }
}

/// Model of a sequence of coins, element by element.
pub open spec fn coins_view(s: Seq<Coin>) -> Seq<CoinV> {
    s.map_values(|c: Coin| c@)
}

/// An outgoing instruction for the host to execute after the call commits:
/// either a native-asset transfer, or a call into another contract with an
/// encoded payload and attached funds.
#[derive(Debug, PartialEq, Eq)]
pub enum Instruction {
    BankSend { to_address: String, amount: Vec<Coin> },
    ExecuteContract { contract_addr: String, msg: Vec<u8>, funds: Vec<Coin> },
}

/// Mathematical model of an [`Instruction`].
pub enum InstrV {
    BankSend { to_address: Seq<char>, amount: Seq<CoinV> },
    ExecuteContract { contract_addr: Seq<char>, msg: Seq<u8>, funds: Seq<CoinV> },
}

impl View for Instruction {
    type V = InstrV;

    open spec fn view(&self) -> InstrV {
        match self {
            Instruction::BankSend { to_address, amount } => InstrV::BankSend {
                to_address: to_address@,
                amount: coins_view(amount@),
            },
            Instruction::ExecuteContract { contract_addr, msg, funds } => {
                InstrV::ExecuteContract {
                    contract_addr: contract_addr@,
                    msg: msg@,
                    funds: coins_view(funds@),
                }
            },
        }
    }
}

/// Model of an instruction list, element by element.
pub open spec fn instrs_view(s: Seq<Instruction>) -> Seq<InstrV> {
    s.map_values(|i: Instruction| i@)
}

/// Model of an optional address.
pub open spec fn opt_str_view(o: Option<String>) -> Option<Seq<char>> {
    match o {
        Some(s) => Some(s@),
        None => None,
    }
}

} // verus!
