//! The failures that abort an operation without aborting the process.

use vstd::prelude::*;

verus! {

/// An argument of the wrong kind, or an asset that no contract defined.
#[derive(Clone, Copy, Debug, PartialEq, Eq, Structural)]
pub enum CheckErrors {
    /// A value is not of the type that was expected of it.
    TypeValueError,
    BadTransferSTXArguments,
    BadTransferFTArguments,
    BadTransferNFTArguments,
    BadMintFTArguments,
    /// The contract already defines an asset of that name.
    NameAlreadyUsed,
    /// The contract defines no fungible token of that name.
    NoSuchFT,
    /// The contract defines no non-fungible token of that name.
    NoSuchNFT,
    /// The operation needs more memory than the budget has left.
    MemoryBalanceExceeded,
}

/// A failure that arises from the state of the ledger.
#[derive(Clone, Copy, Debug, PartialEq, Eq, Structural)]
pub enum RuntimeErrorType {
    ArithmeticOverflow,
    /// The supply (first) would pass the declared maximum (second).
    SupplyOverflow(u128, u128),
    /// No owner is recorded for the token.
    NoSuchToken,
}

/// The failure of an operation that contract code called.
#[derive(Clone, Copy, Debug, PartialEq, Eq, Structural)]
pub enum InterpreterError {
    Unchecked(CheckErrors),
    Runtime(RuntimeErrorType),
}

/// The failure of a read of the payments table.
#[derive(Clone, Copy, Debug, PartialEq, Eq, Structural)]
pub enum DBError {
    /// A column does not hold what it should.
    ParseError,
}

/// The failure of an operation of the chain state.
#[derive(Clone, Copy, Debug, PartialEq, Eq, Structural)]
pub enum Error {
    /// The account already has locked tokens.
    PoxAlreadyLocked,
    /// The account cannot transfer as much as was to be locked.
    PoxInsufficientBalance,
    ClarityError(InterpreterError),
    DBError(DBError),
}

} // verus!
