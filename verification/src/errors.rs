use vstd::prelude::*;

verus! {

/// Why a ledger operation was refused.
///
/// Every account and settlement operation returns `Result<(), LedgerError>`;
/// none of these conditions aborts the processing of later records. Each
/// variant carries the identifier the rejection is about; human-readable
/// formatting is left to the caller.
#[derive(Clone, Copy, Debug, PartialEq, Eq, Structural)]
pub enum LedgerError {
    /// The target account is locked after a successful chargeback.
    AccountLocked { client: u16 },
    /// A withdrawal asked for at least the whole available balance.
    InsufficientFunds { client: u16 },
    /// A resolve or chargeback asked for more than the held balance.
    InsufficientHeldFunds { client: u16 },
    /// A dispute, resolve or chargeback named an unknown transaction.
    TransactionNotFound { tx: u32 },
    /// A resolve or chargeback named a transaction with no recorded dispute.
    DisputeNotFound { tx: u32 },
    /// The record's kind was none of the five known ones.
    UnknownTransactionKind,
}

} // verus!
