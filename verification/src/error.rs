//! Ledger-level errors and per-transaction execution status.
//!
//! Every error aborts exactly one transaction: the ledger records it in
//! the status map and continues with the next transaction.  No condition
//! inside the core halts the ledger.

use vstd::prelude::*;

verus! {

/// Why a transaction's execution was rejected.
#[derive(Clone, Copy, PartialEq, Eq, Structural, Debug)]
pub enum Error {
    /// A payer's balance is smaller than an amount it must pay.
    InsufficientFunds,
    /// A wallet holds less of an asset than a step must move or retire.
    InsufficientAssets,
    /// An asset required by the transaction is not in the registry or
    /// not known to the wallet that must supply it.
    AssetNotFound,
    /// A structurally disallowed request, such as the intermediary fee
    /// strategy on a two-party exchange, or an amount that does not fit
    /// the 64-bit currency range.
    InvalidTransaction,
    /// An asset-registry merge met a conflicting creator or fee schedule.
    InvalidAssetInfo,
}

/// The recorded outcome of one executed transaction, keyed by its hash.
#[derive(Clone, Copy, PartialEq, Eq, Structural, Debug)]
pub enum TxStatus {
    /// The transaction applied in full.
    Success,
    /// The transaction applied nothing; the error says why.
    Fail(Error),
}

impl Error {
    /// A short human-readable name for the error.
    pub fn describe(&self) -> (r: &'static str)
        ensures
            r@ == describe_error(*self),
    {
        match self {
            Error::InsufficientFunds => "insufficient funds",
            Error::InsufficientAssets => "insufficient assets",
            Error::AssetNotFound => "asset not found",
            Error::InvalidTransaction => "invalid transaction",
            Error::InvalidAssetInfo => "invalid asset info",
        }
    }
}

/// The name `describe` returns for each error kind.
pub open spec fn describe_error(e: Error) -> Seq<char> {
    match e {
        Error::InsufficientFunds => "insufficient funds"@,
        Error::InsufficientAssets => "insufficient assets"@,
        Error::AssetNotFound => "asset not found"@,
        Error::InvalidTransaction => "invalid transaction"@,
        Error::InvalidAssetInfo => "invalid asset info"@,
    }
}

} // verus!
