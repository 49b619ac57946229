//! Plain values that travel from the feed to the report.

use vstd::prelude::*;

verus! {

/// Identifier of a transaction: the 32 bytes of its hash, first byte first.
#[derive(Clone, Copy, Debug, PartialEq, Eq, Hash)]
pub struct TxHash(pub [u8; 32]);

/// Account address: 20 bytes, first byte first.
#[derive(Clone, Copy, Debug, PartialEq, Eq, Hash)]
pub struct Address(pub [u8; 20]);

/// An amount of up to 256 bits, as four 64-bit limbs, least significant
/// limb first.
#[derive(Clone, Copy, Debug, PartialEq, Eq, Hash)]
pub struct Amount(pub [u64; 4]);

/// What a lookup by hash yields when the node knows the transaction: the
/// details that a report carries.
#[derive(Clone, Copy, Debug, PartialEq, Eq)]
pub struct TransactionRecord {
    /// Sender of the transaction.
    pub from: Address,
    /// Value transferred.
    pub value: Amount,
}

/// One entry for the output sink: a pending transaction that the node could
/// resolve.
#[derive(Clone, Copy, Debug, PartialEq, Eq)]
pub struct Report {
    /// Hash as it came from the feed.
    pub hash: TxHash,
    /// Sender of the transaction.
    pub from: Address,
    /// Value transferred.
    pub value: Amount,
}

impl Report {
    /// The report that a resolved hash gives rise to.
    pub open spec fn of(hash: TxHash, record: TransactionRecord) -> Report {
        Report { hash, from: record.from, value: record.value }
    }

    /// Builds the report for `hash` from the record that the lookup found.
    pub fn new(hash: TxHash, record: TransactionRecord) -> (report: Report)
        ensures
            report == Report::of(hash, record),
    {
        Report { hash, from: record.from, value: record.value }
    }
}

} // verus!
