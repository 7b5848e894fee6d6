//! An ordered, gap-aware stream of chain blocks.
//!
//! This library is the subscription and ordering engine that sits between a
//! remote chain node and a consumer: it unifies bounded historical catch-up
//! and live head-following behind one polling interface, and it pairs each
//! block's transactions with their receipts into an immutable, densely
//! indexed block record.
//!
//! Network transport, task spawning and channels are left to the caller; the
//! types here hold the decisions and the data, with their behaviour stated in
//! contracts and verified.

use vstd::prelude::*;

pub mod block;
pub mod ordering;
pub mod pairing;
pub mod subscription;

verus! {

/// Failures surfaced by the subscription engine.
///
/// Fetch failures name the block they concern; `EndOfSubscription` is the
/// terminal signal of an exhausted source, not a fault.
#[derive(Debug, Clone, Copy, PartialEq, Eq, Structural)]
pub enum Error {
    /// The full block could not be fetched from the node.
    FailedToGetBlock(u64),
    /// The block's receipts could not be fetched from the node.
    FailedToGetReceipts(u64),
    /// The fetched transaction list and receipt list differ in length.
    TransactionsReceiptsMismatch(u64),
    /// The block response carried only transaction hashes, not full bodies.
    NotFullTransactionsFetched(u64),
    /// The chain id could not be fetched during client initialization.
    FailedToGetChainId,
    /// No more blocks will ever arrive from this source.
    EndOfSubscription,
}

} // verus!
