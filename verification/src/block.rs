//! The plain data that the engine reads from a fetched block.
//!
//! A remote node hands back rich transaction and receipt records; the
//! ordering logic only ever reads a handful of their fields. The types here
//! hold exactly those fields as plain values, so that every decision made
//! over them can be stated and verified.

use vstd::prelude::*;

verus! {

/// A 32-byte block or transaction hash.
pub type BlockHash = [u8; 32];

/// The envelope format a transaction was submitted in.
#[derive(Debug, Clone, Copy, PartialEq, Eq, Structural)]
pub enum TxEnvelopeKind {
    Legacy,
    Eip2930,
    Eip1559,
    Eip4844,
    Eip7702,
}

/// One transaction of a fetched block, reduced to what the ordering logic
/// reads: its hash, its reported position within the block, and its envelope.
#[derive(Debug, Clone, Copy, PartialEq, Eq)]
pub struct Transaction {
    pub hash: BlockHash,
    /// The index the node reports for this transaction within its block.
    pub transaction_index: u64,
    pub envelope: TxEnvelopeKind,
}

/// One receipt of a fetched block, reduced to what the ordering logic reads.
#[derive(Debug, Clone, Copy, PartialEq, Eq)]
pub struct TransactionReceipt {
    pub transaction_hash: BlockHash,
    /// The index the node reports for the receipted transaction.
    pub transaction_index: u64,
}

/// The (block number, sequence index) tag of one paired item.
#[derive(Debug, Clone, Copy, PartialEq, Eq, Structural)]
pub struct BlockItemIdentifier {
    pub block_number: u64,
    pub index: u64,
}

impl BlockItemIdentifier {
    pub fn new(block_number: u64, index: u64) -> (r: Self)
        ensures
            r == (BlockItemIdentifier { block_number, index }),
    {
        BlockItemIdentifier { block_number, index }
    }
}

/// The transactions of a block response: either full bodies, or only hashes
/// when the node was not asked for (or did not supply) materialized
/// transactions.
#[derive(Debug, PartialEq, Eq)]
pub enum BlockTransactions {
    Full(Vec<Transaction>),
    Hashes(Vec<BlockHash>),
}

/// The header fields of a fetched block that the engine reads.
#[derive(Debug, Clone, Copy, PartialEq, Eq)]
pub struct BlockHeader {
    pub hash: BlockHash,
    pub number: u64,
}

/// A fetched block: its header and its (possibly not materialized)
/// transactions.
#[derive(Debug, PartialEq, Eq)]
pub struct Block {
    pub header: BlockHeader,
    pub transactions: BlockTransactions,
}

/// An item that carries the transaction index its node reported for it.
///
/// Both transactions and receipts report such an index, and the pairing
/// algorithm sorts each list by it before zipping the two.
pub trait TransactionIndexed {
    /// The reported index, as seen by specifications.
    spec fn spec_reported_index(&self) -> u64;

    /// The reported index.
    fn reported_index(&self) -> (r: u64)
        ensures
            r == self.spec_reported_index(),
    ;
}

impl TransactionIndexed for Transaction {
    open spec fn spec_reported_index(&self) -> u64 {
        self.transaction_index
    }

    fn reported_index(&self) -> (r: u64) {
        self.transaction_index
    }
}

impl TransactionIndexed for TransactionReceipt {
    open spec fn spec_reported_index(&self) -> u64 {
        self.transaction_index
    }

    fn reported_index(&self) -> (r: u64) {
        self.transaction_index
    }
}

} // verus!
