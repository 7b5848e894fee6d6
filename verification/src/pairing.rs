//! Pairing transactions with their receipts into an ordered block record.
//!
//! Given one block's transaction list and receipt list, each list is sorted
//! stably by its reported transaction index, the two are zipped positionally,
//! and every pair is tagged with a dense, zero-based sequence index. The
//! reported index values themselves never reach the output identifier, so
//! the numbering stays contiguous whatever gaps or irregularities the node
//! reported.

use vstd::prelude::*;

use crate::block::{
    Block, BlockHash, BlockItemIdentifier, BlockTransactions, Transaction, TransactionIndexed,
    TransactionReceipt, TxEnvelopeKind,
};
use crate::ordering::{lemma_sort_indexed_ensures, sort_by_reported_index, sort_indexed};
use crate::Error;

verus! {

/// One matched transaction and its receipt, tagged with the (block number,
/// sequence index) identifier the pairing assigned to it.
#[derive(Debug, Clone, Copy, PartialEq, Eq)]
pub struct TxRx {
    pub id: BlockItemIdentifier,
    pub tx: Transaction,
    pub rx: TransactionReceipt,
}

impl TxRx {
    /// Builds one pair from its parts. Never fails; the `Result` shape
    /// mirrors the construction interface of the block record.
    pub fn try_create(id: BlockItemIdentifier, tx: Transaction, rx: TransactionReceipt) -> (r:
        Result<Self, Error>)
        ensures
            r == Ok::<TxRx, Error>(TxRx { id, tx, rx }),
    {
        Ok(TxRx { id, tx, rx })
    }

    pub fn tx(&self) -> (r: &Transaction)
        ensures
            r == self.tx,
    {
        &self.tx
    }

    pub fn rx(&self) -> (r: &TransactionReceipt)
        ensures
            r == self.rx,
    {
        &self.rx
    }

    pub fn tx_hash(&self) -> (r: BlockHash)
        ensures
            r == self.tx.hash,
    {
        self.tx.hash
    }

    pub fn id(&self) -> (r: &BlockItemIdentifier)
        ensures
            r == self.id,
    {
        &self.id
    }

    /// The numeric type tag of the transaction's envelope; legacy
    /// transactions carry none.
    pub fn tx_type(&self) -> (r: Option<u8>)
        ensures
            r == (match self.tx.envelope {
                TxEnvelopeKind::Legacy => Option::<u8>::None,
                TxEnvelopeKind::Eip2930 => Some(1u8),
                TxEnvelopeKind::Eip1559 => Some(2u8),
                TxEnvelopeKind::Eip4844 => Some(3u8),
                TxEnvelopeKind::Eip7702 => Some(4u8),
            }),
    {
        match self.tx.envelope {
            TxEnvelopeKind::Legacy => None,
            TxEnvelopeKind::Eip2930 => Some(1),
            TxEnvelopeKind::Eip1559 => Some(2),
            TxEnvelopeKind::Eip4844 => Some(3),
            TxEnvelopeKind::Eip7702 => Some(4),
        }
    }
}

/// The pairs a block's transaction and receipt lists produce: both lists
/// sorted stably by reported index, zipped positionally, pair `i` tagged
/// with sequence index `i`.
pub open spec fn paired_items(
    number: u64,
    txs: Seq<Transaction>,
    rxs: Seq<TransactionReceipt>,
) -> Seq<TxRx> {
    Seq::new(
        txs.len(),
        |i: int|
            TxRx {
                id: BlockItemIdentifier { block_number: number, index: i as u64 },
                tx: sort_indexed(txs)[i],
                rx: sort_indexed(rxs)[i],
            },
    )
}

/// What an [`OrderedBlock`] holds, as seen by specifications.
pub struct OrderedBlockView {
    pub chain_id: u64,
    pub number: u64,
    pub hash: BlockHash,
    pub items: Seq<TxRx>,
}

/// An immutable record of one chain block: its chain id, number and hash,
/// and its matched transaction/receipt pairs in dense sequence order.
///
/// The only constructor is [`OrderedBlock::try_create`], which refuses
/// transaction and receipt lists of different lengths; a value of this type
/// therefore always holds exactly as many pairs as the block reported
/// transactions.
#[derive(Debug)]
pub struct OrderedBlock {
    chain_id: u64,
    number: u64,
    hash: BlockHash,
    items: Vec<TxRx>,
}

impl View for OrderedBlock {
    type V = OrderedBlockView;

    closed spec fn view(&self) -> OrderedBlockView {
        OrderedBlockView {
            chain_id: self.chain_id,
            number: self.number,
            hash: self.hash,
            items: self.items@,
        }
    }
}

impl OrderedBlock {
    /// Pairs `transactions` with `receipts` into an ordered block record.
    ///
    /// Fails with `TransactionsReceiptsMismatch` when the two lists differ
    /// in length; on lists of equal length it always succeeds, and the
    /// record holds exactly the pairs `paired_items` describes.
    pub fn try_create(
        chain_id: u64,
        number: u64,
        hash: BlockHash,
        transactions: Vec<Transaction>,
        receipts: Vec<TransactionReceipt>,
    ) -> (r: Result<Self, Error>)
        ensures
            transactions@.len() != receipts@.len() ==> r == Err::<OrderedBlock, Error>(
                Error::TransactionsReceiptsMismatch(number),
            ),
            transactions@.len() == receipts@.len() ==> (r matches Ok(b) && b@ == (OrderedBlockView {
                chain_id,
                number,
                hash,
                items: paired_items(number, transactions@, receipts@),
            })),
    {
        let ghost txs0 = transactions@;
        let ghost rxs0 = receipts@;
        let n = transactions.len();
        if n != receipts.len() {
            return Err(Error::TransactionsReceiptsMismatch(number));
        }
        let sorted_txs = sort_by_reported_index(transactions);
        let sorted_rxs = sort_by_reported_index(receipts);
        proof {
            lemma_sort_indexed_ensures(txs0);
            lemma_sort_indexed_ensures(rxs0);
        }
        let mut items: Vec<TxRx> = Vec::new();
        let mut i: usize = 0;
        while i < n
            invariant
                i <= n,
                txs0.len() == n,
                rxs0.len() == n,
                sorted_txs@ == sort_indexed(txs0),
                sorted_rxs@ == sort_indexed(rxs0),
                sorted_txs@.len() == n,
                sorted_rxs@.len() == n,
                items@ == paired_items(number, txs0, rxs0).take(i as int),
            decreases n - i,
        {
            let pair = TxRx {
                id: BlockItemIdentifier::new(number, i as u64),
                tx: sorted_txs[i],
                rx: sorted_rxs[i],
            };
            items.push(pair);
            proof {
                assert(paired_items(number, txs0, rxs0)[i as int] == pair);
                assert(paired_items(number, txs0, rxs0).take(i as int + 1) =~= paired_items(
                    number,
                    txs0,
                    rxs0,
                ).take(i as int).push(pair));
            }
            i = i + 1;
        }
        proof {
            assert(paired_items(number, txs0, rxs0).take(n as int) =~= paired_items(
                number,
                txs0,
                rxs0,
            ));
        }
        Ok(OrderedBlock { chain_id, number, hash, items })
    }

    pub fn chain_id(&self) -> (r: u64)
        ensures
            r == self@.chain_id,
    {
        self.chain_id
    }

    pub fn number(&self) -> (r: u64)
        ensures
            r == self@.number,
    {
        self.number
    }

    pub fn hash(&self) -> (r: Option<BlockHash>)
        ensures
            r == Some(self@.hash),
    {
        Some(self.hash)
    }

    pub fn items(&self) -> (r: &[TxRx])
        ensures
            r@ == self@.items,
    {
        self.items.as_slice()
    }
}

/// A block's transactions and receipts, each sorted stably by reported
/// index but not yet zipped into pairs.
#[derive(Debug)]
pub struct OrderedRawBlock {
    pub chain_id: Option<u64>,
    pub number: u64,
    pub hash: BlockHash,
    pub transactions: Vec<Transaction>,
    pub receipts: Vec<TransactionReceipt>,
}

impl OrderedRawBlock {
    pub fn new(
        chain_id: Option<u64>,
        number: u64,
        hash: BlockHash,
        transactions: Vec<Transaction>,
        receipts: Vec<TransactionReceipt>,
    ) -> (r: Self)
        ensures
            r.chain_id == chain_id,
            r.number == number,
            r.hash == hash,
            r.transactions@ == sort_indexed(transactions@),
            r.receipts@ == sort_indexed(receipts@),
    {
        let transactions = sort_by_reported_index(transactions);
        let receipts = sort_by_reported_index(receipts);
        OrderedRawBlock { chain_id, number, hash, transactions, receipts }
    }
}

/// The pure half of the fetch-and-pair step: interprets one fetched block
/// and its receipts, exactly as a `next()` call consumes them.
///
/// Fails with `NotFullTransactionsFetched` when the block response carried
/// only hashes, with `TransactionsReceiptsMismatch` when the list lengths
/// differ, and otherwise always returns the ordered record of the block.
pub fn pair_block(chain_id: u64, number: u64, block: Block, receipts: Vec<TransactionReceipt>) -> (r:
    Result<OrderedBlock, Error>)
    ensures
        block.transactions matches BlockTransactions::Hashes(h) ==> r == Err::<OrderedBlock, Error>(
            Error::NotFullTransactionsFetched(number),
        ),
        block.transactions matches BlockTransactions::Full(txs) ==> {
            &&& txs@.len() != receipts@.len() ==> r == Err::<OrderedBlock, Error>(
                Error::TransactionsReceiptsMismatch(number),
            )
            &&& txs@.len() == receipts@.len() ==> (r matches Ok(b) && b@ == (OrderedBlockView {
                chain_id,
                number,
                hash: block.header.hash,
                items: paired_items(number, txs@, receipts@),
            }))
        },
{
    match block.transactions {
        BlockTransactions::Hashes(_) => Err(Error::NotFullTransactionsFetched(number)),
        BlockTransactions::Full(txs) => OrderedBlock::try_create(
            chain_id,
            number,
            block.header.hash,
            txs,
            receipts,
        ),
    }
}

/// The pure half of fetching a raw block: interprets one fetched block and
/// its receipts as with [`pair_block`], but leaves the two sorted lists
/// unzipped.
pub fn pair_raw_block(
    chain_id: u64,
    number: u64,
    block: Block,
    receipts: Vec<TransactionReceipt>,
) -> (r: Result<OrderedRawBlock, Error>)
    ensures
        block.transactions matches BlockTransactions::Hashes(h) ==> r == Err::<
            OrderedRawBlock,
            Error,
        >(Error::NotFullTransactionsFetched(number)),
        block.transactions matches BlockTransactions::Full(txs) ==> {
            &&& txs@.len() != receipts@.len() ==> r == Err::<OrderedRawBlock, Error>(
                Error::TransactionsReceiptsMismatch(number),
            )
            &&& txs@.len() == receipts@.len() ==> (r matches Ok(b) && b.chain_id == Some(chain_id)
                && b.number == number && b.hash == block.header.hash && b.transactions@
                == sort_indexed(txs@) && b.receipts@ == sort_indexed(receipts@))
        },
{
    match block.transactions {
        BlockTransactions::Hashes(_) => Err(Error::NotFullTransactionsFetched(number)),
        BlockTransactions::Full(txs) => {
            if txs.len() != receipts.len() {
                return Err(Error::TransactionsReceiptsMismatch(number));
            }
            Ok(OrderedRawBlock::new(Some(chain_id), number, block.header.hash, txs, receipts))
        },
    }
}

/// For any block with `N` transactions and `N` receipts the pairing yields
/// exactly `N` pairs, and pair `i` carries sequence index `i` for every `i`
/// below `N`.
pub proof fn lemma_paired_items_dense(
    number: u64,
    txs: Seq<Transaction>,
    rxs: Seq<TransactionReceipt>,
)
    requires
        txs.len() == rxs.len(),
    ensures
        paired_items(number, txs, rxs).len() == txs.len(),
        forall|i: int|
            0 <= i < txs.len() ==> #[trigger] paired_items(number, txs, rxs)[i].id
                == (BlockItemIdentifier { block_number: number, index: i as u64 }),
{
}

/// Pairing is index-based, not arrival-based: whatever order the two lists
/// arrive in, the pairs ascend (weakly) by the reported index of both their
/// transaction and their receipt.
pub proof fn lemma_paired_items_sorted(
    number: u64,
    txs: Seq<Transaction>,
    rxs: Seq<TransactionReceipt>,
)
    requires
        txs.len() == rxs.len(),
    ensures
        forall|i: int, j: int|
            0 <= i < j < paired_items(number, txs, rxs).len() ==> #[trigger] paired_items(
                number,
                txs,
                rxs,
            )[i].tx.spec_reported_index() <= #[trigger] paired_items(
                number,
                txs,
                rxs,
            )[j].tx.spec_reported_index(),
        forall|i: int, j: int|
            0 <= i < j < paired_items(number, txs, rxs).len() ==> #[trigger] paired_items(
                number,
                txs,
                rxs,
            )[i].rx.spec_reported_index() <= #[trigger] paired_items(
                number,
                txs,
                rxs,
            )[j].rx.spec_reported_index(),
{
    lemma_sort_indexed_ensures(txs);
    lemma_sort_indexed_ensures(rxs);
}

/// The pairing loses nothing and invents nothing: the transactions of the
/// pairs are exactly the transactions fetched, and likewise the receipts.
pub proof fn lemma_paired_items_permutation(
    number: u64,
    txs: Seq<Transaction>,
    rxs: Seq<TransactionReceipt>,
)
    requires
        txs.len() == rxs.len(),
    ensures
        paired_items(number, txs, rxs).map(|i: int, p: TxRx| p.tx).to_multiset()
            == txs.to_multiset(),
        paired_items(number, txs, rxs).map(|i: int, p: TxRx| p.rx).to_multiset()
            == rxs.to_multiset(),
{
    lemma_sort_indexed_ensures(txs);
    lemma_sort_indexed_ensures(rxs);
    assert(paired_items(number, txs, rxs).map(|i: int, p: TxRx| p.tx) =~= sort_indexed(txs));
    assert(paired_items(number, txs, rxs).map(|i: int, p: TxRx| p.rx) =~= sort_indexed(rxs));
}

} // verus!
