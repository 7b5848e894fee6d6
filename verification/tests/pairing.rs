//! Tests of the pairing and ordering of one block's transactions with its
//! receipts.

use eth::block::{Block, BlockHeader, BlockItemIdentifier, BlockTransactions, Transaction,
    TransactionReceipt, TxEnvelopeKind};
use eth::pairing::{pair_block, pair_raw_block, OrderedBlock, OrderedRawBlock, TxRx};
use eth::Error;

fn tx(index: u64, tag: u8) -> Transaction {
    Transaction { hash: [tag; 32], transaction_index: index, envelope: TxEnvelopeKind::Eip1559 }
}

fn rx(index: u64, tag: u8) -> TransactionReceipt {
    TransactionReceipt { transaction_hash: [tag; 32], transaction_index: index }
}

#[test]
fn pairs_are_dense_and_count_matches() {
    let txs = vec![tx(2, 12), tx(0, 10), tx(1, 11)];
    let rxs = vec![rx(1, 11), rx(2, 12), rx(0, 10)];
    let block = OrderedBlock::try_create(1, 500, [9u8; 32], txs, rxs).unwrap();

    let items = block.items();
    assert_eq!(items.len(), 3);
    for (i, pair) in items.iter().enumerate() {
        assert_eq!(
            *pair.id(),
            BlockItemIdentifier { block_number: 500, index: i as u64 }
        );
    }
}

#[test]
fn pairs_align_transaction_with_its_receipt() {
    let txs = vec![tx(2, 12), tx(0, 10), tx(1, 11)];
    let rxs = vec![rx(1, 21), rx(2, 22), rx(0, 20)];
    let block = OrderedBlock::try_create(1, 500, [9u8; 32], txs, rxs).unwrap();

    let items = block.items();
    for (i, pair) in items.iter().enumerate() {
        assert_eq!(pair.tx().transaction_index, i as u64);
        assert_eq!(pair.rx().transaction_index, i as u64);
    }
    assert_eq!(items[0].tx().hash, [10u8; 32]);
    assert_eq!(items[0].rx().transaction_hash, [20u8; 32]);
    assert_eq!(items[2].tx().hash, [12u8; 32]);
    assert_eq!(items[2].rx().transaction_hash, [22u8; 32]);
}

#[test]
fn mismatched_counts_never_produce_a_block() {
    let txs = vec![tx(0, 1), tx(1, 2)];
    let rxs = vec![rx(0, 1)];
    let res = OrderedBlock::try_create(1, 42, [0u8; 32], txs, rxs);
    assert_eq!(res.unwrap_err(), Error::TransactionsReceiptsMismatch(42));
}

#[test]
fn reversed_arrival_order_still_yields_ascending_pairs() {
    // Both lists arrive in reverse of their reported indices.
    let txs = vec![tx(3, 3), tx(2, 2), tx(1, 1), tx(0, 0)];
    let rxs = vec![rx(3, 3), rx(2, 2), rx(1, 1), rx(0, 0)];
    let block = OrderedBlock::try_create(1, 7, [0u8; 32], txs, rxs).unwrap();

    let items = block.items();
    assert_eq!(items.len(), 4);
    for i in 1..items.len() {
        assert!(items[i - 1].tx().transaction_index <= items[i].tx().transaction_index);
        assert!(items[i - 1].id().index < items[i].id().index);
    }
    for (i, pair) in items.iter().enumerate() {
        assert_eq!(pair.tx().transaction_index, i as u64);
        assert_eq!(pair.id().index, i as u64);
    }
}

#[test]
fn equal_reported_indices_keep_arrival_order() {
    // Two transactions report the same index: the sort is stable, so their
    // arrival order decides their sequence positions.
    let txs = vec![tx(5, 101), tx(5, 102), tx(0, 100)];
    let rxs = vec![rx(5, 201), rx(5, 202), rx(0, 200)];
    let block = OrderedBlock::try_create(1, 7, [0u8; 32], txs, rxs).unwrap();

    let items = block.items();
    assert_eq!(items[0].tx().hash, [100u8; 32]);
    assert_eq!(items[1].tx().hash, [101u8; 32]);
    assert_eq!(items[2].tx().hash, [102u8; 32]);
    assert_eq!(items[1].rx().transaction_hash, [201u8; 32]);
    assert_eq!(items[2].rx().transaction_hash, [202u8; 32]);
}

#[test]
fn empty_block_pairs_to_empty_record() {
    let block = OrderedBlock::try_create(1, 0, [0u8; 32], Vec::new(), Vec::new()).unwrap();
    assert_eq!(block.items().len(), 0);
    assert_eq!(block.number(), 0);
}

#[test]
fn pair_block_succeeds_on_full_transactions() {
    let header = BlockHeader { hash: [8u8; 32], number: 900 };
    let block = Block {
        header,
        transactions: BlockTransactions::Full(vec![tx(0, 1), tx(1, 2)]),
    };
    let receipts = vec![rx(0, 1), rx(1, 2)];
    let ordered = pair_block(5, 900, block, receipts).unwrap();

    assert_eq!(ordered.chain_id(), 5);
    assert_eq!(ordered.number(), 900);
    assert_eq!(ordered.hash(), Some([8u8; 32]));
    assert_eq!(ordered.items().len(), 2);
}

#[test]
fn pair_block_rejects_hash_only_transactions() {
    let header = BlockHeader { hash: [8u8; 32], number: 900 };
    let block = Block {
        header,
        transactions: BlockTransactions::Hashes(vec![[1u8; 32], [2u8; 32]]),
    };
    let receipts = vec![rx(0, 1), rx(1, 2)];
    let res = pair_block(5, 900, block, receipts);
    assert_eq!(res.unwrap_err(), Error::NotFullTransactionsFetched(900));
}

#[test]
fn pair_block_rejects_mismatched_counts() {
    let header = BlockHeader { hash: [8u8; 32], number: 901 };
    let block = Block {
        header,
        transactions: BlockTransactions::Full(vec![tx(0, 1)]),
    };
    let receipts = vec![rx(0, 1), rx(1, 2)];
    let res = pair_block(5, 901, block, receipts);
    assert_eq!(res.unwrap_err(), Error::TransactionsReceiptsMismatch(901));
}

#[test]
fn pair_raw_block_sorts_without_zipping() {
    let header = BlockHeader { hash: [4u8; 32], number: 70 };
    let block = Block {
        header,
        transactions: BlockTransactions::Full(vec![tx(1, 1), tx(0, 0)]),
    };
    let raw = pair_raw_block(2, 70, block, vec![rx(1, 1), rx(0, 0)]).unwrap();
    assert_eq!(raw.chain_id, Some(2));
    assert_eq!(raw.transactions[0].transaction_index, 0);
    assert_eq!(raw.transactions[1].transaction_index, 1);
    assert_eq!(raw.receipts[0].transaction_index, 0);

    let hash_only = Block {
        header,
        transactions: BlockTransactions::Hashes(vec![[1u8; 32]]),
    };
    let res = pair_raw_block(2, 70, hash_only, vec![rx(0, 0)]);
    assert_eq!(res.unwrap_err(), Error::NotFullTransactionsFetched(70));

    let short = Block {
        header,
        transactions: BlockTransactions::Full(vec![tx(0, 0)]),
    };
    let res = pair_raw_block(2, 70, short, Vec::new());
    assert_eq!(res.unwrap_err(), Error::TransactionsReceiptsMismatch(70));
}

#[test]
fn txrx_accessors_return_its_parts() {
    let id = BlockItemIdentifier::new(33, 4);
    let t = tx(9, 77);
    let r = rx(9, 88);
    let pair = TxRx::try_create(id, t, r).unwrap();
    assert_eq!(*pair.id(), id);
    assert_eq!(*pair.tx(), t);
    assert_eq!(*pair.rx(), r);
    assert_eq!(pair.tx_hash(), [77u8; 32]);
}

#[test]
fn tx_type_tags_each_envelope() {
    let id = BlockItemIdentifier::new(1, 0);
    let kinds = [
        (TxEnvelopeKind::Legacy, None),
        (TxEnvelopeKind::Eip2930, Some(1)),
        (TxEnvelopeKind::Eip1559, Some(2)),
        (TxEnvelopeKind::Eip4844, Some(3)),
        (TxEnvelopeKind::Eip7702, Some(4)),
    ];
    for (kind, expected) in kinds {
        let t = Transaction { hash: [0u8; 32], transaction_index: 0, envelope: kind };
        let pair = TxRx::try_create(id, t, rx(0, 0)).unwrap();
        assert_eq!(pair.tx_type(), expected);
    }
}

#[test]
fn raw_block_sorts_both_lists_without_zipping() {
    let txs = vec![tx(2, 2), tx(0, 0), tx(1, 1)];
    let rxs = vec![rx(1, 1), rx(0, 0)];
    let raw = OrderedRawBlock::new(Some(3), 60, [6u8; 32], txs, rxs);

    assert_eq!(raw.chain_id, Some(3));
    assert_eq!(raw.number, 60);
    assert_eq!(raw.hash, [6u8; 32]);
    let tx_indices: Vec<u64> = raw.transactions.iter().map(|t| t.transaction_index).collect();
    let rx_indices: Vec<u64> = raw.receipts.iter().map(|r| r.transaction_index).collect();
    assert_eq!(tx_indices, vec![0, 1, 2]);
    assert_eq!(rx_indices, vec![0, 1]);
}
