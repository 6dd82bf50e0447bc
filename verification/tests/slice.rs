use dolos::ledger::{EraCbor, LedgerDelta, LedgerError, LedgerState, LedgerStore, TxoRef};
use dolos::slice::{import_block_batch, load_slice_for_block, BlockTx, LedgerSlice};

fn txo(tag: u8, index: u32) -> TxoRef {
    TxoRef([tag; 32], index)
}

fn cbor(byte: u8) -> EraCbor {
    EraCbor(7, vec![byte])
}

fn producing(slot: u64, outputs: Vec<(TxoRef, EraCbor)>) -> LedgerDelta {
    LedgerDelta {
        new_position: Some((slot, [slot as u8; 32])),
        undone_position: None,
        produced_utxo: outputs,
        consumed_utxo: vec![],
        recovered_stxi: vec![],
        undone_utxo: vec![],
        new_pparams: vec![],
    }
}

fn sorted(mut v: Vec<(TxoRef, EraCbor)>) -> Vec<(TxoRef, EraCbor)> {
    v.sort_by_key(|(r, _)| (r.0, r.1));
    v
}

#[test]
fn inputs_are_resolved_from_the_block_the_pending_deltas_and_the_store() {
    let mut store = LedgerStore::from(LedgerState::new());
    store
        .apply(&[producing(1, vec![(txo(1, 0), cbor(10)), (txo(1, 1), cbor(11))])])
        .unwrap();

    let pending = vec![producing(2, vec![(txo(2, 0), cbor(20))])];

    let block = vec![
        BlockTx {
            hash: [3u8; 32],
            consumes: vec![txo(1, 0), txo(2, 0)],
            produces: vec![(0, cbor(30))],
        },
        BlockTx {
            hash: [4u8; 32],
            consumes: vec![txo(3, 0), txo(9, 9)],
            produces: vec![],
        },
    ];

    let slice = load_slice_for_block(&block, &store, &pending).unwrap();

    assert_eq!(
        sorted(slice.resolved_inputs),
        vec![
            (txo(1, 0), cbor(10)),
            (txo(2, 0), cbor(20)),
            (txo(3, 0), cbor(30)),
        ]
    );
}

#[test]
fn an_output_the_block_creates_is_preferred_to_the_store() {
    let mut store = LedgerStore::from(LedgerState::new());
    store.apply(&[producing(1, vec![(txo(5, 0), cbor(1))])]).unwrap();

    let block = vec![
        BlockTx {
            hash: [5u8; 32],
            consumes: vec![],
            produces: vec![(0, cbor(2))],
        },
        BlockTx {
            hash: [6u8; 32],
            consumes: vec![txo(5, 0)],
            produces: vec![],
        },
    ];

    let slice = load_slice_for_block(&block, &store, &[]).unwrap();

    assert_eq!(slice.resolved_inputs, vec![(txo(5, 0), cbor(2))]);
}

#[test]
fn a_block_that_spends_nothing_reads_nothing() {
    let store = LedgerStore::from(LedgerState::new());
    let block = vec![BlockTx {
        hash: [7u8; 32],
        consumes: vec![],
        produces: vec![(0, cbor(1))],
    }];

    let slice = load_slice_for_block(&block, &store, &[]).unwrap();

    assert!(slice.resolved_inputs.is_empty());
}

/// A change that creates what a block's transactions produce and spends
/// the outputs its slice resolved, at a slot named by the block's first
/// transaction.
fn delta_of(block: &Vec<BlockTx>, slice: LedgerSlice) -> Result<LedgerDelta, String> {
    let slot = block[0].hash[0] as u64;
    let mut produced = vec![];
    for tx in block {
        for (index, out) in &tx.produces {
            produced.push((TxoRef(tx.hash, *index), out.clone()));
        }
    }
    Ok(LedgerDelta {
        new_position: Some((slot, [slot as u8; 32])),
        undone_position: None,
        produced_utxo: produced,
        consumed_utxo: slice.resolved_inputs,
        recovered_stxi: vec![],
        undone_utxo: vec![],
        new_pparams: vec![],
    })
}

#[test]
fn a_batch_reads_each_block_against_the_blocks_before_it() {
    let mut store = LedgerStore::from(LedgerState::new());
    store.apply(&[producing(1, vec![(txo(1, 0), cbor(10))])]).unwrap();

    let blocks = vec![
        vec![BlockTx {
            hash: [2u8; 32],
            consumes: vec![txo(1, 0)],
            produces: vec![(0, cbor(20))],
        }],
        vec![BlockTx {
            hash: [3u8; 32],
            consumes: vec![txo(2, 0)],
            produces: vec![(0, cbor(30))],
        }],
    ];

    let finalized_at = std::cell::Cell::new(None);
    import_block_batch(&blocks, &mut store, delta_of, |tip| {
        finalized_at.set(Some(tip));
        tip
    })
    .unwrap();

    assert_eq!(finalized_at.get(), Some(3));
    let left = store.get_utxos(vec![txo(1, 0), txo(2, 0), txo(3, 0)]).unwrap();
    assert_eq!(sorted(left), vec![(txo(3, 0), cbor(30))]);
}

#[test]
fn a_change_that_cannot_be_computed_applies_nothing() {
    let mut store = LedgerStore::from(LedgerState::new());
    store.apply(&[producing(1, vec![(txo(1, 0), cbor(10))])]).unwrap();

    let blocks = vec![vec![BlockTx {
        hash: [2u8; 32],
        consumes: vec![txo(1, 0)],
        produces: vec![],
    }]];

    let result = import_block_batch(
        &blocks,
        &mut store,
        |_: &Vec<BlockTx>, _: LedgerSlice| Err("a spent output is missing".to_string()),
        |tip| tip,
    );

    assert_eq!(
        result,
        Err(LedgerError::BrokenInvariant("a spent output is missing".to_string()))
    );
    let left = store.get_utxos(vec![txo(1, 0)]).unwrap();
    assert_eq!(sorted(left), vec![(txo(1, 0), cbor(10))]);
}
