use dolos::ledger::{EraCbor, LedgerDelta, LedgerState, LedgerStore, PParamsBody, TxoRef};
use dolos::point::ChainPoint;

fn txo(tag: u8, index: u32) -> TxoRef {
    TxoRef([tag; 32], index)
}

fn cbor(byte: u8) -> EraCbor {
    EraCbor(7, vec![byte])
}

fn delta(slot: u64) -> LedgerDelta {
    LedgerDelta {
        new_position: Some((slot, [slot as u8; 32])),
        undone_position: None,
        produced_utxo: vec![],
        consumed_utxo: vec![],
        recovered_stxi: vec![],
        undone_utxo: vec![],
        new_pparams: vec![],
    }
}

fn store() -> LedgerStore {
    LedgerStore::from(LedgerState::new())
}

#[test]
fn a_new_store_is_empty_and_has_no_cursor() {
    let store = store();

    assert!(store.is_empty());
    assert_eq!(store.cursor().unwrap(), None);
    assert!(store.get_pparams(u64::MAX).unwrap().is_empty());
}

#[test]
fn the_cursor_is_the_point_at_the_greatest_slot() {
    let mut store = store();
    store.apply(&[delta(10), delta(30), delta(20)]).unwrap();

    assert!(!store.is_empty());
    assert_eq!(
        store.cursor().unwrap(),
        Some(ChainPoint::Specific(30, [30u8; 32]))
    );
}

#[test]
fn undoing_a_block_moves_the_cursor_back() {
    let mut store = store();
    store.apply(&[delta(10), delta(20)]).unwrap();

    let undo = LedgerDelta {
        new_position: None,
        undone_position: Some((20, [20u8; 32])),
        ..delta(0)
    };
    store.apply(&[undo]).unwrap();

    assert_eq!(
        store.cursor().unwrap(),
        Some(ChainPoint::Specific(10, [10u8; 32]))
    );
}

#[test]
fn produced_outputs_are_found_and_consumed_ones_are_gone() {
    let mut store = store();
    let mut first = delta(1);
    first.produced_utxo = vec![(txo(1, 0), cbor(1)), (txo(1, 1), cbor(2))];
    let mut second = delta(2);
    second.consumed_utxo = vec![(txo(1, 0), cbor(1))];
    store.apply(&[first, second]).unwrap();

    let found = store.get_utxos(vec![txo(1, 0), txo(1, 1), txo(9, 9)]).unwrap();

    assert_eq!(found, vec![(txo(1, 1), cbor(2))]);
}

#[test]
fn an_undone_block_gives_back_what_it_spent() {
    let mut store = store();
    let mut first = delta(1);
    first.produced_utxo = vec![(txo(1, 0), cbor(1))];
    let mut second = delta(2);
    second.consumed_utxo = vec![(txo(1, 0), cbor(1))];
    second.produced_utxo = vec![(txo(2, 0), cbor(5))];
    store.apply(&[first, second]).unwrap();

    let undo = LedgerDelta {
        new_position: None,
        undone_position: Some((2, [2u8; 32])),
        recovered_stxi: vec![(txo(1, 0), cbor(1))],
        undone_utxo: vec![(txo(2, 0), cbor(5))],
        ..delta(0)
    };
    store.apply(&[undo]).unwrap();

    let found = store.get_utxos(vec![txo(1, 0), txo(2, 0)]).unwrap();
    assert_eq!(found, vec![(txo(1, 0), cbor(1))]);
}

#[test]
fn parameters_are_read_up_to_a_slot_in_slot_order() {
    let mut store = store();
    let mut a = delta(5);
    a.new_pparams = vec![PParamsBody(5, vec![5])];
    let mut b = delta(15);
    b.new_pparams = vec![PParamsBody(6, vec![6]), PParamsBody(6, vec![7])];
    let mut c = delta(25);
    c.new_pparams = vec![PParamsBody(7, vec![8])];
    store.apply(&[c, a, b]).unwrap();

    assert_eq!(
        store.get_pparams(15).unwrap(),
        vec![PParamsBody(5, vec![5]), PParamsBody(6, vec![7])]
    );
    assert_eq!(store.get_pparams(4).unwrap(), vec![]);
    assert_eq!(store.get_pparams(100).unwrap().len(), 3);
}

#[test]
fn finalizing_leaves_the_state_as_it_is() {
    let mut store = store();
    let mut first = delta(1);
    first.produced_utxo = vec![(txo(1, 0), cbor(1))];
    store.apply(&[first]).unwrap();

    store.finalize(100).unwrap();

    assert_eq!(store.cursor().unwrap(), Some(ChainPoint::Specific(1, [1u8; 32])));
    assert_eq!(store.get_utxos(vec![txo(1, 0)]).unwrap().len(), 1);
}

#[test]
fn outputs_that_do_not_decode_pay_to_no_address() {
    let mut store = store();
    let mut first = delta(1);
    first.produced_utxo = vec![(txo(1, 0), cbor(1))];
    store.apply(&[first]).unwrap();

    assert!(store.get_utxo_by_address_set(&[1, 2, 3]).unwrap().is_empty());
}

#[test]
fn applying_deltas_in_two_runs_is_applying_them_in_one() {
    let mut first = delta(1);
    first.produced_utxo = vec![(txo(1, 0), cbor(1))];
    let mut second = delta(2);
    second.consumed_utxo = vec![(txo(1, 0), cbor(1))];
    second.produced_utxo = vec![(txo(2, 0), cbor(2))];
    let mut third = delta(3);
    third.new_pparams = vec![PParamsBody(7, vec![3])];

    let mut at_once = store();
    at_once
        .apply(&[first.clone_delta(), second.clone_delta(), third.clone_delta()])
        .unwrap();

    let mut in_runs = store();
    in_runs.apply(&[first]).unwrap();
    in_runs.apply(&[second, third]).unwrap();

    let refs = vec![txo(1, 0), txo(2, 0)];
    assert_eq!(at_once.cursor().unwrap(), in_runs.cursor().unwrap());
    assert_eq!(
        at_once.get_utxos(refs.clone()).unwrap(),
        in_runs.get_utxos(refs).unwrap()
    );
    assert_eq!(at_once.get_pparams(10).unwrap(), in_runs.get_pparams(10).unwrap());
}

trait CloneDelta {
    fn clone_delta(&self) -> Self;
}

impl CloneDelta for LedgerDelta {
    fn clone_delta(&self) -> Self {
        LedgerDelta {
            new_position: self.new_position,
            undone_position: self.undone_position,
            produced_utxo: self.produced_utxo.clone(),
            consumed_utxo: self.consumed_utxo.clone(),
            recovered_stxi: self.recovered_stxi.clone(),
            undone_utxo: self.undone_utxo.clone(),
            new_pparams: self.new_pparams.clone(),
        }
    }
}

#[test]
fn an_output_is_found_by_the_address_it_pays_to() {
    let mut address = vec![0x61];
    address.extend([0x11u8; 28]);
    let mut output = vec![0x82, 0x58, 0x1d];
    output.extend(&address);
    output.extend([0x1a, 0x00, 0x0f, 0x42, 0x40]);

    let mut other = vec![0x61];
    other.extend([0x22u8; 28]);

    let mut store = store();
    let mut first = delta(1);
    first.produced_utxo = vec![
        (txo(1, 0), EraCbor(5, output.clone())),
        (txo(1, 1), cbor(1)),
    ];
    store.apply(&[first]).unwrap();

    assert_eq!(store.get_utxo_by_address_set(&address).unwrap(), vec![txo(1, 0)]);
    assert!(store.get_utxo_by_address_set(&other).unwrap().is_empty());
    assert!(store.get_utxo_by_address_set(&output).unwrap().is_empty());
}
