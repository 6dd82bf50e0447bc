use std::sync::Arc;

use dolos::point::ChainPoint;
use dolos::wal::{blocks_after, intersect_candidates, RawBlock};

fn block(slot: u64, tag: u8) -> (ChainPoint, RawBlock) {
    (ChainPoint::Specific(slot, [tag; 32]), Arc::new(vec![tag]))
}

fn slots(blocks: Vec<(ChainPoint, RawBlock)>) -> Vec<u64> {
    blocks.into_iter().map(|(point, _)| point.slot()).collect()
}

#[test]
fn the_point_the_caller_named_is_dropped() {
    let from = ChainPoint::Specific(5, [1u8; 32]);
    let page = vec![block(5, 1), block(6, 2), block(7, 3)];

    assert_eq!(slots(blocks_after(Some(&from), page)), [6, 7]);
}

#[test]
fn a_point_with_no_hash_names_the_block_at_that_slot() {
    let from = ChainPoint::Slot(5);
    let page = vec![block(5, 1), block(6, 2), block(7, 3)];

    assert_eq!(slots(blocks_after(Some(&from), page)), [6, 7]);
}

#[test]
fn a_different_block_at_the_same_slot_is_kept() {
    let from = ChainPoint::Specific(5, [9u8; 32]);
    let page = vec![block(5, 1), block(6, 2)];

    assert_eq!(slots(blocks_after(Some(&from), page)), [5, 6]);
}

#[test]
fn every_block_is_kept_when_the_caller_names_no_point() {
    let page = vec![block(5, 1), block(6, 2)];

    assert_eq!(slots(blocks_after(None, page)), [5, 6]);
}

#[test]
fn a_caller_resuming_at_origin_keeps_the_block_at_slot_zero() {
    let from = ChainPoint::Origin;
    let page = vec![block(0, 1), block(5, 2)];

    assert_eq!(slots(blocks_after(Some(&from), page)), [0, 5]);
}

fn log(n: u64) -> Vec<ChainPoint> {
    (1..=n).map(|s| ChainPoint::Specific(s, [s as u8; 32])).collect()
}

#[test]
fn candidates_start_at_the_tip_and_thin_out_exponentially() {
    let points = log(20);
    let candidates = intersect_candidates(&points, 10);
    let slots: Vec<u64> = candidates.iter().map(|p| p.slot()).collect();

    // The tip, then skips of 1, 3 and 7 points.
    assert_eq!(slots, [20, 18, 14, 6]);
}

#[test]
fn candidates_stop_at_the_limit() {
    let points = log(100);
    let candidates = intersect_candidates(&points, 2);

    assert_eq!(candidates.len(), 2);
    assert_eq!(candidates[0].slot(), 100);
    assert_eq!(candidates[1].slot(), 98);
}

#[test]
fn points_without_a_hash_are_never_candidates() {
    let points = vec![
        ChainPoint::Specific(1, [1u8; 32]),
        ChainPoint::Specific(2, [0u8; 32]),
        ChainPoint::Slot(3),
    ];
    let candidates = intersect_candidates(&points, 5);

    assert_eq!(candidates, vec![ChainPoint::Specific(1, [1u8; 32])]);
}

#[test]
fn an_empty_log_has_no_candidates() {
    assert!(intersect_candidates(&Vec::new(), 5).is_empty());
}
