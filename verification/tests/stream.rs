use std::sync::Arc;

use dolos::point::ChainPoint;
use dolos::stream::{ChainStream, StreamInput, StreamPhase, TipEvent};
use dolos::wal::{assert_point, contains_point, find_intersect, WalError};

#[test]
fn a_stream_starts_with_the_point_it_intersected() {
    let point = ChainPoint::Specific(10, [1u8; 32]);

    assert_eq!(
        ChainStream::start(Some(point)),
        Some((StreamPhase::CatchUp, TipEvent::Mark(point)))
    );
}

#[test]
fn test_stream_unknown_intersect() {
    assert_eq!(ChainStream::start(None), None);
}

#[test]
fn a_catch_up_that_fails_says_so_instead_of_ending() {
    let block = Arc::new(vec![1u8]);
    let point = ChainPoint::Specific(11, [2u8; 32]);

    let (phase, told) = ChainStream::step::<String>(
        StreamPhase::CatchUp,
        StreamInput::CatchUp(Ok(Some((point, block.clone())))),
    );
    assert_eq!(phase, StreamPhase::CatchUp);
    assert_eq!(told, Some(Ok(TipEvent::Apply(point, block))));

    let (phase, told) = ChainStream::step::<String>(
        StreamPhase::CatchUp,
        StreamInput::CatchUp(Err("archive".to_string())),
    );
    assert_eq!(phase, StreamPhase::Done);
    assert_eq!(told, Some(Err("archive".to_string())));

    let (phase, told) =
        ChainStream::step::<String>(StreamPhase::Done, StreamInput::Cancelled);
    assert_eq!(phase, StreamPhase::Done);
    assert_eq!(told, None);
}

#[test]
fn the_end_of_local_history_moves_to_the_tip_until_cancelled() {
    let (phase, told) =
        ChainStream::step::<String>(StreamPhase::CatchUp, StreamInput::CatchUp(Ok(None)));
    assert_eq!(phase, StreamPhase::Follow);
    assert_eq!(told, None);

    let event = TipEvent::Undo(ChainPoint::Specific(3, [3u8; 32]), Arc::new(vec![]));
    let (phase, told) =
        ChainStream::step::<String>(StreamPhase::Follow, StreamInput::Tip(event.clone()));
    assert_eq!(phase, StreamPhase::Follow);
    assert_eq!(told, Some(Ok(event)));

    let (phase, told) = ChainStream::step::<String>(StreamPhase::Follow, StreamInput::Cancelled);
    assert_eq!(phase, StreamPhase::Done);
    assert_eq!(told, None);
}

#[test]
fn the_first_candidate_the_log_holds_is_the_intersection() {
    let log = vec![
        ChainPoint::Specific(10, [1u8; 32]),
        ChainPoint::Specific(20, [2u8; 32]),
    ];
    let candidates = [
        ChainPoint::Specific(30, [3u8; 32]),
        ChainPoint::Specific(20, [2u8; 32]),
        ChainPoint::Specific(10, [1u8; 32]),
    ];

    assert_eq!(
        find_intersect(&log, &candidates),
        Some(ChainPoint::Specific(20, [2u8; 32]))
    );
    assert_eq!(find_intersect(&log, &candidates[..1]), None);
}

#[test]
fn a_point_the_log_does_not_hold_is_named_in_the_error() {
    let log = vec![ChainPoint::Specific(10, [1u8; 32])];
    let missing = ChainPoint::Specific(10, [9u8; 32]);

    assert!(contains_point(&log, &log[0]));
    assert_eq!(assert_point(&log, &log[0]), Ok(()));
    assert_eq!(
        assert_point(&log, &missing),
        Err(WalError::PointNotFound(missing))
    );
}
