use vstd::prelude::*;
use crate::point::ChainPoint;
use crate::wal::RawBlock;

verus! {

/// What a client following the chain is told.
#[derive(Debug, Clone, PartialEq)]
pub enum TipEvent {
    /// The point the stream starts after.
    Mark(ChainPoint),
    /// A block to apply.
    Apply(ChainPoint, RawBlock),
    /// A block to undo.
    Undo(ChainPoint, RawBlock),
}

/// Where a stream of chain events is: catching up on the blocks local
/// history holds, following the tip, or ended.
#[derive(Debug, Clone, Copy, PartialEq, Eq, Structural)]
pub enum StreamPhase {
    CatchUp,
    Follow,
    Done,
}

/// What the stream learned since its last step.
pub enum StreamInput<E> {
    /// The next block of local history, none when it holds no more, or the
    /// failure to read it.
    CatchUp(Result<Option<(ChainPoint, RawBlock)>, E>),
    /// The next event at the tip.
    Tip(TipEvent),
    /// The client went away.
    Cancelled,
}

/// A stream of chain events from an intersection onward: first the point it
/// starts after, then every block local history holds past it, then the
/// events at the tip until the client goes away. A failure to read local
/// history is told to the client and ends the stream, so the client can
/// tell it from a cancellation.
pub struct ChainStream;

/// The step a stream takes: the phase it moves to and what it tells the
/// client, if anything.
pub open spec fn stream_step<E>(phase: StreamPhase, input: StreamInput<E>) -> (
    StreamPhase,
    Option<Result<TipEvent, E>>,
) {
    match (phase, input) {
        (StreamPhase::CatchUp, StreamInput::CatchUp(Ok(Some((point, block))))) => (
            StreamPhase::CatchUp,
            Some(Ok(TipEvent::Apply(point, block))),
        ),
        (StreamPhase::CatchUp, StreamInput::CatchUp(Ok(None))) => (StreamPhase::Follow, None),
        (StreamPhase::CatchUp, StreamInput::CatchUp(Err(e))) => (StreamPhase::Done, Some(Err(e))),
        (StreamPhase::Follow, StreamInput::Tip(event)) => (StreamPhase::Follow, Some(Ok(event))),
        (StreamPhase::Follow, StreamInput::Cancelled) => (StreamPhase::Done, None),
        (p, _) => (p, None),
    }
}

impl ChainStream {
    /// How a stream starts once the intersection is looked up: none when no
    /// candidate point is in local history, else catching up, with the point
    /// it starts after as the first event.
    pub fn start(intersected: Option<ChainPoint>) -> (r: Option<(StreamPhase, TipEvent)>)
        ensures
            match intersected {
                None => r is None,
                Some(p) => r == Some((StreamPhase::CatchUp, TipEvent::Mark(p))),
            },
    {
        match intersected {
            None => None,
            Some(point) => Some((StreamPhase::CatchUp, TipEvent::Mark(point))),
        }
    }

    /// One step of a stream: while catching up, each block is applied, the
    /// end of local history moves to following the tip, and a failure is
    /// told and ends the stream; while following, each tip event is told
    /// and a cancellation ends the stream. Any other input changes nothing.
    pub fn step<E>(phase: StreamPhase, input: StreamInput<E>) -> (r: (
        StreamPhase,
        Option<Result<TipEvent, E>>,
    ))
        ensures
            r == stream_step(phase, input),
            phase == StreamPhase::Follow ==> (input matches StreamInput::Tip(e) ==> r == (
                StreamPhase::Follow,
                Some(Ok::<TipEvent, E>(e)),
            )),
            phase == StreamPhase::CatchUp ==> (input matches StreamInput::CatchUp(Ok(Some((p, b))))
                ==> r == (StreamPhase::CatchUp, Some(Ok::<TipEvent, E>(TipEvent::Apply(p, b))))),
            phase == StreamPhase::CatchUp ==> (input matches StreamInput::CatchUp(Err(e)) ==> r == (
                StreamPhase::Done,
                Some(Err::<TipEvent, E>(e)),
            )),
            phase == StreamPhase::Done ==> r.0 == StreamPhase::Done && r.1 is None,
    {
        match (phase, input) {
            (StreamPhase::CatchUp, StreamInput::CatchUp(Ok(Some((point, block))))) => (
                StreamPhase::CatchUp,
                Some(Ok(TipEvent::Apply(point, block))),
            ),
            (StreamPhase::CatchUp, StreamInput::CatchUp(Ok(None))) => (StreamPhase::Follow, None),
            (StreamPhase::CatchUp, StreamInput::CatchUp(Err(e))) => (
                StreamPhase::Done,
                Some(Err(e)),
            ),
            (StreamPhase::Follow, StreamInput::Tip(event)) => (StreamPhase::Follow, Some(Ok(event))),
            (StreamPhase::Follow, StreamInput::Cancelled) => (StreamPhase::Done, None),
            (p, _) => (p, None),
        }
    }
}

/// A stream that has ended stays ended and tells nothing more, whatever it
/// learns.
pub proof fn lemma_an_ended_stream_stays_ended<E>(input: StreamInput<E>)
    ensures
        stream_step(StreamPhase::Done, input) == (StreamPhase::Done, None::<Result<TipEvent, E>>),
{
}

/// A failure to read local history is the last thing a stream tells.
pub proof fn lemma_a_failed_catch_up_ends_the_stream<E>(e: E)
    ensures
        stream_step(StreamPhase::CatchUp, StreamInput::CatchUp(Err::<Option<(ChainPoint, RawBlock)>, E>(e)))
            == (StreamPhase::Done, Some(Err::<TipEvent, E>(e))),
{
}

/// While a stream follows the tip, every event at the tip is told to the
/// client unchanged, and the stream goes on following.
pub proof fn lemma_following_tells_every_tip_event<E>(e: TipEvent)
    ensures
        stream_step(StreamPhase::Follow, StreamInput::<E>::Tip(e)) == (
            StreamPhase::Follow,
            Some(Ok::<TipEvent, E>(e)),
        ),
{
}

/// While a stream catches up, every block local history holds is told as a
/// block to apply, at its own point, and the stream goes on catching up.
pub proof fn lemma_catching_up_tells_every_block<E>(point: ChainPoint, block: RawBlock)
    ensures
        stream_step(
            StreamPhase::CatchUp,
            StreamInput::CatchUp(Ok::<Option<(ChainPoint, RawBlock)>, E>(Some((point, block)))),
        ) == (StreamPhase::CatchUp, Some(Ok::<TipEvent, E>(TipEvent::Apply(point, block)))),
{
}

/// The end of local history tells nothing and turns the stream to the tip,
/// and a client going away while it follows ends it without a word.
pub proof fn lemma_history_ends_into_following<E>()
    ensures
        stream_step(
            StreamPhase::CatchUp,
            StreamInput::CatchUp(Ok::<Option<(ChainPoint, RawBlock)>, E>(None)),
        ) == (StreamPhase::Follow, None::<Result<TipEvent, E>>),
        stream_step(StreamPhase::Follow, StreamInput::<E>::Cancelled) == (
            StreamPhase::Done,
            None::<Result<TipEvent, E>>,
        ),
{
}

/// A stream tells something at a step only what it learned at that step:
/// the block or tip event it was handed, or the failure to read history.
pub proof fn lemma_a_stream_tells_only_what_it_learns<E>(phase: StreamPhase, input: StreamInput<E>)
    ensures
        stream_step(phase, input).1 matches Some(Ok(told)) ==> (input matches StreamInput::Tip(e)
            && told == e) || (input matches StreamInput::CatchUp(Ok(Some((p, b)))) && told
            == TipEvent::Apply(p, b)),
        stream_step(phase, input).1 matches Some(Err(f)) ==> input matches StreamInput::CatchUp(
            Err(e),
        ) && f == e,
{
}

} // verus!
