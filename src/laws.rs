//! Properties of the follower that hold over all inputs.

use vstd::prelude::*;
use crate::harvest::{
    call, command, fetch_step, run, transition, Action, Command, Event, Phase, Report, Target,
    RETRY_DELAY_MS,
};
use crate::rpc::{BlockOutcome, JsonRpcError, JsonRpcResponse, BLOCK_NOT_AVAILABLE, BLOCK_SKIPPED};

verus! {

/// How the follower treats a block response, leaving out which slot it was.
pub enum Verdict {
    /// Ask for the same slot again after `delay_ms` milliseconds.
    Retry { delay_ms: u64 },
    /// Go on to the next slot.
    Advance,
    /// Make no further call.
    Stop,
}

/// The verdict that a block response deserves, from its content alone.
pub open spec fn classify(outcome: BlockOutcome) -> Verdict {
    match outcome {
        BlockOutcome::Remote(e) => if e.code == BLOCK_NOT_AVAILABLE {
            Verdict::Retry { delay_ms: RETRY_DELAY_MS }
        } else if e.code == BLOCK_SKIPPED {
            Verdict::Advance
        } else {
            Verdict::Retry { delay_ms: 0 }
        },
        BlockOutcome::NoResult => Verdict::Stop,
        BlockOutcome::NoTransactions => Verdict::Stop,
        BlockOutcome::Transactions(_) => Verdict::Advance,
    }
}

/// The verdict that a step taken at `cursor` carried out, read off the
/// phase it reached and the call it asked for.
pub open spec fn verdict_taken(cursor: u64, step: (Phase, Command)) -> Verdict {
    match step.1.action {
        Action::Call { target: Target::Block { slot }, delay_ms } => if slot == cursor
            && step.0 == (Phase::Fetching { cursor }) {
            Verdict::Retry { delay_ms }
        } else if cursor < u64::MAX && slot == cursor + 1 && step.0 == (Phase::Fetching {
            cursor: (cursor + 1) as u64,
        }) {
            Verdict::Advance
        } else {
            Verdict::Stop
        },
        _ => Verdict::Stop,
    }
}

/// A block response saying that the block is not produced yet.
pub open spec fn is_not_produced(event: Event) -> bool {
    event matches Event::Block(BlockOutcome::Remote(e)) && e.code == BLOCK_NOT_AVAILABLE
}

/// A block that is not produced yet is asked for again at the same slot
/// after the retry delay, however many times that answer comes back.
pub proof fn lemma_not_produced_retries_same_slot(cursor: u64, events: Seq<Event>)
    requires
        forall|i: int| 0 <= i < events.len() ==> is_not_produced(#[trigger] events[i]),
    ensures
        run(Phase::Fetching { cursor }, events) == (Phase::Fetching { cursor }),
        forall|e: Event|
            is_not_produced(e) ==> #[trigger] transition(Phase::Fetching { cursor }, e) == (
                Phase::Fetching { cursor },
                command(None, call(Target::Block { slot: cursor }, RETRY_DELAY_MS)),
            ),
    decreases events.len(),
{
    if events.len() > 0 {
        let rest = events.drop_first();
        assert forall|i: int| 0 <= i < rest.len() implies is_not_produced(#[trigger] rest[i]) by {
            assert(rest[i] == events[i + 1]);
        }
        lemma_not_produced_retries_same_slot(cursor, rest);
    }
}

/// A skipped slot is reported as skipped and the next call asks for the
/// slot after it.
pub proof fn lemma_skipped_moves_on(cursor: u64, error: JsonRpcError)
    requires
        error.code == BLOCK_SKIPPED,
        cursor < u64::MAX,
    ensures
        transition(Phase::Fetching { cursor }, Event::Block(BlockOutcome::Remote(error))) == (
            Phase::Fetching { cursor: (cursor + 1) as u64 },
            command(
                Some(Report::Skipped { slot: cursor }),
                call(Target::Block { slot: (cursor + 1) as u64 }, 0),
            ),
        ),
{
}

/// A block with `n` transactions is reported with count `n` and the next
/// call asks for the slot after it.
pub proof fn lemma_block_reported_then_next(cursor: u64, n: usize)
    requires
        cursor < u64::MAX,
    ensures
        transition(Phase::Fetching { cursor }, Event::Block(BlockOutcome::Transactions(n))) == (
            Phase::Fetching { cursor: (cursor + 1) as u64 },
            command(
                Some(Report::Fetched { slot: cursor, tx_count: n }),
                call(Target::Block { slot: (cursor + 1) as u64 }, 0),
            ),
        ),
{
}

/// When the frontier call answers with slot `f`, the first block call asks
/// for slot `f`.
pub proof fn lemma_first_fetch_at_frontier(response: JsonRpcResponse<u64>, f: u64)
    requires
        response.error is None,
        response.result == Some(f),
    ensures
        transition(Phase::Initializing, Event::Frontier(response)).0 == (Phase::Fetching {
            cursor: f,
        }),
        transition(Phase::Initializing, Event::Frontier(response)).1.action == call(
            Target::Block { slot: f },
            0,
        ),
{
}

/// What the follower does with a block response depends on the response
/// alone: at any two slots it takes the same verdict, the one `classify`
/// gives.
pub proof fn lemma_verdict_ignores_history(c1: u64, c2: u64, outcome: BlockOutcome)
    requires
        c1 < u64::MAX,
        c2 < u64::MAX,
    ensures
        verdict_taken(c1, fetch_step(c1, outcome)) == classify(outcome),
        verdict_taken(c2, fetch_step(c2, outcome)) == classify(outcome),
{
}

/// A response without a result, or with a result that has no transaction
/// list, ends the follower: it makes no further call, whatever comes after.
pub proof fn lemma_no_data_ends(cursor: u64, outcome: BlockOutcome, later: Seq<Event>)
    requires
        outcome is NoResult || outcome is NoTransactions,
    ensures
        transition(Phase::Fetching { cursor }, Event::Block(outcome)).0 == Phase::Terminated,
        transition(Phase::Fetching { cursor }, Event::Block(outcome)).1.action is Finish,
        run(Phase::Terminated, later) == Phase::Terminated,
        forall|e: Event| !(#[trigger] transition(Phase::Terminated, e).1.action is Call),
    decreases later.len(),
{
    if later.len() > 0 {
        lemma_no_data_ends(cursor, outcome, later.drop_first());
    }
}

/// While fetching, the cursor stays or moves up by one, and every call asks
/// for the slot the cursor then holds: no slot is asked for out of turn.
pub proof fn lemma_cursor_steps_by_one(cursor: u64, event: Event)
    ensures
        ({
            let (next, cmd) = transition(Phase::Fetching { cursor }, event);
            &&& next == (Phase::Fetching { cursor }) || next == Phase::Terminated || (cursor
                < u64::MAX && next == (Phase::Fetching { cursor: (cursor + 1) as u64 }))
            &&& cmd.action matches Action::Call { target, .. } ==> next matches Phase::Fetching {
                cursor: c,
            } && target == (Target::Block { slot: c })
        }),
{
}

} // verus!
