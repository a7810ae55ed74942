//! The block follower as a state machine: it reads the frontier once, then
//! walks the slots upward one at a time. Each step takes what the last call
//! returned and gives the next call to make, with the line to report.

use vstd::prelude::*;
use crate::rpc::{BlockOutcome, JsonRpcError, JsonRpcRequest, JsonRpcResponse, BLOCK_NOT_AVAILABLE, BLOCK_SKIPPED};

verus! {

/// Milliseconds to wait before asking again for a block not produced yet.
pub const RETRY_DELAY_MS: u64 = 500;

/// Where the follower stands.
#[derive(PartialEq, Eq, Structural, Clone, Copy, Debug)]
pub enum Phase {
    /// The frontier has not been read yet.
    Initializing,
    /// The next block call asks for `cursor`.
    Fetching { cursor: u64 },
    /// Nothing more is fetched.
    Terminated,
}

/// A call that did not give a decoded response.
#[derive(PartialEq, Eq, Structural, Clone, Copy, Debug)]
pub enum CallFailure {
    /// The request or its response failed on the way.
    Transport,
    /// The response did not have the expected shape.
    Decode,
}

/// What the last call gave.
#[derive(Debug, PartialEq)]
pub enum Event {
    /// The response to the frontier call.
    Frontier(JsonRpcResponse<u64>),
    /// The response to the block call, as read by `BlockOutcome::from_response`.
    Block(BlockOutcome),
    /// The call failed before a response could be read.
    Failure(CallFailure),
}

/// Which call to make.
#[derive(PartialEq, Eq, Structural, Clone, Copy, Debug)]
pub enum Target {
    /// The current frontier slot.
    Frontier,
    /// The block at `slot`.
    Block { slot: u64 },
}

/// Why the follower stopped with an error.
#[derive(Debug, PartialEq)]
pub enum Fault {
    /// A call failed on the way or could not be decoded.
    Call(CallFailure),
    /// The frontier call answered with an error object.
    Remote(JsonRpcError),
    /// The frontier call answered with neither a result nor an error.
    MissingFrontier,
    /// The cursor would have to pass the largest slot number.
    CursorOverflow,
    /// An event that the current phase does not wait for.
    Unexpected,
}

/// What to do next.
#[derive(Debug, PartialEq)]
pub enum Action {
    /// Wait `delay_ms` milliseconds, then make the call.
    Call { target: Target, delay_ms: u64 },
    /// Stop: the chain has no further data.
    Finish,
    /// Stop with an error.
    Abort(Fault),
}

/// A status line to show.
#[derive(Debug, PartialEq)]
pub enum Report {
    /// Fetching starts at this slot.
    Starting { slot: u64 },
    /// The block at `slot` holds `tx_count` transactions.
    Fetched { slot: u64, tx_count: usize },
    /// The slot was skipped by the chain.
    Skipped { slot: u64 },
    /// An error object whose code has no meaning of its own here.
    RemoteError { code: i64, message: String },
    /// The block call gave no data.
    NoBlockData { slot: u64 },
    /// The block had no transaction list.
    NoTransactions { slot: u64 },
}

/// The result of one step: a line to show, if any, and the next action.
#[derive(Debug, PartialEq)]
pub struct Command {
    pub report: Option<Report>,
    pub action: Action,
}

/// The follower's state.
#[derive(Debug, PartialEq)]
pub struct Harvester {
    pub phase: Phase,
}

/// The action that makes a call.
pub open spec fn call(target: Target, delay_ms: u64) -> Action {
    Action::Call { target, delay_ms }
}

/// A command from its two parts.
pub open spec fn command(report: Option<Report>, action: Action) -> Command {
    Command { report, action }
}

/// One step after the block at `cursor` came back as `outcome`.
pub open spec fn fetch_step(cursor: u64, outcome: BlockOutcome) -> (Phase, Command) {
    match outcome {
        BlockOutcome::Remote(e) => if e.code == BLOCK_NOT_AVAILABLE {
            (
                Phase::Fetching { cursor },
                command(None, call(Target::Block { slot: cursor }, RETRY_DELAY_MS)),
            )
        } else if e.code == BLOCK_SKIPPED {
            advance(cursor, Report::Skipped { slot: cursor })
        } else {
            (
                Phase::Fetching { cursor },
                command(
                    Some(Report::RemoteError { code: e.code, message: e.message }),
                    call(Target::Block { slot: cursor }, 0),
                ),
            )
        },
        BlockOutcome::NoResult => (
            Phase::Terminated,
            command(Some(Report::NoBlockData { slot: cursor }), Action::Finish),
        ),
        BlockOutcome::NoTransactions => (
            Phase::Terminated,
            command(Some(Report::NoTransactions { slot: cursor }), Action::Finish),
        ),
        BlockOutcome::Transactions(n) => advance(
            cursor,
            Report::Fetched { slot: cursor, tx_count: n },
        ),
    }
}

/// Reports `report` and moves on to the slot after `cursor`.
pub open spec fn advance(cursor: u64, report: Report) -> (Phase, Command) {
    if cursor < u64::MAX {
        (
            Phase::Fetching { cursor: (cursor + 1) as u64 },
            command(Some(report), call(Target::Block { slot: (cursor + 1) as u64 }, 0)),
        )
    } else {
        (Phase::Terminated, command(Some(report), Action::Abort(Fault::CursorOverflow)))
    }
}

/// The next phase and command when `event` arrives in `phase`.
pub open spec fn transition(phase: Phase, event: Event) -> (Phase, Command) {
    match (phase, event) {
        (Phase::Initializing, Event::Frontier(resp)) => match resp.error {
            Some(e) => (Phase::Terminated, command(None, Action::Abort(Fault::Remote(e)))),
            None => match resp.result {
                Some(slot) => (
                    Phase::Fetching { cursor: slot },
                    command(Some(Report::Starting { slot }), call(Target::Block { slot }, 0)),
                ),
                None => (Phase::Terminated, command(None, Action::Abort(Fault::MissingFrontier))),
            },
        },
        (Phase::Fetching { cursor }, Event::Block(outcome)) => fetch_step(cursor, outcome),
        (Phase::Initializing, Event::Failure(f)) => (
            Phase::Terminated,
            command(None, Action::Abort(Fault::Call(f))),
        ),
        (Phase::Fetching { .. }, Event::Failure(f)) => (
            Phase::Terminated,
            command(None, Action::Abort(Fault::Call(f))),
        ),
        _ => (Phase::Terminated, command(None, Action::Abort(Fault::Unexpected))),
    }
}

/// The phase reached from `phase` once the events have arrived in order.
pub open spec fn run(phase: Phase, events: Seq<Event>) -> Phase
    decreases events.len(),
{
    if events.len() == 0 {
        phase
    } else {
        run(transition(phase, events[0]).0, events.drop_first())
    }
}

impl Target {
    /// The request that makes this call.
    pub fn request(&self) -> (r: JsonRpcRequest)
        ensures
            *self is Frontier ==> r.is_slot_request(),
            *self matches Target::Block { slot } ==> r.is_block_request(slot),
    {
        match self {
            Target::Frontier => JsonRpcRequest::slot_request(),
            Target::Block { slot } => JsonRpcRequest::block_request(*slot),
        }
    }
}

impl Harvester {
    /// A follower that has not read the frontier yet.
    pub fn new() -> (r: Harvester)
        ensures
            r.phase == Phase::Initializing,
    {
        Harvester { phase: Phase::Initializing }
    }

    /// The first call to make: the frontier.
    pub fn first_call() -> (r: Action)
        ensures
            r == call(Target::Frontier, 0),
    {
        Action::Call { target: Target::Frontier, delay_ms: 0 }
    }

    fn advance(&mut self, cursor: u64, report: Report) -> (r: Command)
        ensures
            (final(self).phase, r) == advance(cursor, report),
    {
        if cursor < u64::MAX {
            let next = cursor + 1;
            self.phase = Phase::Fetching { cursor: next };
            Command {
                report: Some(report),
                action: Action::Call { target: Target::Block { slot: next }, delay_ms: 0 },
            }
        } else {
            self.phase = Phase::Terminated;
            Command { report: Some(report), action: Action::Abort(Fault::CursorOverflow) }
        }
    }

    fn fetched(&mut self, cursor: u64, outcome: BlockOutcome) -> (r: Command)
        ensures
            (final(self).phase, r) == fetch_step(cursor, outcome),
    {
        match outcome {
            BlockOutcome::Remote(e) => {
                if e.code == BLOCK_NOT_AVAILABLE {
                    self.phase = Phase::Fetching { cursor };
                    Command {
                        report: None,
                        action: Action::Call {
                            target: Target::Block { slot: cursor },
                            delay_ms: RETRY_DELAY_MS,
                        },
                    }
                } else if e.code == BLOCK_SKIPPED {
                    self.advance(cursor, Report::Skipped { slot: cursor })
                } else {
                    self.phase = Phase::Fetching { cursor };
                    Command {
                        report: Some(Report::RemoteError { code: e.code, message: e.message }),
                        action: Action::Call { target: Target::Block { slot: cursor }, delay_ms: 0 },
                    }
                }
            },
            BlockOutcome::NoResult => {
                self.phase = Phase::Terminated;
                Command { report: Some(Report::NoBlockData { slot: cursor }), action: Action::Finish }
            },
            BlockOutcome::NoTransactions => {
                self.phase = Phase::Terminated;
                Command {
                    report: Some(Report::NoTransactions { slot: cursor }),
                    action: Action::Finish,
                }
            },
            BlockOutcome::Transactions(n) => {
                self.advance(cursor, Report::Fetched { slot: cursor, tx_count: n })
            },
        }
    }

    /// Takes what the last call gave and says what to do next.
    pub fn step(&mut self, event: Event) -> (r: Command)
        ensures
            (final(self).phase, r) == transition(old(self).phase, event),
    {
        match (self.phase, event) {
            (Phase::Initializing, Event::Frontier(resp)) => match resp.error {
                Some(e) => {
                    self.phase = Phase::Terminated;
                    Command { report: None, action: Action::Abort(Fault::Remote(e)) }
                },
                None => match resp.result {
                    Some(slot) => {
                        self.phase = Phase::Fetching { cursor: slot };
                        Command {
                            report: Some(Report::Starting { slot }),
                            action: Action::Call { target: Target::Block { slot }, delay_ms: 0 },
                        }
                    },
                    None => {
                        self.phase = Phase::Terminated;
                        Command { report: None, action: Action::Abort(Fault::MissingFrontier) }
                    },
                },
            },
            (Phase::Fetching { cursor }, Event::Block(outcome)) => self.fetched(cursor, outcome),
            (Phase::Initializing, Event::Failure(f)) | (Phase::Fetching { .. }, Event::Failure(f)) => {
                self.phase = Phase::Terminated;
                Command { report: None, action: Action::Abort(Fault::Call(f)) }
            },
            _ => {
                self.phase = Phase::Terminated;
                Command { report: None, action: Action::Abort(Fault::Unexpected) }
            },
        }
    }
}

} // verus!
