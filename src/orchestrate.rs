//! The life of one request, from the inbound call to its final outcome, as a
//! state machine driven by the events its caller observes.

use vstd::prelude::*;
use vstd::string::*;

verus! {

/// Wall-clock budget of one request, in seconds.
pub const REQUEST_BUDGET_SECS: u64 = 300;

/// Why a request failed.
#[derive(Clone, Copy, PartialEq, Eq, Structural, Debug)]
pub enum Failure {
    /// The track reference was malformed, or the search found nothing.
    Resolution,
    /// The backend session failed, or it offered no variant at all.
    Backend,
    /// No tier could claim a format.
    SelectionExhausted,
    /// Tiers were assigned but none of their files could be stored.
    Persistence,
    /// An unexpected fault inside the request, contained at its boundary.
    Internal,
}

impl Failure {
    pub open spec fn message_spec(self) -> Seq<char> {
        match self {
            Failure::Resolution => "track reference could not be resolved"@,
            Failure::Backend => "streaming backend returned no audio files"@,
            Failure::SelectionExhausted => "Track can't be saved: no files available"@,
            Failure::Persistence => "no selected file could be stored"@,
            Failure::Internal => "internal fault while handling the request"@,
        }
    }

    /// A human-readable cause.
    pub fn message(&self) -> (r: &'static str)
        ensures
            r@ == self.message_spec(),
    {
        match self {
            Failure::Resolution => "track reference could not be resolved",
            Failure::Backend => "streaming backend returned no audio files",
            Failure::SelectionExhausted => "Track can't be saved: no files available",
            Failure::Persistence => "no selected file could be stored",
            Failure::Internal => "internal fault while handling the request",
        }
    }
}

/// Where a request stands.
#[derive(Clone, Copy, PartialEq, Eq, Structural, Debug)]
pub enum Stage {
    Idle,
    Resolving,
    Fetching,
    /// Selecting the tiers and storing their files.
    Storing,
    Succeeded,
    Failed(Failure),
    TimedOut,
}

/// What the caller observed since the last step.
#[derive(Clone, Copy, PartialEq, Eq, Structural, Debug)]
pub enum Event {
    /// The request arrived.
    Request,
    /// The track reference was resolved.
    Resolved,
    /// The track reference could not be resolved.
    ResolveFailed,
    /// The backend offered this many variants.
    Fetched { variants: usize },
    /// The backend session or download failed.
    FetchFailed,
    /// Selection assigned `assigned` tiers, of which `persisted` were stored.
    Stored { assigned: usize, persisted: usize },
    /// An unexpected fault inside the request.
    Fault,
    /// The request's wall-clock budget ran out.
    Deadline,
}

/// The stages inside the bounded, fault-contained span of a request.
pub open spec fn is_active(s: Stage) -> bool {
    s is Resolving || s is Fetching || s is Storing
}

/// The stages from which a request never moves again.
pub open spec fn is_terminal(s: Stage) -> bool {
    s is Succeeded || s is Failed || s is TimedOut
}

/// The transition table of a request.
pub open spec fn next_stage(s: Stage, e: Event) -> Stage {
    if is_terminal(s) {
        s
    } else if s is Idle {
        if e is Request { Stage::Resolving } else { s }
    } else {
        match e {
            Event::Deadline => Stage::TimedOut,
            Event::Fault => Stage::Failed(Failure::Internal),
            Event::Resolved if s is Resolving => Stage::Fetching,
            Event::ResolveFailed if s is Resolving => Stage::Failed(Failure::Resolution),
            Event::Fetched { variants } if s is Fetching => if variants == 0 {
                Stage::Failed(Failure::Backend)
            } else {
                Stage::Storing
            },
            Event::FetchFailed if s is Fetching => Stage::Failed(Failure::Backend),
            Event::Stored { assigned, persisted } if s is Storing => if assigned == 0 {
                Stage::Failed(Failure::SelectionExhausted)
            } else if persisted > assigned {
                Stage::Failed(Failure::Internal)
            } else if persisted == 0 {
                Stage::Failed(Failure::Persistence)
            } else {
                Stage::Succeeded
            },
            // An event that does not belong to the stage is a fault.
            _ => Stage::Failed(Failure::Internal),
        }
    }
}

/// Advances a request by one observed event.
pub fn step(stage: Stage, event: Event) -> (r: Stage)
    ensures
        r == next_stage(stage, event),
{
    match stage {
        Stage::Succeeded | Stage::Failed(_) | Stage::TimedOut => stage,
        Stage::Idle => match event {
            Event::Request => Stage::Resolving,
            _ => stage,
        },
        _ => match event {
            Event::Deadline => Stage::TimedOut,
            Event::Fault => Stage::Failed(Failure::Internal),
            Event::Resolved => match stage {
                Stage::Resolving => Stage::Fetching,
                _ => Stage::Failed(Failure::Internal),
            },
            Event::ResolveFailed => match stage {
                Stage::Resolving => Stage::Failed(Failure::Resolution),
                _ => Stage::Failed(Failure::Internal),
            },
            Event::Fetched { variants } => match stage {
                Stage::Fetching => if variants == 0 {
                    Stage::Failed(Failure::Backend)
                } else {
                    Stage::Storing
                },
                _ => Stage::Failed(Failure::Internal),
            },
            Event::FetchFailed => match stage {
                Stage::Fetching => Stage::Failed(Failure::Backend),
                _ => Stage::Failed(Failure::Internal),
            },
            Event::Stored { assigned, persisted } => match stage {
                Stage::Storing => if assigned == 0 {
                    Stage::Failed(Failure::SelectionExhausted)
                } else if persisted > assigned {
                    Stage::Failed(Failure::Internal)
                } else if persisted == 0 {
                    Stage::Failed(Failure::Persistence)
                } else {
                    Stage::Succeeded
                },
                _ => Stage::Failed(Failure::Internal),
            },
            Event::Request => Stage::Failed(Failure::Internal),
        },
    }
}

/// The stage reached from `s` after the events `es`, in order.
pub open spec fn run(s: Stage, es: Seq<Event>) -> Stage
    decreases es.len(),
{
    if es.len() == 0 {
        s
    } else {
        run(next_stage(s, es[0]), es.drop_first())
    }
}

/// Once the budget runs out inside the bounded span, the request is timed
/// out, and a request that has ended stays as it ended.
pub proof fn deadline_ends_request(s: Stage, e: Event)
    ensures
        is_active(s) ==> next_stage(s, Event::Deadline) == Stage::TimedOut,
        is_terminal(s) ==> next_stage(s, e) == s,
{
}

/// A request inside its bounded span, or already ended, has ended by the time
/// its deadline has been observed, whatever else happened before or after.
pub proof fn deadline_bounds_request(s: Stage, es: Seq<Event>)
    requires
        is_active(s) || is_terminal(s),
        es.contains(Event::Deadline),
    ensures
        is_terminal(run(s, es)),
    decreases es.len(),
{
    let n = next_stage(s, es[0]);
    if es[0] == Event::Deadline {
        lemma_terminal_stays(n, es.drop_first());
    } else {
        let k = choose|k: int| 0 <= k < es.len() && es[k] == Event::Deadline;
        assert(es.drop_first()[k - 1] == Event::Deadline);
        deadline_bounds_request(n, es.drop_first());
    }
}

proof fn lemma_terminal_stays(s: Stage, es: Seq<Event>)
    requires
        is_terminal(s),
    ensures
        run(s, es) == s,
    decreases es.len(),
{
    if es.len() > 0 {
        lemma_terminal_stays(s, es.drop_first());
    }
}

/// A fault inside the bounded span ends the request as an internal failure;
/// it does not end a request that has already finished.
pub proof fn fault_is_contained(s: Stage)
    ensures
        is_active(s) ==> next_stage(s, Event::Fault) == Stage::Failed(Failure::Internal),
        is_terminal(s) ==> next_stage(s, Event::Fault) == s,
{
}

/// The answer sent back for a finished request.
pub struct Reply {
    /// HTTP status: 200 on success, 500 on any failure.
    pub status: u16,
    pub ok: bool,
    /// The cause of a failure; empty on success.
    pub error: String,
}

/// The cause reported for a finished request.
pub open spec fn error_text(s: Stage) -> Seq<char> {
    match s {
        Stage::Failed(f) => f.message_spec(),
        Stage::TimedOut => "timeout"@,
        _ => ""@,
    }
}

/// The reply for a request at `stage`; none while it is still running.
pub fn reply_for(stage: Stage) -> (r: Option<Reply>)
    ensures
        r is Some <==> is_terminal(stage),
        r matches Some(rep) ==> {
            &&& rep.ok == (stage is Succeeded)
            &&& rep.status == (if stage is Succeeded { 200u16 } else { 500u16 })
            &&& rep.error@ == error_text(stage)
        },
{
    match stage {
        Stage::Succeeded => Some(Reply { status: 200, ok: true, error: String::from_str("") }),
        Stage::Failed(f) => Some(Reply { status: 500, ok: false, error: String::from_str(f.message()) }),
        Stage::TimedOut => Some(Reply { status: 500, ok: false, error: String::from_str("timeout") }),
        _ => None,
    }
}

} // verus!
