//! The stages that a request passes through, and what moves it from one to
//! the next.
//!
//! A request starts at `Init`. Authentication, where the manifest asks for
//! it, and then each middleware in the order of its declaration, is a gate:
//! its script returns a boolean, and a `false` sends the request to `Reject`.
//! Past the last gate the handler runs, and the request is `Done`. A failure
//! of the engine or of the file system sends the request to `Failed` from
//! wherever it is. `Done`, `Reject` and `Failed` are final.
//!
//! The scripts themselves are run by the caller. The pipeline only decides:
//! it is told what happened and answers where the request stands now.

pub use crate::failure::Failure;
use vstd::prelude::*;

verus! {

/// Where a request stands.
#[derive(Debug, Clone, Copy, PartialEq, Eq, Structural)]
pub enum Stage {
    Init,
    AuthCheck,
    /// The middleware at this place of the declaration is being run.
    MiddlewareCheck(usize),
    HandlerRun,
    Done,
    Reject,
    Failed(Failure),
}

/// What happened to the step that was last asked for.
#[derive(Debug, Clone, Copy, PartialEq, Eq, Structural)]
pub enum Event {
    /// The manifest is loaded and the permissions are built.
    Started,
    /// A gate script returned, its value read as a boolean.
    Returned(bool),
    /// The handler ran to its end.
    Completed,
    /// The step could not be carried out.
    Failed(Failure),
}

/// How a request ended.
#[derive(Debug, Clone, Copy, PartialEq, Eq, Structural)]
pub enum Outcome {
    Done,
    Rejected,
    Failed(Failure),
}

/// What of a manifest decides the stages: whether authentication is asked
/// for, and how many middlewares are declared.
#[derive(Debug, Clone, Copy, PartialEq, Eq, Structural)]
pub struct Shape {
    pub has_auth: bool,
    pub middlewares: usize,
}

/// Whether `stage` is a gate: a stage whose script decides whether the
/// request goes on.
pub open spec fn is_gate(stage: Stage) -> bool {
    stage is AuthCheck || stage is MiddlewareCheck
}

/// Whether `stage` is final.
pub open spec fn is_final(stage: Stage) -> bool {
    stage is Done || stage is Reject || stage is Failed
}

/// Whether `stage` can occur under `shape`.
pub open spec fn stage_fits(shape: Shape, stage: Stage) -> bool {
    match stage {
        Stage::AuthCheck => shape.has_auth,
        Stage::MiddlewareCheck(index) => index < shape.middlewares,
        _ => true,
    }
}

/// The number of the step that is run at `stage`: authentication is step
/// 0, the middlewares are steps 1 to `shape.middlewares`, and the handler
/// comes after them. No step is run at any other stage.
pub open spec fn ordinal(shape: Shape, stage: Stage) -> Option<int> {
    match stage {
        Stage::AuthCheck => Some(0),
        Stage::MiddlewareCheck(index) => Some(index + 1),
        Stage::HandlerRun => Some(shape.middlewares + 1),
        _ => None,
    }
}

/// The stage that runs the middleware at `index`, or the handler where no
/// middleware is left.
pub open spec fn gate_or_handler(shape: Shape, index: int) -> Stage {
    if index < shape.middlewares {
        Stage::MiddlewareCheck(index as usize)
    } else {
        Stage::HandlerRun
    }
}

/// The stage that follows `stage` on `event`.
pub open spec fn step(shape: Shape, stage: Stage, event: Event) -> Stage {
    if is_final(stage) {
        stage
    } else if let Event::Failed(failure) = event {
        Stage::Failed(failure)
    } else {
        match (stage, event) {
            (Stage::Init, Event::Started) => if shape.has_auth {
                Stage::AuthCheck
            } else {
                gate_or_handler(shape, 0)
            },
            (Stage::AuthCheck, Event::Returned(true)) => gate_or_handler(shape, 0),
            (Stage::AuthCheck, Event::Returned(false)) => Stage::Reject,
            (Stage::MiddlewareCheck(index), Event::Returned(true)) => gate_or_handler(
                shape,
                index + 1,
            ),
            (Stage::MiddlewareCheck(_), Event::Returned(false)) => Stage::Reject,
            (Stage::HandlerRun, Event::Completed) => Stage::Done,
            _ => Stage::Failed(Failure::InternalPanic),
        }
    }
}

/// The stage that is reached from `stage` by `events`, in their order.
pub open spec fn run(shape: Shape, stage: Stage, events: Seq<Event>) -> Stage
    decreases events.len(),
{
    if events.len() == 0 {
        stage
    } else {
        run(shape, step(shape, stage, events[0]), events.skip(1))
    }
}

/// How a request that stands at the final stage `stage` ended.
pub open spec fn outcome_of(stage: Stage) -> Outcome {
    match stage {
        Stage::Done => Outcome::Done,
        Stage::Reject => Outcome::Rejected,
        Stage::Failed(failure) => Outcome::Failed(failure),
        _ => Outcome::Failed(Failure::InternalPanic),
    }
}

/// Moves a request from `stage` on `event`.
pub fn advance(shape: Shape, stage: Stage, event: Event) -> (next: Stage)
    requires
        stage_fits(shape, stage),
    ensures
        next == step(shape, stage, event),
        stage_fits(shape, next),
        !(next is Init),
{
    match stage {
        Stage::Done | Stage::Reject | Stage::Failed(_) => stage,
        _ => match event {
            Event::Failed(failure) => Stage::Failed(failure),
            Event::Started => match stage {
                Stage::Init => if shape.has_auth {
                    Stage::AuthCheck
                } else {
                    next_gate(shape, 0)
                },
                _ => Stage::Failed(Failure::InternalPanic),
            },
            Event::Returned(passed) => match stage {
                Stage::AuthCheck => if passed {
                    next_gate(shape, 0)
                } else {
                    Stage::Reject
                },
                Stage::MiddlewareCheck(index) => if passed {
                    next_gate(shape, index + 1)
                } else {
                    Stage::Reject
                },
                _ => Stage::Failed(Failure::InternalPanic),
            },
            Event::Completed => match stage {
                Stage::HandlerRun => Stage::Done,
                _ => Stage::Failed(Failure::InternalPanic),
            },
        },
    }
}

/// The stage that runs the middleware at `index`, or the handler where no
/// middleware is left.
pub fn next_gate(shape: Shape, index: usize) -> (stage: Stage)
    ensures
        stage == gate_or_handler(shape, index as int),
        stage_fits(shape, stage),
{
    if index < shape.middlewares {
        Stage::MiddlewareCheck(index)
    } else {
        Stage::HandlerRun
    }
}

/// How a request that stands at `stage` ended, if it has.
pub fn outcome(stage: Stage) -> (r: Option<Outcome>)
    ensures
        r is Some <==> is_final(stage),
        r matches Some(o) ==> o == outcome_of(stage),
{
    match stage {
        Stage::Done => Some(Outcome::Done),
        Stage::Reject => Some(Outcome::Rejected),
        Stage::Failed(failure) => Some(Outcome::Failed(failure)),
        _ => None,
    }
}

/// A final stage is never left, whatever happens.
pub proof fn law_final_stages_absorb(shape: Shape, stage: Stage, events: Seq<Event>)
    requires
        is_final(stage),
    ensures
        run(shape, stage, events) == stage,
    decreases events.len(),
{
    if events.len() > 0 {
        law_final_stages_absorb(shape, stage, events.skip(1));
    }
}

/// A gate that returns `false` ends the request: whatever happens after it,
/// the request stands at `Reject`, where no step is run.
pub proof fn law_negative_gate_stops(shape: Shape, stage: Stage, events: Seq<Event>)
    requires
        is_gate(stage),
        events.len() > 0,
        events[0] == Event::Returned(false),
    ensures
        run(shape, stage, events) == Stage::Reject,
        ordinal(shape, run(shape, stage, events)) is None,
{
    law_final_stages_absorb(shape, Stage::Reject, events.skip(1));
}

/// After step `k` has returned `false`, no step runs at any later time:
/// every stage that is reached from then on runs no step at all, and so none
/// that comes after `k`.
pub proof fn law_no_step_after_negative(shape: Shape, stage: Stage, events: Seq<Event>, later: int)
    requires
        is_gate(stage),
        events.len() > 0,
        events[0] == Event::Returned(false),
        1 <= later <= events.len(),
    ensures
        ordinal(shape, run(shape, stage, events.take(later))) is None,
{
    law_negative_gate_stops(shape, stage, events.take(later));
}

/// `count` gates in a row that return `true`.
pub open spec fn passes(count: nat) -> Seq<Event> {
    Seq::new(count, |i: int| Event::Returned(true))
}

/// From the middleware at `index` on, a request whose every gate returns
/// `true` and whose handler runs to its end is `Done`.
pub proof fn law_passing_middlewares_reach_done(shape: Shape, index: int)
    requires
        0 <= index <= shape.middlewares,
    ensures
        run(
            shape,
            gate_or_handler(shape, index),
            passes((shape.middlewares - index) as nat) + seq![Event::Completed],
        ) == Stage::Done,
    decreases shape.middlewares - index,
{
    let left = (shape.middlewares - index) as nat;
    let events = passes(left) + seq![Event::Completed];
    if index < shape.middlewares {
        law_passing_middlewares_reach_done(shape, index + 1);
        assert(events[0] == Event::Returned(true));
        assert(events.skip(1) =~= passes((left - 1) as nat) + seq![Event::Completed]);
    } else {
        assert(events =~= seq![Event::Completed]);
        assert(events.skip(1) =~= Seq::<Event>::empty());
        assert(run(shape, Stage::Done, events.skip(1)) == Stage::Done);
    }
}

/// A request whose every gate returns `true` and whose handler runs to its
/// end is `Done`: success is never withheld.
pub proof fn law_passing_request_is_done(shape: Shape)
    ensures
        run(
            shape,
            Stage::Init,
            seq![Event::Started] + passes(
                (if shape.has_auth {
                    shape.middlewares + 1
                } else {
                    shape.middlewares as int
                }) as nat,
            ) + seq![Event::Completed],
        ) == Stage::Done,
{
    let gates = (if shape.has_auth {
        shape.middlewares + 1
    } else {
        shape.middlewares as int
    }) as nat;
    let events = seq![Event::Started] + passes(gates) + seq![Event::Completed];
    let after_start = passes(gates) + seq![Event::Completed];
    assert(events[0] == Event::Started);
    assert(events.skip(1) =~= after_start);
    law_passing_middlewares_reach_done(shape, 0);
    let rest = passes(shape.middlewares as nat) + seq![Event::Completed];
    assert(run(shape, gate_or_handler(shape, 0), rest) == Stage::Done);
    assert(run(shape, Stage::Init, events) == run(
        shape,
        step(shape, Stage::Init, Event::Started),
        after_start,
    ));
    if shape.has_auth {
        assert(after_start[0] == Event::Returned(true));
        assert(after_start.skip(1) =~= rest);
        assert(run(shape, Stage::AuthCheck, after_start) == run(
            shape,
            step(shape, Stage::AuthCheck, Event::Returned(true)),
            rest,
        ));
    } else {
        assert(after_start =~= rest);
    }
}

/// Steps run in the order of their numbers, and none is left out: the step
/// that runs next after step `k` is step `k + 1`.
pub proof fn law_steps_in_order(shape: Shape, stage: Stage, event: Event)
    requires
        stage_fits(shape, stage),
        ordinal(shape, stage) is Some,
        ordinal(shape, step(shape, stage, event)) is Some,
    ensures
        ordinal(shape, step(shape, stage, event))->0 == ordinal(shape, stage)->0 + 1,
        event == Event::Returned(true),
{
}

/// Authentication runs first where the manifest asks for it, and is
/// passed over where it does not.
pub proof fn law_authentication_first(shape: Shape)
    ensures
        shape.has_auth ==> step(shape, Stage::Init, Event::Started) == Stage::AuthCheck,
        !shape.has_auth ==> !(step(shape, Stage::Init, Event::Started) is AuthCheck),
        forall|stage: Stage, event: Event|
            !(stage is Init) ==> !(#[trigger] step(shape, stage, event) is AuthCheck),
{
}

/// A request is `Done` only after its handler has run to its end, and the
/// handler runs only after every gate has returned `true`.
pub proof fn law_done_only_through_handler(shape: Shape, stage: Stage, event: Event)
    requires
        step(shape, stage, event) is Done,
        !(stage is Done),
    ensures
        stage is HandlerRun,
        event is Completed,
{
}

/// A failure is never taken for a rejection: a request reaches `Reject`
/// only by a gate that returned `false`.
pub proof fn law_reject_only_by_negative_gate(shape: Shape, stage: Stage, event: Event)
    requires
        step(shape, stage, event) is Reject,
        !(stage is Reject),
    ensures
        is_gate(stage),
        event == Event::Returned(false),
{
}

} // verus!
