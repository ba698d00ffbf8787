//! The steps by which the override function of one package is run: with
//! `PATH` emptied for as long as the function runs, and put back whether
//! or not the function could be run.

use crate::manifest::SourceError;
use vstd::prelude::*;

verus! {

/// Where the run of one override function stands.
#[derive(Debug)]
pub enum OverrideState {
    /// Nothing has been done yet.
    Ready,
    /// `PATH` is being emptied.
    Clearing,
    /// `PATH` is empty and the function is running.
    Invoking,
    /// The function is over and `PATH` is being put back; holds what the
    /// interpreter said if the function could not be run.
    Restoring(Option<String>),
    /// The run is over.
    Finished,
}

/// What the interpreter answered to the last step.
#[derive(Debug)]
pub enum OverrideEvent {
    /// The step was done.
    Done,
    /// The step failed, with what the interpreter said of it.
    Refused(String),
}

/// What is to be done next.
#[derive(Debug)]
pub enum OverrideAction {
    /// Remember what `PATH` holds and bind it to the empty string.
    ClearPath,
    /// Call the function with one placeholder argument and its error
    /// stream shut.
    Invoke { function: String, argument: &'static str },
    /// Bind `PATH` to what it held before.
    RestorePath,
    /// Stop, with the outcome of the run.
    Stop(Result<(), SourceError>),
}

impl OverrideState {
    /// `PATH` is empty in this state and has not been put back.
    pub open spec fn path_is_cleared(self) -> bool {
        self is Invoking
    }
}

/// The action says that the function `func` could not be run, and why.
pub open spec fn stops_missing(action: OverrideAction, func: Seq<char>, why: Seq<char>) -> bool {
    action matches OverrideAction::Stop(Err(SourceError::MissingPackageFunction { name, source }))
        && name@ == func && source@ == why
}

/// The action says that the interpreter failed, and why.
pub open spec fn stops_broken(action: OverrideAction, why: Seq<char>) -> bool {
    action matches OverrideAction::Stop(Err(SourceError::Brush(d))) && d@ == why
}

/// The step that follows `state` once the interpreter has answered
/// `event`. From `Ready` the answer does not matter.
pub open spec fn step_spec(
    state: OverrideState,
    func: Seq<char>,
    event: OverrideEvent,
    next: OverrideState,
    action: OverrideAction,
) -> bool {
    match state {
        OverrideState::Ready => next is Clearing && action is ClearPath,
        OverrideState::Clearing => match event {
            OverrideEvent::Done => {
                &&& next is Invoking
                &&& action matches OverrideAction::Invoke { function, argument }
                &&& function@ == func
                &&& argument@ == "foo"@
            },
            OverrideEvent::Refused(why) => next is Finished && stops_broken(action, why@),
        },
        OverrideState::Invoking => match event {
            OverrideEvent::Done => next == OverrideState::Restoring(None) && action is RestorePath,
            OverrideEvent::Refused(why) => {
                &&& next matches OverrideState::Restoring(Some(kept))
                &&& kept@ == why@
                &&& action is RestorePath
            },
        },
        OverrideState::Restoring(None) => match event {
            OverrideEvent::Done => next is Finished && action == OverrideAction::Stop(Ok(())),
            OverrideEvent::Refused(why) => next is Finished && stops_broken(action, why@),
        },
        OverrideState::Restoring(Some(kept)) => next is Finished && stops_missing(
            action,
            func,
            kept@,
        ),
        OverrideState::Finished => next is Finished && action == OverrideAction::Stop(Ok(())),
    }
}

/// Decides the next step of the run of the override function `func`.
pub fn step(state: OverrideState, func: &str, event: OverrideEvent) -> (r: (
    OverrideState,
    OverrideAction,
))
    ensures
        step_spec(state, func@, event, r.0, r.1),
{
    match state {
        OverrideState::Ready => (OverrideState::Clearing, OverrideAction::ClearPath),
        OverrideState::Clearing => match event {
            OverrideEvent::Done => (
                OverrideState::Invoking,
                OverrideAction::Invoke { function: func.to_owned(), argument: "foo" },
            ),
            OverrideEvent::Refused(why) => (
                OverrideState::Finished,
                OverrideAction::Stop(Err(SourceError::Brush(why))),
            ),
        },
        OverrideState::Invoking => match event {
            OverrideEvent::Done => (OverrideState::Restoring(None), OverrideAction::RestorePath),
            OverrideEvent::Refused(why) => (
                OverrideState::Restoring(Some(why)),
                OverrideAction::RestorePath,
            ),
        },
        OverrideState::Restoring(None) => match event {
            OverrideEvent::Done => (OverrideState::Finished, OverrideAction::Stop(Ok(()))),
            OverrideEvent::Refused(why) => (
                OverrideState::Finished,
                OverrideAction::Stop(Err(SourceError::Brush(why))),
            ),
        },
        OverrideState::Restoring(Some(kept)) => (
            OverrideState::Finished,
            OverrideAction::Stop(
                Err(SourceError::MissingPackageFunction { name: func.to_owned(), source: kept }),
            ),
        ),
        OverrideState::Finished => (OverrideState::Finished, OverrideAction::Stop(Ok(()))),
    }
}

/// While `PATH` is empty the run never stops: whatever the interpreter
/// answers, the next step puts `PATH` back.
pub proof fn lemma_path_is_restored(
    state: OverrideState,
    func: Seq<char>,
    event: OverrideEvent,
    next: OverrideState,
    action: OverrideAction,
)
    requires
        state.path_is_cleared(),
        step_spec(state, func, event, next, action),
    ensures
        action is RestorePath,
        next is Restoring,
        !next.path_is_cleared(),
{
}

/// `PATH` is empty only after it was emptied with success: the one step
/// that leads there is the answer `Done` to `ClearPath`.
pub proof fn lemma_cleared_only_after_clearing(
    state: OverrideState,
    func: Seq<char>,
    event: OverrideEvent,
    next: OverrideState,
    action: OverrideAction,
)
    requires
        step_spec(state, func, event, next, action),
        next.path_is_cleared(),
    ensures
        state is Clearing,
        event is Done,
        action is Invoke,
{
}

} // verus!
