//! One launch as the host goes through it: the sandbox is spawned, the
//! command is written to the reaper's input, the input is closed and the
//! sandbox awaited. The host does the work; what to do next, and what to
//! report in the end, is decided here.

use crate::error::{CellarError, CellarErrorView};
use crate::invocation::{Invocation, InvocationView};
use vstd::prelude::*;

verus! {

/// What a launch consists of: the invocation that opens the sandbox with the
/// reaper in it, and the bytes to write to the reaper's input.
#[derive(Debug)]
pub struct Launch {
    pub invocation: Invocation,
    pub payload: Vec<u8>,
}

/// The mathematical content of a [`Launch`].
pub struct LaunchView {
    pub invocation: InvocationView,
    pub payload: Seq<u8>,
}

impl View for Launch {
    type V = LaunchView;

    open spec fn view(&self) -> LaunchView {
        LaunchView { invocation: self.invocation@, payload: self.payload@ }
    }
}

/// How far a launch has come.
#[derive(Debug, PartialEq, Eq)]
pub enum LaunchState {
    /// Nothing has been done.
    Ready,
    /// The sandbox is being spawned.
    Spawning,
    /// The sandbox runs and the command is being written to its input.
    Sending,
    /// The input is closed and the sandbox awaited. Holds the failure to
    /// report once it has ended, if there is one.
    Awaiting(Option<CellarError>),
    /// The launch is over. Holds the failure to report, if there is one.
    Finished(Option<CellarError>),
}

/// What happens to a launch from outside.
#[derive(Debug, PartialEq, Eq)]
pub enum LaunchEvent {
    /// The launch is asked for.
    Begin,
    /// The sandbox was spawned.
    Spawned,
    /// The sandbox could not be spawned. Carries the reason.
    SpawnFailed(String),
    /// The command was written.
    Sent,
    /// The command could not be written. Carries the reason.
    SendFailed(String),
    /// The sandbox has ended.
    Exited,
}

/// What the host is to do next.
#[derive(Debug, Clone, Copy, PartialEq, Eq, Structural)]
pub enum LaunchAction {
    /// Spawn the invocation of the launch with its input captured.
    Spawn,
    /// Write the payload of the launch to the input of the sandbox.
    Send,
    /// Close the input of the sandbox and wait for the sandbox to end.
    CloseAndWait,
    /// Nothing is left to do: report what the state holds.
    Stop,
    /// Nothing: the event changes nothing.
    Idle,
}

/// The mathematical content of a [`LaunchState`].
pub enum LaunchStateView {
    Ready,
    Spawning,
    Sending,
    Awaiting(Option<CellarErrorView>),
    Finished(Option<CellarErrorView>),
}

/// The mathematical content of a [`LaunchEvent`].
pub enum LaunchEventView {
    Begin,
    Spawned,
    SpawnFailed(Seq<char>),
    Sent,
    SendFailed(Seq<char>),
    Exited,
}

/// The mathematical content of a failure that may be absent.
pub open spec fn failure_view(failure: Option<CellarError>) -> Option<CellarErrorView> {
    match failure {
        Some(error) => Some(error@),
        None => None,
    }
}

impl View for LaunchState {
    type V = LaunchStateView;

    open spec fn view(&self) -> LaunchStateView {
        match *self {
            LaunchState::Ready => LaunchStateView::Ready,
            LaunchState::Spawning => LaunchStateView::Spawning,
            LaunchState::Sending => LaunchStateView::Sending,
            LaunchState::Awaiting(failure) => LaunchStateView::Awaiting(failure_view(failure)),
            LaunchState::Finished(failure) => LaunchStateView::Finished(failure_view(failure)),
        }
    }
}

impl View for LaunchEvent {
    type V = LaunchEventView;

    open spec fn view(&self) -> LaunchEventView {
        match *self {
            LaunchEvent::Begin => LaunchEventView::Begin,
            LaunchEvent::Spawned => LaunchEventView::Spawned,
            LaunchEvent::SpawnFailed(reason) => LaunchEventView::SpawnFailed(reason@),
            LaunchEvent::Sent => LaunchEventView::Sent,
            LaunchEvent::SendFailed(reason) => LaunchEventView::SendFailed(reason@),
            LaunchEvent::Exited => LaunchEventView::Exited,
        }
    }
}

/// The state that follows `state` on `event`, and what the host is to do
/// then. A sandbox that could not be spawned ends the launch at once. A
/// command that could not be written is remembered, and the sandbox, which
/// runs already, is still awaited before the failure is reported.
pub open spec fn next_step(state: LaunchStateView, event: LaunchEventView) -> (
    LaunchStateView,
    LaunchAction,
) {
    match (state, event) {
        (LaunchStateView::Ready, LaunchEventView::Begin) => (
            LaunchStateView::Spawning,
            LaunchAction::Spawn,
        ),
        (LaunchStateView::Spawning, LaunchEventView::Spawned) => (
            LaunchStateView::Sending,
            LaunchAction::Send,
        ),
        (LaunchStateView::Spawning, LaunchEventView::SpawnFailed(reason)) => (
            LaunchStateView::Finished(Some(CellarErrorView::ChildSpawnFailed(reason))),
            LaunchAction::Stop,
        ),
        (LaunchStateView::Sending, LaunchEventView::Sent) => (
            LaunchStateView::Awaiting(None),
            LaunchAction::CloseAndWait,
        ),
        (LaunchStateView::Sending, LaunchEventView::SendFailed(reason)) => (
            LaunchStateView::Awaiting(Some(CellarErrorView::CommandEncodeFailed(reason))),
            LaunchAction::CloseAndWait,
        ),
        (LaunchStateView::Awaiting(failure), LaunchEventView::Exited) => (
            LaunchStateView::Finished(failure),
            LaunchAction::Stop,
        ),
        _ => (state, LaunchAction::Idle),
    }
}

impl LaunchState {
    /// The state of a launch that has not begun.
    pub fn new() -> (r: LaunchState)
        ensures
            r@ == LaunchStateView::Ready,
    {
        LaunchState::Ready
    }

    /// Takes one event: gives the state that follows and what the host is to
    /// do then.
    pub fn step(self, event: LaunchEvent) -> (r: (LaunchState, LaunchAction))
        ensures
            r.0@ == next_step(self@, event@).0,
            r.1 == next_step(self@, event@).1,
    {
        match self {
            LaunchState::Ready => match event {
                LaunchEvent::Begin => (LaunchState::Spawning, LaunchAction::Spawn),
                _ => (LaunchState::Ready, LaunchAction::Idle),
            },
            LaunchState::Spawning => match event {
                LaunchEvent::Spawned => (LaunchState::Sending, LaunchAction::Send),
                LaunchEvent::SpawnFailed(reason) => (
                    LaunchState::Finished(Some(CellarError::ChildSpawnFailed(reason))),
                    LaunchAction::Stop,
                ),
                _ => (LaunchState::Spawning, LaunchAction::Idle),
            },
            LaunchState::Sending => match event {
                LaunchEvent::Sent => (LaunchState::Awaiting(None), LaunchAction::CloseAndWait),
                LaunchEvent::SendFailed(reason) => (
                    LaunchState::Awaiting(Some(CellarError::CommandEncodeFailed(reason))),
                    LaunchAction::CloseAndWait,
                ),
                _ => (LaunchState::Sending, LaunchAction::Idle),
            },
            LaunchState::Awaiting(failure) => match event {
                LaunchEvent::Exited => (LaunchState::Finished(failure), LaunchAction::Stop),
                _ => (LaunchState::Awaiting(failure), LaunchAction::Idle),
            },
            LaunchState::Finished(failure) => (LaunchState::Finished(failure), LaunchAction::Idle),
        }
    }

    /// What a launch that is over has to report: nothing, or its failure.
    /// A launch that is not over has nothing to report yet.
    pub fn outcome(self) -> (r: Option<Result<(), CellarError>>)
        ensures
            match self@ {
                LaunchStateView::Finished(None) => r == Some(Ok::<(), CellarError>(())),
                LaunchStateView::Finished(Some(error)) => r matches Some(Err(e)) && e@ == error,
                _ => r is None,
            },
    {
        match self {
            LaunchState::Finished(None) => Some(Ok(())),
            LaunchState::Finished(Some(error)) => Some(Err(error)),
            _ => None,
        }
    }
}

/// A launch in which everything goes well takes the host through spawning,
/// sending, and closing and waiting, in that order, and ends with nothing to
/// report.
pub proof fn lemma_launch_succeeds()
    ensures
        ({
            let begun = next_step(LaunchStateView::Ready, LaunchEventView::Begin);
            let spawned = next_step(begun.0, LaunchEventView::Spawned);
            let sent = next_step(spawned.0, LaunchEventView::Sent);
            let exited = next_step(sent.0, LaunchEventView::Exited);
            &&& begun == (LaunchStateView::Spawning, LaunchAction::Spawn)
            &&& spawned == (LaunchStateView::Sending, LaunchAction::Send)
            &&& sent == (LaunchStateView::Awaiting(None), LaunchAction::CloseAndWait)
            &&& exited == (LaunchStateView::Finished(None), LaunchAction::Stop)
        }),
{
}

/// The command is written only to a sandbox that was spawned: the host is
/// told to send on no event but the success of the spawn, and a spawn that
/// failed ends the launch with `ChildSpawnFailed`, after which the host is
/// told to do nothing more.
pub proof fn lemma_failed_spawn_sends_nothing(
    state: LaunchStateView,
    event: LaunchEventView,
    reason: Seq<char>,
)
    ensures
        next_step(state, event).1 == LaunchAction::Send ==> state is Spawning && event is Spawned,
        next_step(LaunchStateView::Spawning, LaunchEventView::SpawnFailed(reason)) == (
            LaunchStateView::Finished(Some(CellarErrorView::ChildSpawnFailed(reason))),
            LaunchAction::Stop,
        ),
        state is Finished ==> next_step(state, event) == (state, LaunchAction::Idle),
{
}

/// A command that could not be written is reported as `CommandEncodeFailed`,
/// and only after the sandbox, which runs already, was awaited.
pub proof fn lemma_failed_send_still_awaits(reason: Seq<char>)
    ensures
        ({
            let failure = Some(CellarErrorView::CommandEncodeFailed(reason));
            &&& next_step(LaunchStateView::Sending, LaunchEventView::SendFailed(reason)) == (
                LaunchStateView::Awaiting(failure),
                LaunchAction::CloseAndWait,
            )
            &&& next_step(LaunchStateView::Awaiting(failure), LaunchEventView::Exited) == (
                LaunchStateView::Finished(failure),
                LaunchAction::Stop,
            )
        }),
{
}

} // verus!
