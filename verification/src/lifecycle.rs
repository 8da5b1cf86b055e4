//! The lifecycle of the pipeline as a state machine.
//!
//! The controller that runs the pipeline performs one action at a time and
//! reports how it went; [`step`] says which state follows and what to do
//! next. The probes are attached one after another in a fixed order, every
//! one of them before a consumer starts, and a single failure on the way
//! stops the pipeline.

use vstd::prelude::*;
use crate::event::ThreadFunc;

verus! {

/// How the pipeline ended.
#[derive(Clone, Copy, Debug, PartialEq, Eq, Structural)]
pub enum Status {
    /// It ran and was cancelled.
    Clean,
    /// Loading, attaching or starting the consumers failed.
    Failed,
}

/// The piece of startup that is under way.
#[derive(Clone, Copy, Debug, PartialEq, Eq, Structural)]
pub enum Pending {
    /// Loading the instrumentation.
    Load,
    /// Attaching the probe of one function.
    Probe(ThreadFunc),
}

/// The state of the pipeline.
#[derive(Clone, Copy, Debug, PartialEq, Eq, Structural)]
pub enum State {
    Idle,
    Attaching(Pending),
    Running,
    ShuttingDown,
    Stopped(Status),
}

/// What the controller tells the state machine.
#[derive(Clone, Copy, Debug, PartialEq, Eq, Structural)]
pub enum Event {
    /// The pipeline is asked to start.
    Start,
    /// The action asked for last was carried out.
    Done,
    /// The action asked for last failed.
    Failed,
    /// The cancellation signal came in.
    Cancel,
}

/// What the state machine asks the controller to do next.
#[derive(Clone, Copy, Debug, PartialEq, Eq, Structural)]
pub enum Action {
    /// Load the instrumentation.
    Load,
    /// Attach the probe of this function.
    Attach(ThreadFunc),
    /// Fix the reference point, start one consumer for each channel, and
    /// wait for the cancellation signal.
    Watch,
    /// Print the shutdown notice.
    Announce,
    /// End the process with the exit code of the state.
    Halt,
    /// Nothing: the event has no meaning in the state.
    Ignore,
}

/// The function whose probe is attached after that of `func`.
pub open spec fn following(func: ThreadFunc) -> Option<ThreadFunc> {
    match func {
        ThreadFunc::Create => Some(ThreadFunc::Detach),
        ThreadFunc::Detach => Some(ThreadFunc::Exit),
        ThreadFunc::Exit => Some(ThreadFunc::Join),
        ThreadFunc::Join => None,
    }
}

/// The state that follows `state` on `event`, and the action to take.
pub open spec fn transition(state: State, event: Event) -> (State, Action) {
    match (state, event) {
        (State::Idle, Event::Start) => (State::Attaching(Pending::Load), Action::Load),
        (State::Attaching(Pending::Load), Event::Done) => (
            State::Attaching(Pending::Probe(ThreadFunc::Create)),
            Action::Attach(ThreadFunc::Create),
        ),
        (State::Attaching(Pending::Probe(func)), Event::Done) => match following(func) {
            Some(next) => (State::Attaching(Pending::Probe(next)), Action::Attach(next)),
            None => (State::Running, Action::Watch),
        },
        (State::Attaching(_), Event::Failed) => (State::Stopped(Status::Failed), Action::Halt),
        (State::Running, Event::Cancel) => (State::ShuttingDown, Action::Announce),
        (State::Running, Event::Failed) => (State::Stopped(Status::Failed), Action::Halt),
        (State::ShuttingDown, Event::Done) => (State::Stopped(Status::Clean), Action::Halt),
        _ => (state, Action::Ignore),
    }
}

impl ThreadFunc {
    /// The function whose probe is attached next, `None` after the last.
    pub fn next(self) -> (next: Option<ThreadFunc>)
        ensures
            next == following(self),
    {
        match self {
            ThreadFunc::Create => Some(ThreadFunc::Detach),
            ThreadFunc::Detach => Some(ThreadFunc::Exit),
            ThreadFunc::Exit => Some(ThreadFunc::Join),
            ThreadFunc::Join => None,
        }
    }
}

impl State {
    /// The exit code of the process: zero after a clean shutdown, one after
    /// a failure, none while the pipeline has not stopped.
    pub open spec fn code(self) -> Option<u8> {
        match self {
            State::Stopped(Status::Clean) => Some(0u8),
            State::Stopped(Status::Failed) => Some(1u8),
            _ => None,
        }
    }

    /// The exit code of the process, once the pipeline has stopped.
    pub fn exit_code(self) -> (code: Option<u8>)
        ensures
            code == self.code(),
            code is Some <==> self is Stopped,
    {
        match self {
            State::Stopped(Status::Clean) => Some(0),
            State::Stopped(Status::Failed) => Some(1),
            _ => None,
        }
    }
}

/// Takes one step: the state that follows `state` on `event`, and the
/// action that the controller is to take.
pub fn step(state: State, event: Event) -> (next: (State, Action))
    ensures
        next == transition(state, event),
{
    match state {
        State::Idle => match event {
            Event::Start => (State::Attaching(Pending::Load), Action::Load),
            _ => (state, Action::Ignore),
        },
        State::Attaching(pending) => match event {
            Event::Done => {
                let func = match pending {
                    Pending::Load => Some(ThreadFunc::Create),
                    Pending::Probe(done) => done.next(),
                };
                match func {
                    Some(next) => (State::Attaching(Pending::Probe(next)), Action::Attach(next)),
                    None => (State::Running, Action::Watch),
                }
            },
            Event::Failed => (State::Stopped(Status::Failed), Action::Halt),
            _ => (state, Action::Ignore),
        },
        State::Running => match event {
            Event::Cancel => (State::ShuttingDown, Action::Announce),
            Event::Failed => (State::Stopped(Status::Failed), Action::Halt),
            _ => (state, Action::Ignore),
        },
        State::ShuttingDown => match event {
            Event::Done => (State::Stopped(Status::Clean), Action::Halt),
            _ => (state, Action::Ignore),
        },
        State::Stopped(_) => (state, Action::Ignore),
    }
}

/// The pipeline starts running only when the last of the four probes has
/// been attached.
pub proof fn running_follows_last_probe(state: State, event: Event)
    requires
        state != State::Running,
        transition(state, event).0 == State::Running,
    ensures
        state == State::Attaching(Pending::Probe(ThreadFunc::Join)),
        event == Event::Done,
{
}

/// A pipeline that has stopped stays as it is, and nothing more is asked of
/// the controller.
pub proof fn stopped_is_final(status: Status, event: Event)
    ensures
        transition(State::Stopped(status), event) == (State::Stopped(status), Action::Ignore),
{
}

/// The pipeline stops cleanly only through the shutdown notice, and the
/// notice is asked for only on cancellation while running.
pub proof fn clean_stop_follows_cancel(state: State, event: Event)
    ensures
        transition(state, event).0 == State::Stopped(Status::Clean) && state != State::Stopped(
            Status::Clean,
        ) ==> state == State::ShuttingDown && event == Event::Done,
        transition(state, event).0 == State::ShuttingDown && state != State::ShuttingDown ==> state
            == State::Running && event == Event::Cancel,
{
}

} // verus!
