//! The lifecycle controller: the single owner of the authoritative run
//! state.  It validates requested transitions against the guard table,
//! decides when the external worker must be invoked, and applies the
//! worker's outcome — never advancing the state speculatively.

use vstd::prelude::*;
use crate::config::Config;

verus! {

/// The authoritative three-valued run state of the worker.
#[derive(Clone, Copy, Debug, PartialEq, Eq, Structural)]
pub enum RunState {
    Stopped,
    Running,
    Paused,
}

/// A requested lifecycle transition.
///
/// `Pause` and `Resume` are controller-local presentation states layered
/// over a running worker: the worker itself knows only start and stop.
/// A status query is not a transition and bypasses the guard table.
#[derive(Clone, Copy, Debug, PartialEq, Eq, Structural)]
pub enum LifecycleCommand {
    Start,
    Pause,
    Resume,
    Stop,
}

/// The verbs the external worker understands.
#[derive(Clone, Copy, Debug, PartialEq, Eq, Structural)]
pub enum WorkerVerb {
    Start,
    Stop,
    Status,
}

/// Outcome of a completed worker invocation: a zero exit status maps to
/// `Success` with a fixed message, a non-zero one to `Failure` carrying
/// the worker's captured error text.
#[derive(Clone, Debug)]
pub enum LifecycleResult {
    Success(String),
    Failure(String),
}

/// Errors of the lifecycle layer.
///
/// `InvalidTransition` reports a guard violation, rejected before any
/// process call.  `ProcessSpawnError` means the worker's launcher could
/// not be started at all, so no lifecycle outcome occurred.
/// `WorkerRejected` is a non-zero worker exit surfaced through the
/// command surface.
#[derive(Clone, Debug)]
pub enum LifecycleError {
    InvalidTransition(RunState, LifecycleCommand),
    ProcessSpawnError(String),
    WorkerRejected(String),
}

/// Events broadcast to the presentation layer after each handled command.
#[derive(Clone, Debug)]
pub enum ControllerEvent {
    StateChanged(RunState),
    TransitionFailed(LifecycleCommand, String),
}

/// The guard table: which commands are legal from which state.
pub open spec fn allowed(s: RunState, c: LifecycleCommand) -> bool {
    match c {
        LifecycleCommand::Start => s is Stopped,
        LifecycleCommand::Pause => s is Running,
        LifecycleCommand::Resume => s is Paused,
        LifecycleCommand::Stop => s is Running || s is Paused,
    }
}

/// The state an allowed command leads to when it completes successfully.
pub open spec fn target(c: LifecycleCommand) -> RunState {
    match c {
        LifecycleCommand::Start => RunState::Running,
        LifecycleCommand::Pause => RunState::Paused,
        LifecycleCommand::Resume => RunState::Running,
        LifecycleCommand::Stop => RunState::Stopped,
    }
}

/// Whether an allowed command requires invoking the external worker.
/// Pause and resume are local transitions and never do.
pub open spec fn needs_worker(c: LifecycleCommand) -> bool {
    c is Start || c is Stop
}

/// What the controller decided about a requested command.
#[derive(Clone, Debug)]
pub enum HandleOutcome {
    /// The guard rejected the command; no process call was issued and the
    /// state did not change.
    Rejected(LifecycleError),
    /// A local transition completed; the event carries the new state.
    Done(ControllerEvent),
    /// The worker must be invoked with this verb; for a start, the
    /// configuration snapshot taken when the command was accepted.
    /// The caller reports the outcome through `complete`.
    Invoke(WorkerVerb, Config),
}

/// The controller owning the authoritative run state and the current
/// configuration snapshot.
pub struct LifecycleController {
    pub state: RunState,
    pub config: Config,
}

impl LifecycleController {
    /// A fresh controller starts in `Stopped` regardless of any prior
    /// session, with the configuration loaded at startup.
    pub fn new(config: Config) -> (c: LifecycleController)
        ensures
            c.state == RunState::Stopped,
            c.config == config,
    {
        LifecycleController { state: RunState::Stopped, config }
    }

    /// Validate a requested command against the guard table.
    ///
    /// A command the guard refuses is rejected at once with
    /// `InvalidTransition`, with no process call and no state change.
    /// A legal pause or resume completes locally.  A legal start or stop
    /// leaves the state untouched and asks the caller to invoke the
    /// worker: the state never advances before the worker has answered.
    pub fn handle(&mut self, cmd: LifecycleCommand) -> (out: HandleOutcome)
        ensures
            final(self).config == old(self).config,
            !allowed(old(self).state, cmd) ==> {
                &&& final(self).state == old(self).state
                &&& out matches HandleOutcome::Rejected(e)
                    && e == LifecycleError::InvalidTransition(old(self).state, cmd)
            },
            allowed(old(self).state, cmd) && !needs_worker(cmd) ==> {
                &&& final(self).state == target(cmd)
                &&& out matches HandleOutcome::Done(ev)
                    && ev == ControllerEvent::StateChanged(target(cmd))
            },
            allowed(old(self).state, cmd) && needs_worker(cmd) ==> {
                &&& final(self).state == old(self).state
                &&& out matches HandleOutcome::Invoke(v, cfg)
                    && v == verb_of(cmd) && cfg == old(self).config
            },
    {
        match cmd {
            LifecycleCommand::Start => {
                if self.state == RunState::Stopped {
                    HandleOutcome::Invoke(WorkerVerb::Start, self.config)
                } else {
                    HandleOutcome::Rejected(LifecycleError::InvalidTransition(self.state, cmd))
                }
            },
            LifecycleCommand::Pause => {
                if self.state == RunState::Running {
                    self.state = RunState::Paused;
                    HandleOutcome::Done(ControllerEvent::StateChanged(RunState::Paused))
                } else {
                    HandleOutcome::Rejected(LifecycleError::InvalidTransition(self.state, cmd))
                }
            },
            LifecycleCommand::Resume => {
                if self.state == RunState::Paused {
                    self.state = RunState::Running;
                    HandleOutcome::Done(ControllerEvent::StateChanged(RunState::Running))
                } else {
                    HandleOutcome::Rejected(LifecycleError::InvalidTransition(self.state, cmd))
                }
            },
            LifecycleCommand::Stop => {
                if self.state == RunState::Running || self.state == RunState::Paused {
                    HandleOutcome::Invoke(WorkerVerb::Stop, self.config)
                } else {
                    HandleOutcome::Rejected(LifecycleError::InvalidTransition(self.state, cmd))
                }
            },
        }
    }

    /// Apply the worker's answer to a previously accepted start or stop.
    ///
    /// On success the state becomes the command's target and a
    /// `StateChanged` event is broadcast; on failure the state is left
    /// exactly as it was — the controller never claims a success it
    /// cannot verify — and a `TransitionFailed` event carries the
    /// worker's diagnostic text.
    pub fn complete(&mut self, cmd: LifecycleCommand, res: &LifecycleResult) -> (ev:
        ControllerEvent)
        requires
            allowed(old(self).state, cmd),
            needs_worker(cmd),
        ensures
            final(self).config == old(self).config,
            res matches LifecycleResult::Success(_) ==> {
                &&& final(self).state == target(cmd)
                &&& ev == ControllerEvent::StateChanged(target(cmd))
            },
            res matches LifecycleResult::Failure(why) ==> {
                &&& final(self).state == old(self).state
                &&& ev matches ControllerEvent::TransitionFailed(c, w) && c == cmd && w@ == why@
            },
    {
        match res {
            LifecycleResult::Success(_) => {
                let next = match cmd {
                    LifecycleCommand::Stop => RunState::Stopped,
                    _ => RunState::Running,
                };
                self.state = next;
                ControllerEvent::StateChanged(next)
            },
            LifecycleResult::Failure(why) => {
                ControllerEvent::TransitionFailed(cmd, why.clone())
            },
        }
    }
}

/// The display name of a run state.
pub open spec fn spec_state_name(s: RunState) -> Seq<char> {
    match s {
        RunState::Stopped => "Stopped"@,
        RunState::Running => "Running"@,
        RunState::Paused => "Paused"@,
    }
}

/// The display name of a lifecycle command.
pub open spec fn spec_command_name(c: LifecycleCommand) -> Seq<char> {
    match c {
        LifecycleCommand::Start => "Start"@,
        LifecycleCommand::Pause => "Pause"@,
        LifecycleCommand::Resume => "Resume"@,
        LifecycleCommand::Stop => "Stop"@,
    }
}

impl RunState {
    /// The display name of the state.
    pub fn name(&self) -> (s: &'static str)
        ensures
            s@ == spec_state_name(*self),
    {
        match self {
            RunState::Stopped => "Stopped",
            RunState::Running => "Running",
            RunState::Paused => "Paused",
        }
    }
}

impl LifecycleCommand {
    /// The display name of the command.
    pub fn name(&self) -> (s: &'static str)
        ensures
            s@ == spec_command_name(*self),
    {
        match self {
            LifecycleCommand::Start => "Start",
            LifecycleCommand::Pause => "Pause",
            LifecycleCommand::Resume => "Resume",
            LifecycleCommand::Stop => "Stop",
        }
    }
}

impl LifecycleError {
    /// The descriptive message this error surfaces as: a guard violation
    /// names the command and the state it was refused in; the other
    /// errors carry their diagnostic text through unchanged.
    pub fn message(&self) -> (s: String)
        ensures
            *self matches LifecycleError::InvalidTransition(st, c) ==> s@ == "invalid transition: "@
                + spec_command_name(c) + " in state "@ + spec_state_name(st),
            *self matches LifecycleError::ProcessSpawnError(d) ==> s@ == d@,
            *self matches LifecycleError::WorkerRejected(w) ==> s@ == w@,
    {
        match self {
            LifecycleError::InvalidTransition(st, c) => String::from_str("invalid transition: ")
                .concat(c.name()).concat(" in state ").concat(st.name()),
            LifecycleError::ProcessSpawnError(d) => d.clone(),
            LifecycleError::WorkerRejected(w) => w.clone(),
        }
    }
}

/// Flatten a completed lifecycle outcome for the command surface: a
/// success carries its payload, a non-zero worker exit becomes
/// `WorkerRejected` with the diagnostic text, and the other errors pass
/// through unchanged.
pub fn classify_outcome(r: Result<LifecycleResult, LifecycleError>) -> (out: Result<
    String,
    LifecycleError,
>)
    ensures
        r matches Ok(lr) ==> {
            &&& lr matches LifecycleResult::Success(m) ==> (out matches Ok(p) && p@ == m@)
            &&& lr matches LifecycleResult::Failure(w) ==> (out matches Err(e)
                && e matches LifecycleError::WorkerRejected(ww) && ww@ == w@)
        },
        r matches Err(e) ==> (out matches Err(e2) && e2 == e),
{
    match r {
        Ok(LifecycleResult::Success(m)) => Ok(m),
        Ok(LifecycleResult::Failure(w)) => Err(LifecycleError::WorkerRejected(w)),
        Err(e) => Err(e),
    }
}

/// The worker verb an accepted start or stop translates to.
pub open spec fn verb_of(c: LifecycleCommand) -> WorkerVerb {
    match c {
        LifecycleCommand::Stop => WorkerVerb::Stop,
        _ => WorkerVerb::Start,
    }
}

/// Starting is always legal again after a completed stop, and never
/// legal twice in a row: from `Stopped` a start is accepted and, once
/// the worker confirms it, leads to `Running`, where a second start is
/// refused by the guard while a stop is accepted and leads back to
/// `Stopped`, where starting is legal once more.
pub proof fn lemma_start_stop_start_cycle()
    ensures
        allowed(RunState::Stopped, LifecycleCommand::Start),
        target(LifecycleCommand::Start) == RunState::Running,
        !allowed(RunState::Running, LifecycleCommand::Start),
        allowed(RunState::Running, LifecycleCommand::Stop),
        target(LifecycleCommand::Stop) == RunState::Stopped,
{
}

/// Pause is legal exactly in `Running` and resume exactly in `Paused`;
/// in particular both are illegal in `Stopped`.  Neither ever involves
/// the worker process.
pub proof fn lemma_pause_resume_guards(s: RunState)
    ensures
        allowed(s, LifecycleCommand::Pause) <==> s is Running,
        allowed(s, LifecycleCommand::Resume) <==> s is Paused,
        !allowed(RunState::Stopped, LifecycleCommand::Pause),
        !allowed(RunState::Stopped, LifecycleCommand::Resume),
        !needs_worker(LifecycleCommand::Pause),
        !needs_worker(LifecycleCommand::Resume),
{
}

} // verus!
