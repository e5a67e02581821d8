//! The state machine of one process, the tracker of what runs after what,
//! and the supervisor that owns every process.
//!
//! Nothing here touches a child process. Each operation changes the state
//! and says, as a list of `ProcessCommand`s, what the host has to do to the
//! children; the host reports back what the children said.

use vstd::prelude::*;
use crate::config::ProcessConfig;
use crate::instances::{ProcessError, ProcessInstance, PtySize};
use crate::snapshots::{ProcessSnapshot, Screen};
use crate::statuses::{ProcessInstanceId, ProcessStatus};

verus! {

/// What the supervisor does with the keys that are pressed.
#[derive(Clone, Copy, PartialEq, Eq, Structural, Debug)]
pub enum MintakaMode {
    /// The main mode, allowing focus to be manually or automatically switched
    /// between each process.
    Main,
    /// Any input to Mintaka should be forwarded to the focused process, with
    /// the exception of the input to stop forwarding input.
    ForwardInputToFocusedProcess,
    /// Scroll through the history of the process.
    History,
}

/// The action to take on downstream processes following a change in an upstream
/// process's status.
#[derive(Clone, Copy, PartialEq, Eq, Structural, Debug)]
pub enum DownstreamAction {
    /// Restart all downstream processes.
    Restart,
    /// Stop all downstream processes, and wait for the upstream process to
    /// succeed.
    WaitForUpstream,
}

/// Track a set of downstream processes.
#[derive(Debug, PartialEq, Eq)]
pub struct DownstreamProcesses {
    /// The index of the upstream process among the supervisor's processes.
    pub upstream_process_index: usize,
    /// The indexes of the downstream processes among the supervisor's
    /// processes.
    pub downstream_process_indexes: Vec<usize>,
    /// The last upstream status that was acted upon.
    pub last_upstream_status: ProcessStatus,
}

impl DownstreamProcesses {
    /// What a newly seen upstream status asks of the downstream processes:
    /// nothing where it equals the last one seen, a restart where it is a
    /// success, and a wait in every other case. Two successes are equal
    /// only where their IDs are.
    pub open spec fn spec_action(
        last_upstream_status: ProcessStatus,
        upstream_status: ProcessStatus,
    ) -> Option<DownstreamAction> {
        if last_upstream_status == upstream_status {
            None
        } else if upstream_status.is_success() {
            Some(DownstreamAction::Restart)
        } else {
            Some(DownstreamAction::WaitForUpstream)
        }
    }

    /// Update the status of the upstream process, returning the action that
    /// should be taken on the downstream processes, if any.
    pub fn update_upstream_status(&mut self, upstream_status: ProcessStatus) -> (action: Option<
        DownstreamAction,
    >)
        ensures
            action == Self::spec_action(old(self).last_upstream_status, upstream_status),
            final(self).last_upstream_status == upstream_status,
            final(self).upstream_process_index == old(self).upstream_process_index,
            final(self).downstream_process_indexes == old(self).downstream_process_indexes,
    {
        let downstream_action = if self.last_upstream_status == upstream_status {
            None
        } else if upstream_status.is_success() {
            Some(DownstreamAction::Restart)
        } else {
            Some(DownstreamAction::WaitForUpstream)
        };
        self.last_upstream_status = upstream_status;
        downstream_action
    }

    /// A status that equals the last one seen asks for nothing.
    pub proof fn lemma_unchanged_status_is_silent(status: ProcessStatus)
        ensures
            Self::spec_action(status, status) is None,
    {
    }

    /// Two successes in a row, told apart by their IDs, each ask for a
    /// restart of the downstream processes.
    pub proof fn lemma_each_success_restarts(
        last_upstream_status: ProcessStatus,
        first: crate::statuses::SuccessId,
        second: crate::statuses::SuccessId,
    )
        requires
            last_upstream_status != ProcessStatus::Success(first),
            first != second,
        ensures
            Self::spec_action(last_upstream_status, ProcessStatus::Success(first)) == Some(
                DownstreamAction::Restart,
            ),
            Self::spec_action(ProcessStatus::Success(first), ProcessStatus::Success(second))
                == Some(DownstreamAction::Restart),
    {
    }
}

/// The state that a process takes once its instance has ended.
#[derive(Clone, Copy, PartialEq, Eq, Structural, Debug)]
pub enum StateOnTermination {
    Stopped,
    WaitingForUpstream,
    PendingRestart,
}

impl StateOnTermination {
    /// The state itself.
    pub open spec fn spec_state(&self) -> ProcessInstanceState {
        match self {
            StateOnTermination::Stopped => ProcessInstanceState::Stopped,
            StateOnTermination::WaitingForUpstream => ProcessInstanceState::WaitingForUpstream,
            StateOnTermination::PendingRestart => ProcessInstanceState::PendingRestart,
        }
    }

    /// The state itself.
    pub fn state(&self) -> (state: ProcessInstanceState)
        ensures
            state == self.spec_state(),
    {
        match self {
            StateOnTermination::Stopped => ProcessInstanceState::Stopped,
            StateOnTermination::WaitingForUpstream => ProcessInstanceState::WaitingForUpstream,
            StateOnTermination::PendingRestart => ProcessInstanceState::PendingRestart,
        }
    }
}

/// Where a process stands. An instance of it is alive in exactly two of
/// the states: `Running` and `Terminating`.
#[derive(Debug, PartialEq, Eq)]
pub enum ProcessInstanceState {
    /// This process has not yet been triggered.
    NotStarted,
    /// This process has been stopped, and will not be automatically started.
    Stopped,
    /// This process will be triggered once an upstream process reaches a
    /// success state.
    WaitingForUpstream,
    /// This process should be restarted.
    PendingRestart,
    /// Failed to start a process instance.
    FailedToStart(ProcessError),
    /// This process has a running instance.
    Running { instance: ProcessInstance, status: ProcessStatus },
    /// This process has a running instance that is being terminated.
    Terminating {
        instance: ProcessInstance,
        status: ProcessStatus,
        /// The state that the process should have once it has been terminated.
        state_on_termination: StateOnTermination,
    },
}

impl ProcessInstanceState {
    /// Whether the process is stopped.
    pub open spec fn spec_is_stopped(&self) -> bool {
        *self is Stopped
    }

    /// Whether the process is being terminated in order to stay stopped.
    pub open spec fn spec_is_stopping(&self) -> bool {
        *self matches ProcessInstanceState::Terminating { state_on_termination, .. }
            && state_on_termination is Stopped
    }

    /// The instance that is alive in this state.
    pub open spec fn spec_instance(&self) -> Option<ProcessInstance> {
        match self {
            ProcessInstanceState::Running { instance, .. } => Some(*instance),
            ProcessInstanceState::Terminating { instance, .. } => Some(*instance),
            _ => None,
        }
    }

    /// The status that the state shows to the outside. A process about to
    /// start counts as running; one that is being terminated shows what it
    /// is terminated for.
    pub open spec fn spec_to_status(&self) -> ProcessStatus {
        match self {
            ProcessInstanceState::NotStarted => ProcessStatus::NotStarted,
            ProcessInstanceState::Stopped => ProcessStatus::Stopped,
            ProcessInstanceState::WaitingForUpstream => ProcessStatus::WaitingForUpstream,
            ProcessInstanceState::PendingRestart => ProcessStatus::Running,
            ProcessInstanceState::FailedToStart(_) => ProcessStatus::FailedToStart,
            ProcessInstanceState::Running { status, .. } => *status,
            ProcessInstanceState::Terminating { state_on_termination, .. } => match state_on_termination {
                StateOnTermination::PendingRestart => ProcessStatus::Restarting,
                StateOnTermination::Stopped => ProcessStatus::Stopping,
                StateOnTermination::WaitingForUpstream => ProcessStatus::Terminating,
            },
        }
    }

    /// The state after a request to end up in `state_on_termination`: a
    /// live instance is to be terminated first, and keeps its last status
    /// meanwhile; without one the new state is taken at once.
    pub open spec fn spec_redirected(
        &self,
        state_on_termination: StateOnTermination,
    ) -> ProcessInstanceState {
        match self {
            ProcessInstanceState::Running { instance, status } => ProcessInstanceState::Terminating {
                instance: *instance,
                status: *status,
                state_on_termination,
            },
            ProcessInstanceState::Terminating { instance, status, .. } => ProcessInstanceState::Terminating {
                instance: *instance,
                status: *status,
                state_on_termination,
            },
            _ => state_on_termination.spec_state(),
        }
    }

    /// The state after a request that a stop overrides: a process that is
    /// stopped, or is being stopped, stays as it is.
    pub open spec fn spec_killed(
        &self,
        state_on_termination: StateOnTermination,
    ) -> ProcessInstanceState {
        if self.spec_is_stopped() || self.spec_is_stopping() {
            *self
        } else {
            self.spec_redirected(state_on_termination)
        }
    }

    /// The state after the statuses in `received` have come in, in that
    /// order, from the live instance: only the last one counts, and an
    /// instance that is being terminated and has exited gives way to the
    /// state that was waiting for it.
    pub open spec fn spec_synchronized(&self, received: Seq<ProcessStatus>) -> ProcessInstanceState {
        match self {
            ProcessInstanceState::Running { instance, status } => ProcessInstanceState::Running {
                instance: *instance,
                status: if received.len() > 0 {
                    received.last()
                } else {
                    *status
                },
            },
            ProcessInstanceState::Terminating { instance, status, state_on_termination } => {
                let status = if received.len() > 0 {
                    received.last()
                } else {
                    *status
                };
                if status is Exited {
                    state_on_termination.spec_state()
                } else {
                    ProcessInstanceState::Terminating {
                        instance: *instance,
                        status,
                        state_on_termination: *state_on_termination,
                    }
                }
            },
            _ => *self,
        }
    }

    /// The state after an attempt to start instance `id`: running, with
    /// nothing known of it yet, or failed.
    pub open spec fn spec_started(
        id: ProcessInstanceId,
        spawned: Result<u32, ProcessError>,
    ) -> ProcessInstanceState {
        match spawned {
            Ok(process_id) => ProcessInstanceState::Running {
                instance: ProcessInstance { id, process_id },
                status: ProcessStatus::Running,
            },
            Err(error) => ProcessInstanceState::FailedToStart(error),
        }
    }

    /// The status that a live instance last reported, as the state holds
    /// it.
    pub open spec fn spec_reported(&self) -> Option<ProcessStatus> {
        match self {
            ProcessInstanceState::Running { status, .. } => Some(*status),
            ProcessInstanceState::Terminating { status, .. } => Some(*status),
            _ => None,
        }
    }

    /// Whether the status that the state holds of its instance, if it
    /// holds one, is one that a reader reports.
    pub open spec fn spec_holds_report(&self) -> bool {
        match self.spec_reported() {
            Some(status) => status.spec_is_report(),
            None => true,
        }
    }

    /// Where readers report nothing but what readers report, every state
    /// that a process comes to holds such a status: a fresh instance is
    /// held to run, and every request leaves the held status as it is.
    pub proof fn lemma_held_status_stays_a_report(
        self,
        received: Seq<ProcessStatus>,
        state_on_termination: StateOnTermination,
        id: ProcessInstanceId,
        spawned: Result<u32, ProcessError>,
    )
        requires
            self.spec_holds_report(),
            forall|i: int| 0 <= i < received.len() ==> (#[trigger] received[i]).spec_is_report(),
        ensures
            self.spec_synchronized(received).spec_holds_report(),
            self.spec_killed(state_on_termination).spec_holds_report(),
            self.spec_redirected(state_on_termination).spec_holds_report(),
            Self::spec_started(id, spawned).spec_holds_report(),
    {
        if received.len() > 0 {
            assert(received[received.len() - 1] == received.last());
        }
    }

    /// A state that holds a report shows the status `Stopped` where it is
    /// the state `Stopped`, and nowhere else.
    pub proof fn lemma_stopped_shows_as_stopped(self)
        requires
            self.spec_holds_report(),
        ensures
            self.spec_to_status() == ProcessStatus::Stopped <==> self is Stopped,
    {
    }

    /// An instance is alive in the states `Running` and `Terminating`, and
    /// in no other.
    pub proof fn lemma_instance_lives_while_running_or_terminating(self)
        ensures
            self.spec_instance() is Some <==> (self is Running || self is Terminating),
            self.spec_redirected(StateOnTermination::Stopped).spec_instance()
                == self.spec_instance(),
            self.spec_redirected(StateOnTermination::PendingRestart).spec_instance()
                == self.spec_instance(),
            self.spec_redirected(StateOnTermination::WaitingForUpstream).spec_instance()
                == self.spec_instance(),
    {
    }

    /// Taking in reports makes up no status: the status that a state holds
    /// afterwards is the one that it held before, or one that was
    /// received.
    pub proof fn lemma_held_status_was_reported(self, received: Seq<ProcessStatus>)
        ensures
            self.spec_synchronized(received).spec_reported() matches Some(status) ==> (
            self.spec_reported() == Some(status) || received.contains(status)),
    {
        if received.len() > 0 {
            assert(received[received.len() - 1] == received.last());
        }
    }

    /// Whether or not the process is stopped, meaning it should not be started
    /// automatically.
    pub fn is_stopped(&self) -> (stopped: bool)
        ensures
            stopped == self.spec_is_stopped(),
    {
        matches!(self, Self::Stopped)
    }

    /// Whether or not the process is stopping.
    pub fn is_stopping(&self) -> (stopping: bool)
        ensures
            stopping == self.spec_is_stopping(),
    {
        match self {
            Self::Terminating { state_on_termination, .. } => matches!(
                state_on_termination,
                StateOnTermination::Stopped
            ),
            _ => false,
        }
    }

    /// The instance that is alive in this state.
    pub fn instance(&self) -> (instance: Option<ProcessInstance>)
        ensures
            instance == self.spec_instance(),
            instance is Some <==> (*self is Running || *self is Terminating),
    {
        match self {
            ProcessInstanceState::Running { instance, .. } => Some(*instance),
            ProcessInstanceState::Terminating { instance, .. } => Some(*instance),
            _ => None,
        }
    }

    /// Convert the process instance state to a process status.
    pub fn to_status(&self) -> (status: ProcessStatus)
        ensures
            status == self.spec_to_status(),
    {
        match self {
            ProcessInstanceState::NotStarted => ProcessStatus::NotStarted,
            ProcessInstanceState::Stopped => ProcessStatus::Stopped,
            ProcessInstanceState::WaitingForUpstream => ProcessStatus::WaitingForUpstream,
            ProcessInstanceState::PendingRestart => ProcessStatus::Running,
            ProcessInstanceState::FailedToStart(_) => ProcessStatus::FailedToStart,
            ProcessInstanceState::Running { status, .. } => *status,
            ProcessInstanceState::Terminating { state_on_termination, .. } => match state_on_termination {
                StateOnTermination::PendingRestart => ProcessStatus::Restarting,
                StateOnTermination::Stopped => ProcessStatus::Stopping,
                StateOnTermination::WaitingForUpstream => ProcessStatus::Terminating,
            },
        }
    }
}

/// What the process pane shows.
#[derive(Debug, PartialEq, Eq)]
pub enum ScreenContents<'a, L, C> {
    /// Why the process could not be started.
    Error(String),
    /// Lines of a terminal, and where its cursor is, if it is to be shown.
    Terminal { lines: &'a [L], cursor_position: Option<C> },
}

impl<'a, L, C> ScreenContents<'a, L, C> {
    /// The same contents with no cursor to show.
    pub open spec fn spec_without_cursor(self) -> Self {
        match self {
            ScreenContents::Error(message) => ScreenContents::Error(message),
            ScreenContents::Terminal { lines, .. } => ScreenContents::Terminal {
                lines,
                cursor_position: None,
            },
        }
    }

    /// The same contents with no cursor to show.
    pub fn without_cursor(self) -> (contents: Self)
        ensures
            contents == self.spec_without_cursor(),
    {
        match self {
            ScreenContents::Error(message) => ScreenContents::Error(message),
            ScreenContents::Terminal { lines, .. } => ScreenContents::Terminal {
                lines,
                cursor_position: None,
            },
        }
    }
}

/// One configured process: its state, and what is needed to start it.
#[derive(Debug)]
pub struct Process {
    name: String,
    process_config: ProcessConfig,
    pty_size: PtySize,
    instance_state: ProcessInstanceState,
    next_process_instance_id: ProcessInstanceId,
}

/// A process as contracts speak of it.
pub struct ProcessView {
    pub name: Seq<char>,
    pub process_config: ProcessConfig,
    pub pty_size: PtySize,
    pub state: ProcessInstanceState,
    /// The ID that the next instance of the process gets.
    pub next_process_instance_id: ProcessInstanceId,
}

impl ProcessView {
    /// The same process in another state.
    pub open spec fn with_state(self, state: ProcessInstanceState) -> ProcessView {
        ProcessView { state, ..self }
    }

    /// The status that the process shows to the outside.
    pub open spec fn status(self) -> ProcessStatus {
        self.state.spec_to_status()
    }

    /// The process after an attempt to start its next instance.
    pub open spec fn started(self, spawned: Result<u32, ProcessError>) -> ProcessView {
        ProcessView {
            state: ProcessInstanceState::spec_started(self.next_process_instance_id, spawned),
            next_process_instance_id: ProcessInstanceId(
                (self.next_process_instance_id.0 + 1) as u32,
            ),
            ..self
        }
    }
}

impl View for Process {
    type V = ProcessView;

    closed spec fn view(&self) -> ProcessView {
        ProcessView {
            name: self.name@,
            process_config: self.process_config,
            pty_size: self.pty_size,
            state: self.instance_state,
            next_process_instance_id: self.next_process_instance_id,
        }
    }
}

impl Process {
    /// A process that has had no instance yet. It is about to start where
    /// its configuration says so, and waits to be asked otherwise.
    pub fn new(process_config: ProcessConfig, pty_size: PtySize) -> (process: Self)
        ensures
            process@.name == process_config.spec_name(),
            process@.process_config == process_config,
            process@.pty_size == pty_size,
            process@.next_process_instance_id@ == 0,
            process@.state == (if process_config.spec_autostart() {
                ProcessInstanceState::PendingRestart
            } else {
                ProcessInstanceState::NotStarted
            }),
    {
        let name = process_config.name();
        let instance_state = if process_config.autostart() {
            ProcessInstanceState::PendingRestart
        } else {
            ProcessInstanceState::NotStarted
        };
        Self {
            name,
            process_config,
            pty_size,
            instance_state,
            next_process_instance_id: ProcessInstanceId::new(),
        }
    }

    /// Take in how the attempt to start the next instance went: `Ok` with
    /// the operating system's number of the child, or the reason why there
    /// is none. The instance's ID is used up either way.
    pub fn start(&mut self, spawned: Result<u32, ProcessError>)
        requires
            old(self)@.next_process_instance_id@ < u32::MAX,
        ensures
            final(self)@ == old(self)@.started(spawned),
    {
        let id = self.next_process_instance_id.increment();
        self.instance_state = match spawned {
            Ok(process_id) => ProcessInstanceState::Running {
                instance: ProcessInstance { id, process_id },
                status: ProcessStatus::Running,
            },
            Err(error) => ProcessInstanceState::FailedToStart(error),
        };
    }

    /// The name that the process is shown and referred to by.
    pub fn name(&self) -> (name: &str)
        ensures
            name@ == self@.name,
    {
        self.name.as_str()
    }

    /// The configuration that the process was made from.
    pub fn process_config(&self) -> (process_config: &ProcessConfig)
        ensures
            *process_config == self@.process_config,
    {
        &self.process_config
    }

    /// The size that the next instance's terminal is to have.
    pub fn pty_size(&self) -> (pty_size: PtySize)
        ensures
            pty_size == self@.pty_size,
    {
        self.pty_size
    }

    /// The ID that the next instance of the process gets.
    pub fn next_process_instance_id(&self) -> (id: ProcessInstanceId)
        ensures
            id == self@.next_process_instance_id,
    {
        self.next_process_instance_id
    }

    /// Stop the process for good: only an explicit restart brings it back.
    /// Returns the instance that the host has to kill.
    pub fn stop(&mut self) -> (killed: Option<ProcessInstance>)
        ensures
            final(self)@ == old(self)@.with_state(
                old(self)@.state.spec_killed(StateOnTermination::Stopped),
            ),
            killed == Self::spec_kill_target(old(self)@.state),
    {
        self.kill(StateOnTermination::Stopped)
    }

    /// Whether or not the process has stopped.
    pub fn is_stopped(&self) -> (stopped: bool)
        ensures
            stopped == self@.state.spec_is_stopped(),
    {
        self.instance_state.is_stopped()
    }

    /// Whether or not the process is stopping.
    pub fn is_stopping(&self) -> (stopping: bool)
        ensures
            stopping == self@.state.spec_is_stopping(),
    {
        self.instance_state.is_stopping()
    }

    /// Start the process anew at the user's request, whatever its state:
    /// a live instance is terminated first. Returns the instance that the
    /// host has to kill.
    pub fn restart(&mut self) -> (killed: Option<ProcessInstance>)
        ensures
            final(self)@ == old(self)@.with_state(
                old(self)@.state.spec_redirected(StateOnTermination::PendingRestart),
            ),
            killed == old(self)@.state.spec_instance(),
    {
        let killed = self.instance_state.instance();
        self.redirect(StateOnTermination::PendingRestart);
        killed
    }

    /// Let the process wait until its upstream process has succeeded.
    /// Returns the instance that the host has to kill.
    pub fn mark_waiting_for_upstream(&mut self) -> (killed: Option<ProcessInstance>)
        ensures
            final(self)@ == old(self)@.with_state(
                old(self)@.state.spec_killed(StateOnTermination::WaitingForUpstream),
            ),
            killed == Self::spec_kill_target(old(self)@.state),
    {
        self.kill(StateOnTermination::WaitingForUpstream)
    }

    /// The instance that is killed by a request that a stop overrides.
    pub open spec fn spec_kill_target(state: ProcessInstanceState) -> Option<ProcessInstance> {
        if state.spec_is_stopped() || state.spec_is_stopping() {
            None
        } else {
            state.spec_instance()
        }
    }

    /// Send the process towards `state_on_termination`, unless it is
    /// stopped or being stopped. A live instance is never dropped: it is
    /// terminated, and its exit is waited for. Returns the instance that
    /// the host has to kill.
    pub fn kill(&mut self, state_on_termination: StateOnTermination) -> (killed: Option<
        ProcessInstance,
    >)
        ensures
            final(self)@ == old(self)@.with_state(
                old(self)@.state.spec_killed(state_on_termination),
            ),
            killed == Self::spec_kill_target(old(self)@.state),
    {
        if self.is_stopped() || self.is_stopping() {
            return None;
        }
        let killed = self.instance_state.instance();
        self.redirect(state_on_termination);
        killed
    }

    fn redirect(&mut self, state_on_termination: StateOnTermination)
        ensures
            final(self)@ == old(self)@.with_state(
                old(self)@.state.spec_redirected(state_on_termination),
            ),
    {
        let next = match &self.instance_state {
            ProcessInstanceState::Running { instance, status } => ProcessInstanceState::Terminating {
                instance: *instance,
                status: *status,
                state_on_termination,
            },
            ProcessInstanceState::Terminating { instance, status, .. } => ProcessInstanceState::Terminating {
                instance: *instance,
                status: *status,
                state_on_termination,
            },
            _ => state_on_termination.state(),
        };
        self.instance_state = next;
    }

    /// What a change of the upstream process asks of this one. A process
    /// that is stopped, or is being stopped, does not follow.
    pub fn follow_upstream(&mut self, action: DownstreamAction) -> (killed: Option<
        ProcessInstance,
    >)
        ensures
            final(self)@ == old(self)@.with_state(
                old(self)@.state.spec_killed(spec_state_after(action)),
            ),
            killed == Self::spec_kill_target(old(self)@.state),
    {
        match action {
            DownstreamAction::Restart => self.kill(StateOnTermination::PendingRestart),
            DownstreamAction::WaitForUpstream => self.mark_waiting_for_upstream(),
        }
    }

    /// Synchronize the status of the process with what its instance has
    /// reported since the last time, oldest report first.
    pub fn synchronize_status(&mut self, received: &Vec<ProcessStatus>)
        ensures
            final(self)@ == old(self)@.with_state(old(self)@.state.spec_synchronized(received@)),
    {
        let last = if received.len() > 0 {
            Some(received[received.len() - 1])
        } else {
            None
        };
        let next = match &self.instance_state {
            ProcessInstanceState::Running { instance, status } => Some(
                ProcessInstanceState::Running {
                    instance: *instance,
                    status: match last {
                        Some(new_status) => new_status,
                        None => *status,
                    },
                },
            ),
            ProcessInstanceState::Terminating { instance, status, state_on_termination } => {
                let status = match last {
                    Some(new_status) => new_status,
                    None => *status,
                };
                match status {
                    ProcessStatus::Exited { .. } => Some(state_on_termination.state()),
                    _ => Some(
                        ProcessInstanceState::Terminating {
                            instance: *instance,
                            status,
                            state_on_termination: *state_on_termination,
                        },
                    ),
                }
            },
            _ => None,
        };
        if let Some(next) = next {
            self.instance_state = next;
        }
    }

    /// The ID of the instance that is to be started now, if one is: a
    /// process is started where it is pending, and only there.
    pub fn do_work(&self) -> (start: Option<ProcessInstanceId>)
        ensures
            start == (if self@.state is PendingRestart {
                Some(self@.next_process_instance_id)
            } else {
                None
            }),
    {
        if matches!(self.instance_state, ProcessInstanceState::PendingRestart) {
            Some(self.next_process_instance_id)
        } else {
            None
        }
    }

    /// Take a new size for the terminal. Returns the instance whose
    /// terminal the host has to resize: the one of a running process.
    pub fn resize(&mut self, pty_size: PtySize) -> (resized: Option<ProcessInstance>)
        ensures
            final(self)@ == (ProcessView { pty_size, ..old(self)@ }),
            resized == (match old(self)@.state {
                ProcessInstanceState::Running { instance, .. } => Some(instance),
                _ => None,
            }),
    {
        self.pty_size = pty_size;
        match &self.instance_state {
            ProcessInstanceState::Running { instance, .. } => Some(*instance),
            _ => None,
        }
    }

    /// The state of the process.
    pub fn instance_state(&self) -> (state: &ProcessInstanceState)
        ensures
            *state == self@.state,
    {
        &self.instance_state
    }

    /// The status that the process shows to the outside.
    pub fn status(&self) -> (status: ProcessStatus)
        ensures
            status == self@.status(),
    {
        self.instance_state.to_status()
    }

    /// The instance of the process that is alive.
    pub fn instance(&self) -> (instance: Option<ProcessInstance>)
        ensures
            instance == self@.state.spec_instance(),
    {
        self.instance_state.instance()
    }

    /// The lines to show for the process, given those of its instance's
    /// terminal: without an instance there is nothing to show.
    pub fn lines<'a, L>(&self, live: &'a [L]) -> (lines: &'a [L])
        ensures
            lines@ == spec_lines(self@, live@),
    {
        match self.instance() {
            Some(_) => live,
            None => {
                let nothing: &[L] = &[];
                assert(nothing@ =~= Seq::<L>::empty());
                nothing
            },
        }
    }

    /// The cursor to show for the process, given that of its instance's
    /// terminal: only a process that counts as running has one.
    pub fn cursor_position<C>(&self, live: Option<C>) -> (cursor_position: Option<C>)
        ensures
            cursor_position == spec_cursor_position(self@, live),
    {
        if !self.status().is_running() {
            return None;
        }
        match self.instance() {
            Some(_) => live,
            None => None,
        }
    }

    /// What the pane shows of the process, given the lines and the cursor
    /// of its instance's terminal: the reason where the process could not
    /// be started, else its lines and its cursor.
    pub fn screen_contents<'a, L, C>(&self, live_lines: &'a [L], live_cursor: Option<C>) -> (contents:
        ScreenContents<'a, L, C>)
        ensures
            spec_shows(self@, live_lines@, live_cursor, contents),
    {
        if let ProcessInstanceState::FailedToStart(error) = &self.instance_state {
            ScreenContents::Error(error.describe())
        } else {
            let lines = self.lines(live_lines);
            let cursor_position = self.cursor_position(live_cursor);
            ScreenContents::Terminal { lines, cursor_position }
        }
    }

    /// The instance that a key press is to be forwarded to.
    pub fn send_input(&self) -> (target: Option<ProcessInstance>)
        ensures
            target == self@.state.spec_instance(),
    {
        self.instance()
    }

    /// A snapshot of the process, given the screen of its instance's
    /// terminal: it starts at the first line of the visible screen. Without
    /// an instance, or without a screen, it is empty.
    pub fn snapshot<L>(&self, screen: Option<Screen<L>>) -> (snapshot: ProcessSnapshot<L>)
        ensures
            snapshot.spec_screen() == spec_snapshot_screen(self@, screen),
            snapshot.spec_line_index() == snapshot.spec_base(),
    {
        match (self.instance(), screen) {
            (Some(_), Some(screen)) => {
                let base = screen.base();
                ProcessSnapshot::new(base, screen)
            },
            _ => ProcessSnapshot::empty(),
        }
    }
}

/// The lines to show for a process whose terminal holds `live`.
pub open spec fn spec_lines<L>(view: ProcessView, live: Seq<L>) -> Seq<L> {
    if view.state.spec_instance() is Some {
        live
    } else {
        Seq::empty()
    }
}

/// The cursor to show for a process whose terminal has the cursor `live`.
pub open spec fn spec_cursor_position<C>(view: ProcessView, live: Option<C>) -> Option<C> {
    if view.status().is_running() && view.state.spec_instance() is Some {
        live
    } else {
        None
    }
}

/// Whether `contents` is what the pane shows of a process whose terminal
/// holds `lines` and has the cursor `cursor_position`.
pub open spec fn spec_shows<'a, L, C>(
    view: ProcessView,
    lines: Seq<L>,
    cursor_position: Option<C>,
    contents: ScreenContents<'a, L, C>,
) -> bool {
    match view.state {
        ProcessInstanceState::FailedToStart(error) => contents matches ScreenContents::Error(message)
            && message@ == error.spec_describe(),
        _ => contents matches ScreenContents::Terminal { lines: shown, cursor_position: cursor }
            && shown@ == spec_lines(view, lines) && cursor == spec_cursor_position(
            view,
            cursor_position,
        ),
    }
}

/// The screen that a snapshot of a process holds.
pub open spec fn spec_snapshot_screen<L>(view: ProcessView, screen: Option<Screen<L>>) -> Option<
    Screen<L>,
> {
    if view.state.spec_instance() is Some {
        screen
    } else {
        None
    }
}

/// The state that a downstream process is sent towards.
pub open spec fn spec_state_after(action: DownstreamAction) -> StateOnTermination {
    match action {
        DownstreamAction::Restart => StateOnTermination::PendingRestart,
        DownstreamAction::WaitForUpstream => StateOnTermination::WaitingForUpstream,
    }
}

} // verus!
