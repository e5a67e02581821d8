//! Process statuses and the identifiers that make successive successes distinct.

use vstd::prelude::*;

verus! {

/// The ID of a process instance, unique within the context of a particular
/// process.
#[derive(Clone, Copy, PartialEq, Eq, Structural, Debug)]
pub struct ProcessInstanceId(pub u32);

impl View for ProcessInstanceId {
    type V = nat;

    open spec fn view(&self) -> nat {
        self.0 as nat
    }
}

impl ProcessInstanceId {
    /// Create a new process instance ID for a process.
    pub fn new() -> (id: Self)
        ensures
            id@ == 0,
    {
        Self(0)
    }

    /// Increment the ID, returning the value before the increment.
    pub fn increment(&mut self) -> (previous: Self)
        requires
            old(self)@ < u32::MAX,
        ensures
            previous == *old(self),
            final(self)@ == old(self)@ + 1,
    {
        let previous = *self;
        self.0 += 1;
        previous
    }
}

/// The ID of a success: the instance that reported it and the position of
/// the success among those of that instance.
#[derive(Clone, Copy, PartialEq, Eq, Structural, Debug)]
pub struct SuccessId {
    /// The ID of the process instance.
    pub process_instance_id: ProcessInstanceId,
    /// The index of the success within the process instance.
    pub success_index: u32,
}

impl View for SuccessId {
    type V = (nat, nat);

    open spec fn view(&self) -> (nat, nat) {
        (self.process_instance_id@, self.success_index as nat)
    }
}

impl SuccessId {
    /// Create a new success ID for a process instance.
    pub fn new(process_instance_id: ProcessInstanceId) -> (id: Self)
        ensures
            id@ == (process_instance_id@, 0nat),
    {
        Self { process_instance_id, success_index: 0 }
    }

    /// Increment the ID, returning the value before the increment.
    pub fn increment(&mut self) -> (previous: Self)
        requires
            old(self).success_index < u32::MAX,
        ensures
            previous == *old(self),
            final(self)@ == (old(self)@.0, old(self)@.1 + 1),
    {
        let previous = *self;
        self.success_index += 1;
        previous
    }
}

/// What a process looks like from the outside.
#[derive(Clone, Copy, PartialEq, Eq, Structural, Debug)]
pub enum ProcessStatus {
    /// The process has not been started.
    NotStarted,
    /// This process has been stopped, and will not be automatically started.
    Stopped,
    /// The process will run once an upstream process reaches a success state.
    WaitingForUpstream,
    /// Failed to start a process instance.
    FailedToStart,
    /// The process is running and has not reached a success or error state.
    Running,
    /// The process is running and has reached a success state.
    Success(SuccessId),
    /// The process is running and has reached an error state.
    Errors { error_count: Option<u64> },
    /// The process has exited.
    Exited { exit_code: u32 },
    /// The instance is being terminated and a new one will follow.
    Restarting,
    /// The instance is being terminated and the process will stay stopped.
    Stopping,
    /// The instance is being terminated for any other reason.
    Terminating,
}

impl ProcessStatus {
    /// A failure is a failed start, reported errors or a non-zero exit.
    pub open spec fn spec_is_failure(&self) -> bool {
        ||| *self is FailedToStart
        ||| *self is Errors
        ||| (*self matches ProcessStatus::Exited { exit_code } && exit_code != 0)
    }

    /// A success is a reported success or a zero exit.
    pub open spec fn spec_is_success(&self) -> bool {
        ||| *self is Success
        ||| (*self matches ProcessStatus::Exited { exit_code } && exit_code == 0)
    }

    /// A process is running while an instance reports on it.
    pub open spec fn spec_is_running(&self) -> bool {
        *self is Running || *self is Success || *self is Errors
    }

    /// Whether the status is one that the reader of an instance reports:
    /// that the process runs, a success, errors, or the exit.
    pub open spec fn spec_is_report(&self) -> bool {
        *self is Running || *self is Success || *self is Errors || *self is Exited
    }

    /// Whether the status is a failure.
    #[verifier::when_used_as_spec(spec_is_failure)]
    pub fn is_failure(&self) -> (failure: bool)
        ensures
            failure == self.spec_is_failure(),
    {
        match self {
            ProcessStatus::NotStarted => false,
            ProcessStatus::Stopped => false,
            ProcessStatus::WaitingForUpstream => false,
            ProcessStatus::FailedToStart => true,
            ProcessStatus::Running => false,
            ProcessStatus::Success(_) => false,
            ProcessStatus::Errors { .. } => true,
            ProcessStatus::Exited { exit_code } => *exit_code != 0,
            ProcessStatus::Restarting => false,
            ProcessStatus::Stopping => false,
            ProcessStatus::Terminating => false,
        }
    }

    /// Whether the status is a success.
    #[verifier::when_used_as_spec(spec_is_success)]
    pub fn is_success(&self) -> (success: bool)
        ensures
            success == self.spec_is_success(),
    {
        match self {
            ProcessStatus::NotStarted => false,
            ProcessStatus::Stopped => false,
            ProcessStatus::WaitingForUpstream => false,
            ProcessStatus::FailedToStart => false,
            ProcessStatus::Running => false,
            ProcessStatus::Success(_) => true,
            ProcessStatus::Errors { .. } => false,
            ProcessStatus::Exited { exit_code } => *exit_code == 0,
            ProcessStatus::Restarting => false,
            ProcessStatus::Stopping => false,
            ProcessStatus::Terminating => false,
        }
    }

    /// Whether an instance of the process reports on it.
    #[verifier::when_used_as_spec(spec_is_running)]
    pub fn is_running(&self) -> (running: bool)
        ensures
            running == self.spec_is_running(),
    {
        match self {
            ProcessStatus::NotStarted => false,
            ProcessStatus::Stopped => false,
            ProcessStatus::WaitingForUpstream => false,
            ProcessStatus::FailedToStart => false,
            ProcessStatus::Running => true,
            ProcessStatus::Success(_) => true,
            ProcessStatus::Errors { .. } => true,
            ProcessStatus::Exited { .. } => false,
            ProcessStatus::Restarting => false,
            ProcessStatus::Stopping => false,
            ProcessStatus::Terminating => false,
        }
    }
}

} // verus!
