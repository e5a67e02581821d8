//! One running child of a process: how it is started and how it is killed.
//!
//! The child itself, its pseudo-terminal and the thread that reads it belong
//! to the host. What is decided here is the command line to run, the signal
//! to send, and whether the second, forceful signal is due.

use vstd::prelude::*;
use vstd::string::StringExecFns;
use crate::config::{opt_text, texts, ProcessConfig};
use crate::statuses::ProcessInstanceId;

verus! {

/// The size of a pseudo-terminal, in cells and in pixels.
#[derive(Clone, Copy, PartialEq, Eq, Structural, Debug)]
pub struct PtySize {
    pub rows: u16,
    pub cols: u16,
    pub pixel_width: u16,
    pub pixel_height: u16,
}

/// Why a process instance could not be started. The texts say what the
/// host was told when it tried.
#[derive(Clone, Debug, PartialEq, Eq)]
pub enum ProcessError {
    SpawnCommandFailed(String),
    ProcessConfigMissingCommand,
    GetCurrentDirFailed(String),
}

impl ProcessError {
    /// The error as it is shown in the process pane: the name of the case
    /// and, in brackets, what the host was told.
    pub open spec fn spec_describe(&self) -> Seq<char> {
        match self {
            ProcessError::SpawnCommandFailed(detail) => "SpawnCommandFailed("@ + detail@ + ")"@,
            ProcessError::ProcessConfigMissingCommand => "ProcessConfigMissingCommand"@,
            ProcessError::GetCurrentDirFailed(detail) => "GetCurrentDirFailed("@ + detail@ + ")"@,
        }
    }

    /// The error as it is shown in the process pane.
    pub fn describe(&self) -> (text: String)
        ensures
            text@ == self.spec_describe(),
    {
        match self {
            ProcessError::SpawnCommandFailed(detail) => {
                let mut text = String::from_str("SpawnCommandFailed(");
                text.append(detail.as_str());
                text.append(")");
                text
            },
            ProcessError::ProcessConfigMissingCommand => String::from_str(
                "ProcessConfigMissingCommand",
            ),
            ProcessError::GetCurrentDirFailed(detail) => {
                let mut text = String::from_str("GetCurrentDirFailed(");
                text.append(detail.as_str());
                text.append(")");
                text
            },
        }
    }
}

/// What to run for a process: the executable, its arguments, and where to
/// run it.
#[derive(Clone, Debug, PartialEq, Eq)]
pub struct PtyCommand {
    pub executable: String,
    pub args: Vec<String>,
    /// The directory that the supervisor runs in.
    pub current_dir: String,
    /// The directory to run the process in, as seen from `current_dir`.
    /// Without one the process runs in `current_dir` itself.
    pub working_directory: Option<String>,
}

/// The operating systems whose ways of ending a process differ.
#[derive(Clone, Copy, PartialEq, Eq, Structural, Debug)]
pub enum Platform {
    Posix,
    Windows,
}

/// How a process is asked to end.
#[derive(Clone, Copy, PartialEq, Eq, Structural, Debug)]
pub enum Signal {
    /// A request that the process may handle: SIGTERM.
    Terminate,
    /// An end that the process cannot refuse: SIGKILL, or the termination
    /// of the process where there are no signals.
    Kill,
}

/// A signal for the host to send.
#[derive(Clone, Copy, PartialEq, Eq, Structural, Debug)]
pub struct SignalRequest {
    pub process_id: u32,
    pub signal: Signal,
}

/// How long an instance has to end after the first signal, in seconds.
pub const KILL_GRACE_SECONDS: u64 = 5;

/// The gentle request to end a process, as the platform has it.
pub open spec fn spec_kill_sigterm(platform: Platform, process_id: u32) -> SignalRequest {
    SignalRequest {
        process_id,
        signal: match platform {
            Platform::Posix => Signal::Terminate,
            Platform::Windows => Signal::Kill,
        },
    }
}

/// The forceful request to end a process.
pub open spec fn spec_kill_sigkill(process_id: u32) -> SignalRequest {
    SignalRequest { process_id, signal: Signal::Kill }
}

/// The gentle way to end a process. Where the platform has none, the
/// forceful one takes its place.
pub fn kill_sigterm(platform: Platform, process_id: u32) -> (request: SignalRequest)
    ensures
        request == spec_kill_sigterm(platform, process_id),
{
    match platform {
        Platform::Posix => SignalRequest { process_id, signal: Signal::Terminate },
        Platform::Windows => kill_sigkill(process_id),
    }
}

/// The forceful way to end a process.
pub fn kill_sigkill(process_id: u32) -> (request: SignalRequest)
    ensures
        request == spec_kill_sigkill(process_id),
{
    SignalRequest { process_id, signal: Signal::Kill }
}

/// One started child: its number among the instances of its process, and
/// the operating system's number for it.
#[derive(Clone, Copy, PartialEq, Eq, Structural, Debug)]
pub struct ProcessInstance {
    pub id: ProcessInstanceId,
    pub process_id: u32,
}

impl ProcessInstance {
    /// Whether `command` is the command line of `process_config`, where
    /// `current_dir` is what looking up the supervisor's directory gave:
    /// the directory, or what was told of the failure. A process without a
    /// command has no command line, whatever the lookup gave; with a
    /// command, a failed lookup is the error.
    pub open spec fn spec_process_config_to_pty_command(
        process_config: &ProcessConfig,
        current_dir: Result<String, String>,
        command: Result<PtyCommand, ProcessError>,
    ) -> bool {
        if process_config.command@.len() == 0 {
            command matches Err(ProcessError::ProcessConfigMissingCommand)
        } else {
            match current_dir {
                Err(detail) => command == Err::<PtyCommand, ProcessError>(
                    ProcessError::GetCurrentDirFailed(detail),
                ),
                Ok(directory) => {
                    &&& command matches Ok(pty_command)
                    &&& pty_command.executable@ == process_config.command@[0]@
                    &&& texts(pty_command.args@) == texts(process_config.command@).skip(1)
                    &&& pty_command.current_dir == directory
                    &&& opt_text(pty_command.working_directory) == opt_text(
                        process_config.working_directory,
                    )
                },
            }
        }
    }

    /// The command line for a process: the first word of its command is
    /// the executable, the others are its arguments, and it runs in its
    /// working directory as seen from the supervisor's directory.
    /// `current_dir` is what looking up the supervisor's directory gave. A
    /// process without a command cannot be started, nor one whose
    /// surroundings are unknown.
    pub fn process_config_to_pty_command(
        process_config: &ProcessConfig,
        current_dir: Result<String, String>,
    ) -> (command: Result<PtyCommand, ProcessError>)
        ensures
            Self::spec_process_config_to_pty_command(process_config, current_dir, command),
    {
        if process_config.command.len() == 0 {
            return Err(ProcessError::ProcessConfigMissingCommand);
        }
        let executable = process_config.command[0].clone();
        let mut args: Vec<String> = Vec::new();
        let mut i: usize = 1;
        while i < process_config.command.len()
            invariant
                1 <= i <= process_config.command.len(),
                args@.len() == i - 1,
                forall|j: int| 0 <= j < args@.len() ==> args@[j]@ == process_config.command@[j + 1]@,
            decreases process_config.command.len() - i,
        {
            args.push(process_config.command[i].clone());
            i += 1;
        }
        let current_dir = match current_dir {
            Ok(directory) => directory,
            Err(detail) => {
                return Err(ProcessError::GetCurrentDirFailed(detail));
            },
        };
        let working_directory = match &process_config.working_directory {
            Some(directory) => Some(directory.clone()),
            None => None,
        };
        assert(texts(args@) =~= texts(process_config.command@).skip(1));
        Ok(PtyCommand { executable, args, current_dir, working_directory })
    }

    /// The signal that ends the instance gently, unless it has ended.
    pub open spec fn spec_kill(&self, platform: Platform, has_terminated: bool) -> Option<
        SignalRequest,
    > {
        if has_terminated {
            None
        } else {
            Some(spec_kill_sigterm(platform, self.process_id))
        }
    }

    /// The signal that ends the instance by force, unless it has ended.
    pub open spec fn spec_kill_after_grace(&self, has_terminated: bool) -> Option<SignalRequest> {
        if has_terminated {
            None
        } else {
            Some(spec_kill_sigkill(self.process_id))
        }
    }

    /// The first step of ending the instance: nothing where it is known to
    /// have ended, else the gentle signal. The host sends the signal and
    /// comes back with `kill_after_grace` once `KILL_GRACE_SECONDS` have
    /// passed.
    pub fn kill(&self, platform: Platform, has_terminated: bool) -> (request: Option<SignalRequest>)
        ensures
            request == self.spec_kill(platform, has_terminated),
    {
        if has_terminated {
            return None;
        }
        Some(kill_sigterm(platform, self.process_id))
    }

    /// The second step, when the time to end has run out: nothing where the
    /// instance has ended meanwhile, else the forceful signal.
    pub fn kill_after_grace(&self, has_terminated: bool) -> (request: Option<SignalRequest>)
        ensures
            request == self.spec_kill_after_grace(has_terminated),
    {
        if has_terminated {
            return None;
        }
        Some(kill_sigkill(self.process_id))
    }

    /// Whoever asks an instance that has not ended to end is told to send
    /// the gentle signal; and when the time to end has run out, either the
    /// instance has ended or the forceful signal is due.
    pub proof fn lemma_kill_escalates(
        self,
        platform: Platform,
        terminated_at_kill: bool,
        terminated_at_deadline: bool,
    )
        requires
            !terminated_at_kill,
        ensures
            self.spec_kill(platform, terminated_at_kill) == Some(
                spec_kill_sigterm(platform, self.process_id),
            ),
            terminated_at_deadline || self.spec_kill_after_grace(terminated_at_deadline) == Some(
                SignalRequest { process_id: self.process_id, signal: Signal::Kill },
            ),
    {
    }
}

} // verus!
