//! The supervisor: every process, the focus, the mode and the snapshot.

use vstd::prelude::*;
use crate::config::ProcessConfig;
use crate::controls::{KeyEvent, MintakaInputEvent};
use crate::instances::{ProcessError, ProcessInstance, PtySize};
use crate::processes::{
    spec_shows, spec_state_after, DownstreamAction, DownstreamProcesses, MintakaMode, Process,
    ProcessInstanceState, ProcessView, ScreenContents, StateOnTermination,
};
use crate::scroll::ScrollDirection;
use crate::snapshots::{ProcessSnapshot, Screen};
use crate::statuses::{ProcessInstanceId, ProcessStatus};

verus! {

/// What the host has to do to the children of the processes.
#[derive(Clone, Copy, PartialEq, Eq, Structural, Debug)]
pub enum ProcessCommand {
    /// Start an instance of a process and report how it went.
    Start { process_index: usize, instance_id: ProcessInstanceId, pty_size: PtySize },
    /// Ask an instance to end.
    Kill { process_index: usize, instance: ProcessInstance },
    /// Give the terminal of an instance a new size.
    Resize { process_index: usize, instance: ProcessInstance, pty_size: PtySize },
    /// Forward a key press to an instance.
    SendInput { process_index: usize, instance: ProcessInstance, input: KeyEvent },
}

/// The statuses that process `i` reported, where `received` has any for it.
pub open spec fn spec_received(received: Seq<Vec<ProcessStatus>>, i: int) -> Seq<ProcessStatus> {
    if 0 <= i < received.len() {
        received[i]@
    } else {
        Seq::empty()
    }
}

/// The processes once each has taken in what its instance reported.
pub open spec fn spec_synchronized(
    processes: Seq<ProcessView>,
    received: Seq<Vec<ProcessStatus>>,
) -> Seq<ProcessView> {
    Seq::new(
        processes.len(),
        |i: int| processes[i].with_state(processes[i].state.spec_synchronized(spec_received(received, i))),
    )
}

/// The processes and the commands so far, while the dependency tracker
/// goes through its entries.
pub struct Cascade {
    pub processes: Seq<ProcessView>,
    pub after: Seq<DownstreamProcesses>,
    pub commands: Seq<ProcessCommand>,
}

/// The processes and commands after the first `count` of `downstream` have
/// followed `action`, one after the other.
pub open spec fn spec_followed(
    processes: Seq<ProcessView>,
    commands: Seq<ProcessCommand>,
    downstream: Seq<usize>,
    action: DownstreamAction,
    count: nat,
) -> (Seq<ProcessView>, Seq<ProcessCommand>)
    decreases count,
{
    if count == 0 {
        (processes, commands)
    } else {
        let (before, commands) = spec_followed(
            processes,
            commands,
            downstream,
            action,
            (count - 1) as nat,
        );
        let index = downstream[count - 1];
        if index < before.len() {
            (
                before.update(
                    index as int,
                    before[index as int].with_state(
                        before[index as int].state.spec_killed(spec_state_after(action)),
                    ),
                ),
                match Process::spec_kill_target(before[index as int].state) {
                    Some(instance) => commands.push(
                        ProcessCommand::Kill { process_index: index, instance },
                    ),
                    None => commands,
                },
            )
        } else {
            (before, commands)
        }
    }
}

/// The outcome of the tracker's first `count` entries, taken in order.
/// Each entry looks at the status that its upstream process has by then,
/// compares it with the last one it acted upon, lets its downstream
/// processes follow, and remembers the status.
pub open spec fn spec_cascade(start: Cascade, count: nat) -> Cascade
    decreases count,
{
    if count == 0 {
        start
    } else {
        let before = spec_cascade(start, (count - 1) as nat);
        let entry = before.after[count - 1];
        if entry.upstream_process_index < before.processes.len() {
            let status = before.processes[entry.upstream_process_index as int].status();
            let after = before.after.update(
                count - 1,
                DownstreamProcesses { last_upstream_status: status, ..entry },
            );
            match DownstreamProcesses::spec_action(entry.last_upstream_status, status) {
                None => Cascade { after, ..before },
                Some(action) => {
                    let (processes, commands) = spec_followed(
                        before.processes,
                        before.commands,
                        entry.downstream_process_indexes@,
                        action,
                        entry.downstream_process_indexes@.len(),
                    );
                    Cascade { processes, after, commands }
                },
            }
        } else {
            before
        }
    }
}

/// The requests to start an instance, for those of the first `count`
/// processes that are pending.
pub open spec fn spec_start_requests(processes: Seq<ProcessView>, count: nat) -> Seq<ProcessCommand>
    decreases count,
{
    if count == 0 {
        Seq::empty()
    } else {
        let before = spec_start_requests(processes, (count - 1) as nat);
        let process = processes[count - 1];
        if process.state is PendingRestart {
            before.push(
                ProcessCommand::Start {
                    process_index: (count - 1) as usize,
                    instance_id: process.next_process_instance_id,
                    pty_size: process.pty_size,
                },
            )
        } else {
            before
        }
    }
}

/// The first of the first `count` processes whose status is a failure.
pub open spec fn spec_first_failure(processes: Seq<ProcessView>, count: nat) -> Option<nat>
    decreases count,
{
    if count == 0 {
        None
    } else {
        match spec_first_failure(processes, (count - 1) as nat) {
            Some(index) => Some(index),
            None => if processes[count - 1].status().is_failure() {
                Some((count - 1) as nat)
            } else {
                None
            },
        }
    }
}

/// What `spec_first_failure` finds is a failing process with none before
/// it, and it finds one wherever there is one.
pub proof fn lemma_first_failure(processes: Seq<ProcessView>, count: nat)
    requires
        count <= processes.len(),
    ensures
        match spec_first_failure(processes, count) {
            Some(index) => {
                &&& index < count
                &&& processes[index as int].status().is_failure()
                &&& forall|i: int| 0 <= i < index ==> !(#[trigger] processes[i]).status().is_failure()
            },
            None => forall|i: int| 0 <= i < count ==> !(#[trigger] processes[i]).status().is_failure(),
        },
    decreases count,
{
    if count > 0 {
        lemma_first_failure(processes, (count - 1) as nat);
    }
}

/// The supervisor as contracts speak of it.
pub struct ProcessesView<L> {
    /// Whether the user has enabled autofocus.
    pub autofocus_enabled: bool,
    pub mode: MintakaMode,
    pub snapshot: Option<ProcessSnapshot<L>>,
    pub pty_size: PtySize,
    pub processes: Seq<ProcessView>,
    pub focused_process_index: nat,
    pub after: Seq<DownstreamProcesses>,
}

impl<L> ProcessesView<L> {
    /// What holds of every supervisor at all times: there is a process,
    /// the focus is on one of them, and the history mode has a snapshot to
    /// show.
    pub open spec fn wf(self) -> bool {
        &&& self.processes.len() > 0
        &&& self.focused_process_index < self.processes.len()
        &&& self.mode is History ==> self.snapshot is Some
    }

    /// Whether autofocus should currently be used.
    pub open spec fn should_autofocus(self) -> bool {
        self.mode is Main && self.autofocus_enabled
    }

    /// Where the focus is after the autofocus rule has been applied: on
    /// the first failing process where the rule is in force and a process
    /// fails, else where it was.
    pub open spec fn autofocused(self) -> ProcessesView<L> {
        if self.should_autofocus() {
            match spec_first_failure(self.processes, self.processes.len()) {
                Some(index) => ProcessesView { focused_process_index: index, ..self },
                None => self,
            }
        } else {
            self
        }
    }

    /// The process that has the focus.
    pub open spec fn focused(self) -> ProcessView {
        self.processes[self.focused_process_index as int]
    }

    /// The focus one process up, from the first to the last.
    pub open spec fn focus_up(self) -> nat {
        if self.focused_process_index > 0 {
            (self.focused_process_index - 1) as nat
        } else {
            (self.processes.len() - 1) as nat
        }
    }

    /// The focus one process down, from the last to the first.
    pub open spec fn focus_down(self) -> nat {
        let len = self.processes.len();
        if self.focused_process_index + 1 < len {
            self.focused_process_index + 1
        } else {
            0
        }
    }
}

/// The views of a list of processes.
pub open spec fn spec_views(processes: Seq<Process>) -> Seq<ProcessView> {
    processes.map_values(|process: Process| process@)
}

/// Every process, the focus, the mode and the snapshot.
pub struct Processes<L> {
    autofocus_enabled: bool,
    mode: MintakaMode,
    snapshot: Option<ProcessSnapshot<L>>,
    pty_size: PtySize,
    processes: Vec<Process>,
    focused_process_index: usize,
    after: Vec<DownstreamProcesses>,
}

impl<L> View for Processes<L> {
    type V = ProcessesView<L>;

    closed spec fn view(&self) -> ProcessesView<L> {
        ProcessesView {
            autofocus_enabled: self.autofocus_enabled,
            mode: self.mode,
            snapshot: self.snapshot,
            pty_size: self.pty_size,
            processes: spec_views(self.processes@),
            focused_process_index: self.focused_process_index as nat,
            after: self.after@,
        }
    }
}

impl<L> Processes<L> {
    #[verifier::type_invariant]
    spec fn well_formed(&self) -> bool {
        self@.wf()
    }

    /// Switch autofocus off.
    pub fn disable_autofocus(&mut self)
        ensures
            final(self)@ == (ProcessesView { autofocus_enabled: false, ..old(self)@ }),
    {
        proof {
            use_type_invariant(&*self);
        }
        self.autofocus_enabled = false;
    }

    /// Switch autofocus on if it is off, and off if it is on.
    pub fn toggle_autofocus(&mut self)
        ensures
            final(self)@ == (ProcessesView {
                autofocus_enabled: !old(self)@.autofocus_enabled,
                ..old(self)@
            }),
    {
        proof {
            use_type_invariant(&*self);
        }
        self.autofocus_enabled = !self.autofocus_enabled;
    }

    /// Whether the user has enabled autofocus.
    pub fn autofocus_enabled(&self) -> (enabled: bool)
        ensures
            enabled == self@.autofocus_enabled,
    {
        self.autofocus_enabled
    }

    /// From now on, hand the keys to the focused process.
    pub fn forward_input_to_focused_process(&mut self)
        ensures
            final(self)@ == (ProcessesView {
                mode: MintakaMode::ForwardInputToFocusedProcess,
                ..old(self)@
            }),
    {
        proof {
            use_type_invariant(&*self);
        }
        self.mode = MintakaMode::ForwardInputToFocusedProcess;
    }

    /// Enter the main mode.
    pub fn enter_main_mode(&mut self)
        ensures
            final(self)@ == (ProcessesView { mode: MintakaMode::Main, ..old(self)@ }),
    {
        proof {
            use_type_invariant(&*self);
        }
        self.mode = MintakaMode::Main;
    }

    /// Leave the history: back to the main mode, and the snapshot goes.
    pub fn leave_history(&mut self)
        ensures
            final(self)@ == (ProcessesView {
                mode: MintakaMode::Main,
                snapshot: None,
                ..old(self)@
            }),
    {
        proof {
            use_type_invariant(&*self);
        }
        self.mode = MintakaMode::Main;
        self.snapshot = None;
    }

    /// The mode that the supervisor is in.
    pub fn mode(&self) -> (mode: MintakaMode)
        ensures
            mode == self@.mode,
    {
        self.mode
    }

    /// The index of the process that has the focus. There is always such
    /// a process.
    pub fn focused_process_index(&self) -> (index: usize)
        ensures
            index == self@.focused_process_index,
            index < self@.processes.len(),
            self@.wf(),
    {
        proof {
            use_type_invariant(self);
        }
        self.focused_process_index
    }

    /// Whether autofocus should currently be used.
    fn should_autofocus(&self) -> (autofocus: bool)
        ensures
            autofocus == self@.should_autofocus(),
    {
        match self.mode {
            MintakaMode::Main => self.autofocus_enabled,
            MintakaMode::ForwardInputToFocusedProcess | MintakaMode::History => false,
        }
    }

    /// Whether or not all processes have stopped.
    pub fn is_stopped(&self) -> (stopped: bool)
        ensures
            stopped == (forall|i: int|
                0 <= i < self@.processes.len() ==> (#[trigger] self@.processes[i]).state.spec_is_stopped()),
    {
        let mut i: usize = 0;
        while i < self.processes.len()
            invariant
                i <= self.processes.len(),
                forall|j: int|
                    0 <= j < i ==> (#[trigger] self@.processes[j]).state.spec_is_stopped(),
            decreases self.processes.len() - i,
        {
            if !self.processes[i].is_stopped() {
                assert(!self@.processes[i as int].state.spec_is_stopped());
                return false;
            }
            i += 1;
        }
        true
    }

    /// The snapshot that the history mode shows.
    pub fn snapshot(&self) -> (snapshot: Option<&ProcessSnapshot<L>>)
        ensures
            match snapshot {
                Some(held) => self@.snapshot == Some(*held),
                None => self@.snapshot is None,
            },
    {
        self.snapshot.as_ref()
    }

    /// The size that the terminals of the processes have.
    pub fn pty_size(&self) -> (pty_size: PtySize)
        ensures
            pty_size == self@.pty_size,
    {
        self.pty_size
    }

    /// The dependency tracker: one entry for each process that others run
    /// after.
    pub fn after(&self) -> (after: &[DownstreamProcesses])
        ensures
            after@ == self@.after,
    {
        self.after.as_slice()
    }

    /// The processes, in the order of their indexes.
    pub fn processes(&self) -> (processes: &[Process])
        ensures
            spec_views(processes@) == self@.processes,
    {
        self.processes.as_slice()
    }

    /// Move the focus one process up, from the first to the last.
    pub fn move_focus_up(&mut self)
        ensures
            final(self)@ == (ProcessesView {
                focused_process_index: old(self)@.focus_up(),
                ..old(self)@
            }),
    {
        proof {
            use_type_invariant(&*self);
        }
        if self.focused_process_index > 0 {
            self.focused_process_index -= 1;
        } else {
            self.focused_process_index = self.processes.len() - 1;
        }
    }

    /// Move the focus one process down, from the last to the first.
    pub fn move_focus_down(&mut self)
        ensures
            final(self)@ == (ProcessesView {
                focused_process_index: old(self)@.focus_down(),
                ..old(self)@
            }),
    {
        proof {
            use_type_invariant(&*self);
            assert(self@.processes.len() == self.processes@.len());
        }
        let len = self.processes.len();
        if self.focused_process_index + 1 < len {
            self.focused_process_index += 1;
        } else {
            self.focused_process_index = 0;
        }
    }

    /// Stop every process. Returns, in the order of the processes, the
    /// instances that the host has to kill.
    pub fn stop_all(&mut self) -> (commands: Vec<ProcessCommand>)
        ensures
            final(self)@ == (ProcessesView {
                processes: spec_all_stopped(old(self)@.processes),
                ..old(self)@
            }),
            commands@ == spec_stop_commands(old(self)@.processes, old(self)@.processes.len()),
            final(self)@.processes.len() == old(self)@.processes.len(),
    {
        proof {
            use_type_invariant(&*self);
        }
        let ghost before = self@;
        let mut commands: Vec<ProcessCommand> = Vec::new();
        let n = self.processes.len();
        let mut i: usize = 0;
        while i < n
            invariant
                i <= n,
                n == self.processes@.len(),
                before.wf(),
                before.processes.len() == n,
                self@ == (ProcessesView { processes: self@.processes, ..before }),
                forall|j: int|
                    0 <= j < i ==> #[trigger] self@.processes[j] == spec_all_stopped(
                        before.processes,
                    )[j],
                forall|j: int| i <= j < n ==> #[trigger] self@.processes[j] == before.processes[j],
                commands@ == spec_stop_commands(before.processes, i as nat),
            decreases n - i,
        {
            let ghost views = self@.processes;
            assert(views[i as int] == before.processes[i as int]);
            assert(views[i as int] == self.processes@[i as int]@);
            let killed = self.processes[i].stop();
            proof {
                assert(self@.processes =~= views.update(i as int, self.processes@[i as int]@));
                assert(self@.processes[i as int] == spec_all_stopped(before.processes)[i as int]);
            }
            if let Some(instance) = killed {
                commands.push(ProcessCommand::Kill { process_index: i, instance });
            }
            i += 1;
        }
        proof {
            assert(self@.processes =~= spec_all_stopped(before.processes));
        }
        commands
    }

    /// Take the size of the pane that the terminals are shown in. A size
    /// that differs from the last one goes to every process. Returns, in
    /// the order of the processes, the instances whose terminals the host
    /// has to resize.
    pub fn resize(&mut self, size: (usize, usize)) -> (commands: Vec<ProcessCommand>)
        ensures
            final(self)@ == spec_resized(old(self)@, size),
            commands@ == (if spec_pty_size(old(self)@.pty_size, size) == old(self)@.pty_size {
                Seq::empty()
            } else {
                spec_resize_commands(
                    old(self)@.processes,
                    spec_pty_size(old(self)@.pty_size, size),
                    old(self)@.processes.len(),
                )
            }),
            final(self)@.processes.len() == old(self)@.processes.len(),
    {
        proof {
            use_type_invariant(&*self);
        }
        let ghost before = self@;
        let pty_size = PtySize {
            cols: #[verifier::truncate]
            (size.0 as u16),
            rows: #[verifier::truncate]
            (size.1 as u16),
            ..self.pty_size
        };
        let mut commands: Vec<ProcessCommand> = Vec::new();
        if self.pty_size != pty_size {
            self.pty_size = pty_size;
            let n = self.processes.len();
            let mut i: usize = 0;
            while i < n
                invariant
                    i <= n,
                    n == self.processes@.len(),
                    before.wf(),
                    before.processes.len() == n,
                    self@ == (ProcessesView { processes: self@.processes, pty_size, ..before }),
                    forall|j: int|
                        0 <= j < i ==> #[trigger] self@.processes[j] == (ProcessView {
                            pty_size,
                            ..before.processes[j]
                        }),
                    forall|j: int|
                        i <= j < n ==> #[trigger] self@.processes[j] == before.processes[j],
                    commands@ == spec_resize_commands(before.processes, pty_size, i as nat),
                decreases n - i,
            {
                let ghost views = self@.processes;
                assert(views[i as int] == before.processes[i as int]);
                assert(views[i as int] == self.processes@[i as int]@);
                let resized = self.processes[i].resize(pty_size);
                proof {
                    assert(self@.processes =~= views.update(i as int, self.processes@[i as int]@));
                }
                if let Some(instance) = resized {
                    commands.push(ProcessCommand::Resize { process_index: i, instance, pty_size });
                }
                i += 1;
            }
            proof {
                assert(self@.processes =~= spec_resized(before, size).processes);
            }
        }
        commands
    }

    /// Restart the process that has the focus. Returns the instance that
    /// the host has to kill.
    pub fn restart_focused(&mut self) -> (command: Option<ProcessCommand>)
        ensures
            final(self)@ == (ProcessesView {
                processes: old(self)@.processes.update(
                    old(self)@.focused_process_index as int,
                    old(self)@.focused().with_state(
                        old(self)@.focused().state.spec_redirected(
                            StateOnTermination::PendingRestart,
                        ),
                    ),
                ),
                ..old(self)@
            }),
            command == (match old(self)@.focused().state.spec_instance() {
                Some(instance) => Some(
                    ProcessCommand::Kill {
                        process_index: old(self)@.focused_process_index as usize,
                        instance,
                    },
                ),
                None => None,
            }),
            final(self)@.processes.len() == old(self)@.processes.len(),
    {
        proof {
            use_type_invariant(&*self);
        }
        let ghost views = self@.processes;
        let process_index = self.focused_process_index;
        assert(views[process_index as int] == self.processes@[process_index as int]@);
        let killed = self.processes[process_index].restart();
        proof {
            assert(self@.processes =~= views.update(
                process_index as int,
                self.processes@[process_index as int]@,
            ));
        }
        match killed {
            Some(instance) => Some(ProcessCommand::Kill { process_index, instance }),
            None => None,
        }
    }

    /// Forward a key press to the process that has the focus. Returns the
    /// instance that the host has to hand it to.
    pub fn send_input(&self, input: KeyEvent) -> (command: Option<ProcessCommand>)
        ensures
            command == (match self@.focused().state.spec_instance() {
                Some(instance) => Some(
                    ProcessCommand::SendInput {
                        process_index: self@.focused_process_index as usize,
                        instance,
                        input,
                    },
                ),
                None => None,
            }),
    {
        proof {
            use_type_invariant(self);
        }
        let process_index = self.focused_process_index;
        assert(self@.processes[process_index as int] == self.processes@[process_index as int]@);
        match self.processes[process_index].send_input() {
            Some(instance) => Some(ProcessCommand::SendInput { process_index, instance, input }),
            None => None,
        }
    }

    /// The instance whose screen a snapshot is to be taken of before the
    /// next scroll: that of the focused process, where no snapshot is held.
    pub fn snapshot_source(&self) -> (source: Option<ProcessInstance>)
        ensures
            source == (if self@.snapshot is None {
                self@.focused().state.spec_instance()
            } else {
                None
            }),
    {
        proof {
            use_type_invariant(self);
        }
        let process_index = self.focused_process_index;
        assert(self@.processes[process_index as int] == self.processes@[process_index as int]@);
        if self.snapshot.is_none() {
            self.processes[process_index].instance()
        } else {
            None
        }
    }

    /// Scroll through the history of the focused process. The first scroll
    /// enters the history mode and takes a snapshot, given the screen of
    /// the focused process's terminal; later ones move within it.
    pub fn scroll(&mut self, direction: ScrollDirection, screen: Option<Screen<L>>)
        ensures
            spec_scrolled(old(self)@, direction, screen, final(self)@),
    {
        proof {
            use_type_invariant(&*self);
        }
        let process_index = self.focused_process_index;
        assert(self@.processes[process_index as int] == self.processes@[process_index as int]@);
        if self.snapshot.is_none() {
            self.snapshot = Some(self.processes[process_index].snapshot(screen));
        }
        self.mode = MintakaMode::History;
        scroll_held(&mut self.snapshot, direction);
    }

    /// What the process pane shows, given the lines and the cursor of the
    /// focused process's terminal: in the main mode its lines without a
    /// cursor, while input is forwarded its lines and its cursor, and in
    /// the history mode the lines of the snapshot.
    pub fn screen_contents<'a, C>(&'a self, live_lines: &'a [L], live_cursor: Option<C>) -> (contents:
        ScreenContents<'a, L, C>)
        ensures
            spec_screen_contents(self@, live_lines@, live_cursor, contents),
    {
        proof {
            use_type_invariant(self);
        }
        let process_index = self.focused_process_index;
        assert(self@.processes[process_index as int] == self.processes@[process_index as int]@);
        match self.mode {
            MintakaMode::Main => {
                let process = &self.processes[process_index];
                process.screen_contents(live_lines, live_cursor).without_cursor()
            },
            MintakaMode::ForwardInputToFocusedProcess => {
                let process = &self.processes[process_index];
                process.screen_contents(live_lines, live_cursor)
            },
            MintakaMode::History => {
                let lines: &[L] = match &self.snapshot {
                    Some(snapshot) => snapshot.lines(),
                    None => {
                        let nothing: &[L] = &[];
                        nothing
                    },
                };
                ScreenContents::Terminal { lines, cursor_position: None }
            },
        }
    }

    /// Move the focus to the first failing process, where autofocus is in
    /// force and a process fails.
    fn autofocus(&mut self)
        ensures
            final(self)@ == old(self)@.autofocused(),
    {
        proof {
            use_type_invariant(&*self);
        }
        if self.should_autofocus() {
            let n = self.processes.len();
            let mut i: usize = 0;
            while i < n
                invariant
                    i <= n,
                    n == self.processes@.len(),
                    n == self@.processes.len(),
                    forall|j: int|
                        0 <= j < i ==> !(#[trigger] self@.processes[j]).status().is_failure(),
                    self@ == old(self)@,
                    self@.wf(),
                    self@.should_autofocus(),
                decreases n - i,
            {
                assert(self@.processes[i as int] == self.processes@[i as int]@);
                if self.processes[i].status().is_failure() {
                    proof {
                        lemma_first_failure(self@.processes, n as nat);
                        assert(self@.processes[i as int].status().is_failure());
                        match spec_first_failure(self@.processes, n as nat) {
                            Some(index) => {
                                assert(index < i ==> !self@.processes[index as int].status().is_failure());
                                assert(index == i);
                            },
                            None => {
                                assert(false);
                            },
                        }
                    }
                    self.focused_process_index = i;
                    return ;
                }
                i += 1;
            }
            proof {
                lemma_first_failure(self@.processes, n as nat);
            }
        }
    }

    /// Take in what the instances reported, and let the processes that
    /// run after others follow the changes.
    fn handle_status_updates(&mut self, received: &Vec<Vec<ProcessStatus>>) -> (commands: Vec<
        ProcessCommand,
    >)
        ensures
            final(self)@ == (ProcessesView {
                processes: spec_status_updates(old(self)@, received@).processes,
                after: spec_status_updates(old(self)@, received@).after,
                ..old(self)@
            }),
            commands@ == spec_status_updates(old(self)@, received@).commands,
            final(self)@.processes.len() == old(self)@.processes.len(),
    {
        proof {
            use_type_invariant(&*self);
        }
        let ghost before = self@;
        let n = self.processes.len();
        let mut i: usize = 0;
        while i < n
            invariant
                i <= n,
                n == self.processes@.len(),
                before.wf(),
                before.processes.len() == n,
                self@ == (ProcessesView { processes: self@.processes, ..before }),
                forall|j: int|
                    0 <= j < i ==> #[trigger] self@.processes[j] == spec_synchronized(
                        before.processes,
                        received@,
                    )[j],
                forall|j: int| i <= j < n ==> #[trigger] self@.processes[j] == before.processes[j],
            decreases n - i,
        {
            let ghost views = self@.processes;
            assert(views[i as int] == before.processes[i as int]);
            assert(views[i as int] == self.processes@[i as int]@);
            if i < received.len() {
                self.processes[i].synchronize_status(&received[i]);
            } else {
                let nothing: Vec<ProcessStatus> = Vec::new();
                self.processes[i].synchronize_status(&nothing);
            }
            proof {
                assert(self@.processes =~= views.update(i as int, self.processes@[i as int]@));
            }
            i += 1;
        }
        let ghost start = Cascade {
            processes: spec_synchronized(before.processes, received@),
            after: before.after,
            commands: Seq::empty(),
        };
        proof {
            assert(self@.processes =~= start.processes);
        }
        let mut commands: Vec<ProcessCommand> = Vec::new();
        let entries = self.after.len();
        let mut k: usize = 0;
        while k < entries
            invariant
                k <= entries,
                entries == self.after@.len(),
                n == self.processes@.len(),
                n == self@.processes.len(),
                before.wf(),
                before.processes.len() == n,
                before.after.len() == entries,
                self@ == (ProcessesView {
                    processes: self@.processes,
                    after: self@.after,
                    ..before
                }),
                (Cascade { processes: self@.processes, after: self@.after, commands: commands@ })
                    == spec_cascade(start, k as nat),
            decreases entries - k,
        {
            let ghost entry = self@.after[k as int];
            let ghost views = self@.processes;
            let ghost entries_before = self@.after;
            let ghost commands_before = commands@;
            let upstream_process_index = self.after[k].upstream_process_index;
            if upstream_process_index >= n {
                k += 1;
                continue ;
            }
            assert(views[upstream_process_index as int]
                == self.processes@[upstream_process_index as int]@);
            let status = self.processes[upstream_process_index].status();
            let downstream_action = self.after[k].update_upstream_status(status);
            proof {
                assert(self@.after =~= entries_before.update(
                    k as int,
                    DownstreamProcesses { last_upstream_status: status, ..entry },
                ));
            }
            if let Some(action) = downstream_action {
                let count = self.after[k].downstream_process_indexes.len();
                let ghost downstream = entry.downstream_process_indexes@;
                let ghost entries_now = self@.after;
                let mut j: usize = 0;
                while j < count
                    invariant
                        j <= count,
                        k < entries,
                        entries == self.after@.len(),
                        n == self.processes@.len(),
                        n == self@.processes.len(),
                        before.wf(),
                        before.processes.len() == n,
                        before.after.len() == entries,
                        self@ == (ProcessesView {
                            processes: self@.processes,
                            after: entries_now,
                            ..before
                        }),
                        downstream == entries_now[k as int].downstream_process_indexes@,
                        count == downstream.len(),
                        views.len() == n,
                        (self@.processes, commands@) == spec_followed(
                            views,
                            commands_before,
                            downstream,
                            action,
                            j as nat,
                        ),
                    decreases count - j,
                {
                    let ghost current = self@.processes;
                    let downstream_process_index = self.after[k].downstream_process_indexes[j];
                    if downstream_process_index >= n {
                        j += 1;
                        continue ;
                    }
                    assert(current[downstream_process_index as int]
                        == self.processes@[downstream_process_index as int]@);
                    let killed = self.processes[downstream_process_index].follow_upstream(action);
                    proof {
                        assert(self@.processes =~= current.update(
                            downstream_process_index as int,
                            self.processes@[downstream_process_index as int]@,
                        ));
                    }
                    if let Some(instance) = killed {
                        commands.push(
                            ProcessCommand::Kill {
                                process_index: downstream_process_index,
                                instance,
                            },
                        );
                    }
                    j += 1;
                }
            }
            k += 1;
        }
        commands
    }

    /// One tick of the supervisor. Every process takes in what its
    /// instance reported since the last tick (`received[i]` holds the
    /// reports for process `i`, oldest first); the processes that run
    /// after others follow; and the focus moves to the first failing
    /// process where autofocus is in force. Returns what the host has to
    /// do: the instances to kill, then the processes to start. The host
    /// answers each request to start with `complete_start`.
    pub fn do_work(&mut self, received: &Vec<Vec<ProcessStatus>>) -> (commands: Vec<ProcessCommand>)
        ensures
            final(self)@ == spec_do_work(old(self)@, received@),
            commands@ == spec_status_updates(old(self)@, received@).commands
                + spec_start_requests(final(self)@.processes, final(self)@.processes.len()),
            final(self)@.processes.len() == old(self)@.processes.len(),
            final(self)@.wf(),
    {
        let mut commands = self.handle_status_updates(received);
        proof {
            use_type_invariant(&*self);
        }
        let ghost killed = commands@;
        let n = self.processes.len();
        let mut i: usize = 0;
        while i < n
            invariant
                i <= n,
                n == self.processes@.len(),
                n == self@.processes.len(),
                commands@ == killed + spec_start_requests(self@.processes, i as nat),
            decreases n - i,
        {
            assert(self@.processes[i as int] == self.processes@[i as int]@);
            if let Some(instance_id) = self.processes[i].do_work() {
                let pty_size = self.processes[i].pty_size();
                commands.push(ProcessCommand::Start { process_index: i, instance_id, pty_size });
            }
            proof {
                assert(commands@ =~= killed + spec_start_requests(self@.processes, (i + 1) as nat));
            }
            i += 1;
        }
        self.autofocus();
        proof {
            use_type_invariant(&*self);
        }
        commands
    }

    /// Take in how a request to start went: `Ok` with the operating
    /// system's number of the child, or the reason why there is none. The
    /// answer is taken where the process is still pending, and then the
    /// focus moves to the first failing process where autofocus is in
    /// force. Returns whether the answer was taken.
    pub fn complete_start(&mut self, process_index: usize, spawned: Result<u32, ProcessError>) -> (taken:
        bool)
        requires
            process_index < old(self)@.processes.len() ==> old(self)@.processes[process_index as int].next_process_instance_id@
                < u32::MAX,
        ensures
            taken == spec_awaits_start(old(self)@, process_index),
            final(self)@ == (if taken {
                spec_start_completed(old(self)@, process_index, spawned)
            } else {
                old(self)@
            }),
            final(self)@.processes.len() == old(self)@.processes.len(),
            final(self)@.wf(),
    {
        proof {
            use_type_invariant(&*self);
        }
        if process_index >= self.processes.len() {
            return false;
        }
        let ghost views = self@.processes;
        assert(views[process_index as int] == self.processes@[process_index as int]@);
        if self.processes[process_index].do_work().is_none() {
            return false;
        }
        self.processes[process_index].start(spawned);
        proof {
            assert(self@.processes =~= views.update(
                process_index as int,
                self.processes@[process_index as int]@,
            ));
        }
        self.autofocus();
        proof {
            use_type_invariant(&*self);
        }
        true
    }
}

/// The processes, the tracker and the commands once the reports in
/// `received` have been taken in and followed.
pub open spec fn spec_status_updates<L>(
    view: ProcessesView<L>,
    received: Seq<Vec<ProcessStatus>>,
) -> Cascade {
    spec_cascade(
        Cascade {
            processes: spec_synchronized(view.processes, received),
            after: view.after,
            commands: Seq::empty(),
        },
        view.after.len(),
    )
}

/// The supervisor after one tick.
pub open spec fn spec_do_work<L>(
    view: ProcessesView<L>,
    received: Seq<Vec<ProcessStatus>>,
) -> ProcessesView<L> {
    let updated = spec_status_updates(view, received);
    (ProcessesView { processes: updated.processes, after: updated.after, ..view }).autofocused()
}

/// Whether process `process_index` exists and is waiting to be started.
pub open spec fn spec_awaits_start<L>(view: ProcessesView<L>, process_index: usize) -> bool {
    process_index < view.processes.len() && view.processes[process_index as int].state is PendingRestart
}

/// The supervisor once the attempt to start process `process_index` has
/// been taken in.
pub open spec fn spec_start_completed<L>(
    view: ProcessesView<L>,
    process_index: usize,
    spawned: Result<u32, ProcessError>,
) -> ProcessesView<L> {
    (ProcessesView {
        processes: view.processes.update(
            process_index as int,
            view.processes[process_index as int].started(spawned),
        ),
        ..view
    }).autofocused()
}

impl<L> Processes<L> {
    /// A supervisor for the processes of a configuration, in its order.
    /// Each process gets a terminal of 80 columns and 24 rows; the focus
    /// is on the first process, in the main mode, with autofocus on.
    pub fn new(process_configs: Vec<ProcessConfig>) -> (processes: Self)
        requires
            process_configs@.len() > 0,
        ensures
            processes@.wf(),
            processes@.autofocus_enabled,
            processes@.mode is Main,
            processes@.snapshot is None,
            processes@.pty_size == spec_initial_pty_size(),
            processes@.focused_process_index == 0,
            processes@.processes.len() == process_configs@.len(),
            forall|i: int|
                0 <= i < process_configs@.len() ==> spec_is_new_process(
                    #[trigger] processes@.processes[i],
                    process_configs@[i],
                ),
            spec_is_dependency_table(processes@.after, process_configs@),
    {
        let pty_size = PtySize { rows: 24, cols: 80, pixel_width: 0, pixel_height: 0 };
        let ghost configs = process_configs@;
        let n = process_configs.len();
        let mut names: Vec<String> = Vec::new();
        let mut i: usize = 0;
        while i < n
            invariant
                i <= n,
                n == process_configs@.len(),
                configs == process_configs@,
                names@.len() == i,
                forall|j: int| 0 <= j < i ==> (#[trigger] names@[j])@ == configs[j].spec_name(),
            decreases n - i,
        {
            names.push(process_configs[i].name());
            i += 1;
        }
        proof {
            assert(crate::config::texts(names@) =~= spec_names(configs));
        }
        let mut upstream: Vec<Option<usize>> = Vec::new();
        let mut d: usize = 0;
        while d < n
            invariant
                d <= n,
                n == process_configs@.len(),
                configs == process_configs@,
                names@.len() == n,
                crate::config::texts(names@) == spec_names(configs),
                upstream@.len() == d,
                forall|j: int|
                    0 <= j < d ==> spec_same_index(#[trigger] upstream@[j], spec_upstream(configs, j)),
            decreases n - d,
        {
            let found = match &process_configs[d].after {
                Some(name) => resolve(&names, name),
                None => None,
            };
            upstream.push(found);
            d += 1;
        }
        let mut after: Vec<DownstreamProcesses> = Vec::new();
        let mut u: usize = 0;
        while u < n
            invariant
                u <= n,
                n == configs.len(),
                upstream@.len() == n,
                forall|j: int|
                    0 <= j < n ==> spec_same_index(#[trigger] upstream@[j], spec_upstream(configs, j)),
                after@.len() == spec_upstreams(configs, u as nat).len(),
                forall|k: int|
                    0 <= k < after@.len() ==> spec_is_entry(
                        #[trigger] after@[k],
                        configs,
                        spec_upstreams(configs, u as nat)[k],
                    ),
            decreases n - u,
        {
            let mut downstream_process_indexes: Vec<usize> = Vec::new();
            let mut d: usize = 0;
            while d < n
                invariant
                    d <= n,
                    u < n,
                    n == configs.len(),
                    upstream@.len() == n,
                    forall|j: int|
                        0 <= j < n ==> spec_same_index(
                            #[trigger] upstream@[j],
                            spec_upstream(configs, j),
                        ),
                    downstream_process_indexes@ == spec_downstream(configs, u as int, d as nat),
                decreases n - d,
            {
                let follows = match upstream[d] {
                    Some(index) => index == u,
                    None => false,
                };
                assert(spec_same_index(upstream@[d as int], spec_upstream(configs, d as int)));
                if follows {
                    downstream_process_indexes.push(d);
                }
                d += 1;
            }
            let ghost entries = after@;
            if downstream_process_indexes.len() > 0 {
                after.push(
                    DownstreamProcesses {
                        upstream_process_index: u,
                        downstream_process_indexes,
                        last_upstream_status: ProcessStatus::NotStarted,
                    },
                );
            }
            proof {
                let before = spec_upstreams(configs, u as nat);
                let now = spec_upstreams(configs, (u + 1) as nat);
                assert forall|k: int| 0 <= k < after@.len() implies spec_is_entry(
                    #[trigger] after@[k],
                    configs,
                    now[k],
                ) by {
                    if k < entries.len() {
                        assert(after@[k] == entries[k]);
                        assert(now[k] == before[k]);
                    }
                }
            }
            u += 1;
        }
        let mut processes: Vec<Process> = Vec::new();
        for process_config in it: process_configs
            invariant
                it.seq() == configs,
                pty_size == spec_initial_pty_size(),
                processes@.len() == it.index(),
                forall|j: int|
                    0 <= j < processes@.len() ==> spec_is_new_process(
                        (#[trigger] processes@[j])@,
                        configs[j],
                    ),
        {
            let process = Process::new(process_config, pty_size);
            processes.push(process);
        }
        let supervisor = Self {
            autofocus_enabled: true,
            mode: MintakaMode::Main,
            snapshot: None,
            pty_size,
            processes,
            focused_process_index: 0,
            after,
        };
        proof {
            assert(supervisor@.processes.len() == configs.len());
            assert forall|i: int| 0 <= i < configs.len() implies spec_is_new_process(
                #[trigger] supervisor@.processes[i],
                configs[i],
            ) by {
                assert(supervisor@.processes[i] == supervisor.processes@[i]@);
            }
        }
        supervisor
    }
}

/// The size that every terminal starts with.
pub open spec fn spec_initial_pty_size() -> PtySize {
    PtySize { rows: 24, cols: 80, pixel_width: 0, pixel_height: 0 }
}

/// Whether `process` is the process that `process_config` describes,
/// before anything has happened to it.
pub open spec fn spec_is_new_process(process: ProcessView, process_config: ProcessConfig) -> bool {
    &&& process.name == process_config.spec_name()
    &&& process.process_config == process_config
    &&& process.pty_size == spec_initial_pty_size()
    &&& process.next_process_instance_id@ == 0
    &&& process.state == (if process_config.spec_autostart() {
        ProcessInstanceState::PendingRestart
    } else {
        ProcessInstanceState::NotStarted
    })
}

/// The names of the processes of a configuration.
pub open spec fn spec_names(configs: Seq<ProcessConfig>) -> Seq<Seq<char>> {
    configs.map_values(|process_config: ProcessConfig| process_config.spec_name())
}

/// The process that `name` refers to: the last of the first `count` that
/// has this name.
pub open spec fn spec_resolve(names: Seq<Seq<char>>, name: Seq<char>, count: nat) -> Option<int>
    decreases count,
{
    if count == 0 {
        None
    } else if names[count - 1] == name {
        Some(count - 1)
    } else {
        spec_resolve(names, name, (count - 1) as nat)
    }
}

/// The process that process `index` runs after. A name that no process
/// has refers to nothing.
pub open spec fn spec_upstream(configs: Seq<ProcessConfig>, index: int) -> Option<int> {
    match configs[index].after {
        Some(name) => spec_resolve(spec_names(configs), name@, configs.len()),
        None => None,
    }
}

/// Those of the first `count` processes that run after process
/// `upstream`, in the order of their indexes.
pub open spec fn spec_downstream(configs: Seq<ProcessConfig>, upstream: int, count: nat) -> Seq<
    usize,
>
    decreases count,
{
    if count == 0 {
        Seq::empty()
    } else {
        let before = spec_downstream(configs, upstream, (count - 1) as nat);
        if spec_upstream(configs, count - 1) == Some(upstream) {
            before.push((count - 1) as usize)
        } else {
            before
        }
    }
}

/// Those of the first `count` processes that some process runs after, in
/// the order of their indexes.
pub open spec fn spec_upstreams(configs: Seq<ProcessConfig>, count: nat) -> Seq<usize>
    decreases count,
{
    if count == 0 {
        Seq::empty()
    } else {
        let before = spec_upstreams(configs, (count - 1) as nat);
        if spec_downstream(configs, count - 1, configs.len()).len() > 0 {
            before.push((count - 1) as usize)
        } else {
            before
        }
    }
}

/// Whether `entry` is the tracker's entry for the upstream process
/// `upstream`, before any status has been seen.
pub open spec fn spec_is_entry(
    entry: DownstreamProcesses,
    configs: Seq<ProcessConfig>,
    upstream: usize,
) -> bool {
    &&& entry.upstream_process_index == upstream
    &&& entry.downstream_process_indexes@ == spec_downstream(
        configs,
        upstream as int,
        configs.len(),
    )
    &&& entry.last_upstream_status == ProcessStatus::NotStarted
}

/// Whether `after` is the tracker for a configuration: one entry for each
/// process that some process runs after, in the order of their indexes.
pub open spec fn spec_is_dependency_table(
    after: Seq<DownstreamProcesses>,
    configs: Seq<ProcessConfig>,
) -> bool {
    let upstreams = spec_upstreams(configs, configs.len());
    &&& after.len() == upstreams.len()
    &&& forall|k: int|
        0 <= k < after.len() ==> spec_is_entry(#[trigger] after[k], configs, upstreams[k])
}

/// Whether an index that was found is the index that was meant.
pub open spec fn spec_same_index(found: Option<usize>, meant: Option<int>) -> bool {
    match found {
        Some(index) => meant == Some(index as int),
        None => meant is None,
    }
}

/// The index of the last of `names` that equals `name`.
fn resolve(names: &Vec<String>, name: &String) -> (found: Option<usize>)
    ensures
        spec_same_index(
            found,
            spec_resolve(crate::config::texts(names@), name@, names@.len()),
        ),
{
    let mut i: usize = names.len();
    while i > 0
        invariant
            i <= names@.len(),
            spec_resolve(crate::config::texts(names@), name@, names@.len()) == spec_resolve(
                crate::config::texts(names@),
                name@,
                i as nat,
            ),
        decreases i,
    {
        i -= 1;
        if names[i] == *name {
            return Some(i);
        }
    }
    None
}

/// The size of the terminals once the pane has `size.0` columns and
/// `size.1` rows: each is cut to 16 bits, the pixels stay.
pub open spec fn spec_pty_size(pty_size: PtySize, size: (usize, usize)) -> PtySize {
    PtySize { cols: size.0 as u16, rows: size.1 as u16, ..pty_size }
}

/// The supervisor once the pane has the size `size`.
pub open spec fn spec_resized<L>(view: ProcessesView<L>, size: (usize, usize)) -> ProcessesView<L> {
    let pty_size = spec_pty_size(view.pty_size, size);
    if pty_size == view.pty_size {
        view
    } else {
        ProcessesView {
            pty_size,
            processes: Seq::new(
                view.processes.len(),
                |i: int| ProcessView { pty_size, ..view.processes[i] },
            ),
            ..view
        }
    }
}

/// The commands to resize the terminals of those of the first `count`
/// processes that are running.
pub open spec fn spec_resize_commands(
    processes: Seq<ProcessView>,
    pty_size: PtySize,
    count: nat,
) -> Seq<ProcessCommand>
    decreases count,
{
    if count == 0 {
        Seq::empty()
    } else {
        let before = spec_resize_commands(processes, pty_size, (count - 1) as nat);
        match processes[count - 1].state {
            ProcessInstanceState::Running { instance, .. } => before.push(
                ProcessCommand::Resize { process_index: (count - 1) as usize, instance, pty_size },
            ),
            _ => before,
        }
    }
}

/// Whether `after` is the supervisor `before` after a scroll, where
/// `screen` is the screen of the focused process's terminal.
pub open spec fn spec_scrolled<L>(
    before: ProcessesView<L>,
    direction: ScrollDirection,
    screen: Option<Screen<L>>,
    after: ProcessesView<L>,
) -> bool {
    &&& after.snapshot matches Some(snapshot)
    &&& match before.snapshot {
        Some(held) => {
            &&& snapshot.spec_screen() == held.spec_screen()
            &&& snapshot.spec_line_index() == held.spec_scrolled(direction)
        },
        None => {
            &&& snapshot.spec_screen() == crate::processes::spec_snapshot_screen(
                before.focused(),
                screen,
            )
            &&& snapshot.spec_line_index() == spec_scrolled_from_base(snapshot, direction)
        },
    }
    &&& snapshot.spec_line_index() <= snapshot.spec_base()
    &&& after == (ProcessesView {
        mode: MintakaMode::History,
        snapshot: Some(snapshot),
        ..before
    })
}

/// Scroll the snapshot that is held, if one is.
fn scroll_held<L>(held: &mut Option<ProcessSnapshot<L>>, direction: ScrollDirection)
    ensures
        match *old(held) {
            Some(before) => {
                &&& *final(held) matches Some(after)
                &&& after.spec_screen() == before.spec_screen()
                &&& after.spec_line_index() == before.spec_scrolled(direction)
                &&& after.spec_line_index() <= after.spec_base()
            },
            None => *final(held) is None,
        },
    no_unwind
{
    if let Some(snapshot) = held {
        snapshot.scroll(direction);
    }
}

/// Where a scroll leads in a snapshot that has just been taken, and so
/// starts at its base: up by a line or a page and not below zero; down
/// there is nowhere to go.
pub open spec fn spec_scrolled_from_base<L>(
    snapshot: ProcessSnapshot<L>,
    direction: ScrollDirection,
) -> nat {
    let base = snapshot.spec_base();
    if snapshot.spec_screen() is None {
        0
    } else {
        match direction {
            ScrollDirection::PageUp => if base >= snapshot.spec_page() {
                (base - snapshot.spec_page()) as nat
            } else {
                0
            },
            ScrollDirection::LineUp => if base >= 1 {
                (base - 1) as nat
            } else {
                0
            },
            ScrollDirection::PageDown => base,
            ScrollDirection::LineDown => base,
        }
    }
}

/// Whether `contents` is what the process pane shows.
pub open spec fn spec_screen_contents<'a, L, C>(
    view: ProcessesView<L>,
    live_lines: Seq<L>,
    live_cursor: Option<C>,
    contents: ScreenContents<'a, L, C>,
) -> bool {
    match view.mode {
        MintakaMode::Main => spec_shows(view.focused(), live_lines, None::<C>, contents),
        MintakaMode::ForwardInputToFocusedProcess => spec_shows(
            view.focused(),
            live_lines,
            live_cursor,
            contents,
        ),
        MintakaMode::History => contents matches ScreenContents::Terminal {
            lines,
            cursor_position,
        } && cursor_position is None && lines@ == (match view.snapshot {
            Some(snapshot) => snapshot.spec_lines(),
            None => Seq::empty(),
        }),
    }
}

/// The processes once each of them has been asked to stop.
pub open spec fn spec_all_stopped(processes: Seq<ProcessView>) -> Seq<ProcessView> {
    Seq::new(
        processes.len(),
        |i: int| processes[i].with_state(processes[i].state.spec_killed(StateOnTermination::Stopped)),
    )
}

/// The commands to kill the instances of the first `count` processes, as
/// far as a request that a stop overrides kills them.
pub open spec fn spec_stop_commands(processes: Seq<ProcessView>, count: nat) -> Seq<ProcessCommand>
    decreases count,
{
    if count == 0 {
        Seq::empty()
    } else {
        let before = spec_stop_commands(processes, (count - 1) as nat);
        match Process::spec_kill_target(processes[count - 1].state) {
            Some(instance) => before.push(
                ProcessCommand::Kill { process_index: (count - 1) as usize, instance },
            ),
            None => before,
        }
    }
}

impl<L> Processes<L> {
    /// Go back to the main mode, from wherever the supervisor is: leaving
    /// the history drops the snapshot.
    fn back_to_main(&mut self)
        ensures
            final(self)@ == spec_back_to_main(old(self)@),
    {
        match self.mode {
            MintakaMode::Main => {},
            MintakaMode::ForwardInputToFocusedProcess => self.enter_main_mode(),
            MintakaMode::History => self.leave_history(),
        }
    }

    /// Do what an input event asks for. `screen` is the screen of the
    /// focused process's terminal, which a scroll needs where no snapshot
    /// is held (see `snapshot_source`). Returns what the host has to do to
    /// the children.
    pub fn handle_input(&mut self, event: MintakaInputEvent, screen: Option<Screen<L>>) -> (commands:
        Vec<ProcessCommand>)
        ensures
            spec_handled(old(self)@, event, screen, final(self)@, commands@),
            final(self)@.processes.len() == old(self)@.processes.len(),
            final(self)@.wf(),
    {
        let commands = self.dispatch(event, screen);
        proof {
            use_type_invariant(&*self);
        }
        commands
    }

    fn dispatch(&mut self, event: MintakaInputEvent, screen: Option<Screen<L>>) -> (commands: Vec<
        ProcessCommand,
    >)
        ensures
            spec_handled(old(self)@, event, screen, final(self)@, commands@),
            final(self)@.processes.len() == old(self)@.processes.len(),
    {
        match event {
            MintakaInputEvent::Quit => self.stop_all(),
            MintakaInputEvent::FocusProcessUp => {
                self.disable_autofocus();
                self.move_focus_up();
                self.back_to_main();
                Vec::new()
            },
            MintakaInputEvent::FocusProcessDown => {
                self.disable_autofocus();
                self.move_focus_down();
                self.back_to_main();
                Vec::new()
            },
            MintakaInputEvent::ScrollPageUp => {
                self.scroll(ScrollDirection::PageUp, screen);
                Vec::new()
            },
            MintakaInputEvent::ScrollPageDown => {
                self.scroll(ScrollDirection::PageDown, screen);
                Vec::new()
            },
            MintakaInputEvent::ScrollLineUp => {
                self.scroll(ScrollDirection::LineUp, screen);
                Vec::new()
            },
            MintakaInputEvent::ScrollLineDown => {
                self.scroll(ScrollDirection::LineDown, screen);
                Vec::new()
            },
            MintakaInputEvent::ToggleAutofocus => {
                self.toggle_autofocus();
                Vec::new()
            },
            MintakaInputEvent::RestartProcess => {
                let mut commands = Vec::new();
                if let Some(command) = self.restart_focused() {
                    commands.push(command);
                }
                commands
            },
            MintakaInputEvent::EnterProcess => {
                self.forward_input_to_focused_process();
                Vec::new()
            },
            MintakaInputEvent::LeaveProcess => {
                self.enter_main_mode();
                Vec::new()
            },
            MintakaInputEvent::SendToFocusedProcess(key_event) => {
                let mut commands = Vec::new();
                if let Some(command) = self.send_input(key_event) {
                    commands.push(command);
                }
                commands
            },
            MintakaInputEvent::LeaveHistory => {
                self.leave_history();
                Vec::new()
            },
        }
    }
}

/// The supervisor back in the main mode: leaving the history drops the
/// snapshot.
pub open spec fn spec_back_to_main<L>(view: ProcessesView<L>) -> ProcessesView<L> {
    match view.mode {
        MintakaMode::Main => view,
        MintakaMode::ForwardInputToFocusedProcess => ProcessesView { mode: MintakaMode::Main, ..view },
        MintakaMode::History => ProcessesView { mode: MintakaMode::Main, snapshot: None, ..view },
    }
}

/// The supervisor after the user has moved the focus by hand, to
/// `focused_process_index`: autofocus is off, and the supervisor is in the
/// main mode.
pub open spec fn spec_focus_moved<L>(
    view: ProcessesView<L>,
    focused_process_index: nat,
) -> ProcessesView<L> {
    spec_back_to_main(
        ProcessesView { autofocus_enabled: false, focused_process_index, ..view },
    )
}

/// The command that `instance`, if there is one, is to be killed.
pub open spec fn spec_kill_command(
    process_index: nat,
    instance: Option<ProcessInstance>,
) -> Seq<ProcessCommand> {
    match instance {
        Some(instance) => seq![
            ProcessCommand::Kill { process_index: process_index as usize, instance },
        ],
        None => Seq::empty(),
    }
}

/// Whether `after` and `commands` are what an input event makes of the
/// supervisor `before`, where `screen` is the screen of the focused
/// process's terminal.
pub open spec fn spec_handled<L>(
    before: ProcessesView<L>,
    event: MintakaInputEvent,
    screen: Option<Screen<L>>,
    after: ProcessesView<L>,
    commands: Seq<ProcessCommand>,
) -> bool {
    match event {
        MintakaInputEvent::Quit => {
            &&& after == (ProcessesView {
                processes: spec_all_stopped(before.processes),
                ..before
            })
            &&& commands == spec_stop_commands(before.processes, before.processes.len())
        },
        MintakaInputEvent::FocusProcessUp => {
            &&& after == spec_focus_moved(before, before.focus_up())
            &&& commands.len() == 0
        },
        MintakaInputEvent::FocusProcessDown => {
            &&& after == spec_focus_moved(before, before.focus_down())
            &&& commands.len() == 0
        },
        MintakaInputEvent::ScrollPageUp => {
            &&& spec_scrolled(before, ScrollDirection::PageUp, screen, after)
            &&& commands.len() == 0
        },
        MintakaInputEvent::ScrollPageDown => {
            &&& spec_scrolled(before, ScrollDirection::PageDown, screen, after)
            &&& commands.len() == 0
        },
        MintakaInputEvent::ScrollLineUp => {
            &&& spec_scrolled(before, ScrollDirection::LineUp, screen, after)
            &&& commands.len() == 0
        },
        MintakaInputEvent::ScrollLineDown => {
            &&& spec_scrolled(before, ScrollDirection::LineDown, screen, after)
            &&& commands.len() == 0
        },
        MintakaInputEvent::ToggleAutofocus => {
            &&& after == (ProcessesView {
                autofocus_enabled: !before.autofocus_enabled,
                ..before
            })
            &&& commands.len() == 0
        },
        MintakaInputEvent::RestartProcess => {
            &&& after == (ProcessesView {
                processes: before.processes.update(
                    before.focused_process_index as int,
                    before.focused().with_state(
                        before.focused().state.spec_redirected(StateOnTermination::PendingRestart),
                    ),
                ),
                ..before
            })
            &&& commands == spec_kill_command(
                before.focused_process_index,
                before.focused().state.spec_instance(),
            )
        },
        MintakaInputEvent::EnterProcess => {
            &&& after == (ProcessesView {
                mode: MintakaMode::ForwardInputToFocusedProcess,
                ..before
            })
            &&& commands.len() == 0
        },
        MintakaInputEvent::LeaveProcess => {
            &&& after == (ProcessesView { mode: MintakaMode::Main, ..before })
            &&& commands.len() == 0
        },
        MintakaInputEvent::SendToFocusedProcess(input) => {
            &&& after == before
            &&& commands == (match before.focused().state.spec_instance() {
                Some(instance) => seq![
                    ProcessCommand::SendInput {
                        process_index: before.focused_process_index as usize,
                        instance,
                        input,
                    },
                ],
                None => Seq::empty(),
            })
        },
        MintakaInputEvent::LeaveHistory => {
            &&& after == (ProcessesView { mode: MintakaMode::Main, snapshot: None, ..before })
            &&& commands.len() == 0
        },
    }
}

/// Letting processes follow their upstream process changes neither how
/// many processes there are nor the state of one that is stopped.
proof fn lemma_followed_keeps_stopped(
    processes: Seq<ProcessView>,
    commands: Seq<ProcessCommand>,
    downstream: Seq<usize>,
    action: DownstreamAction,
    count: nat,
)
    requires
        count <= downstream.len(),
    ensures
        spec_followed(processes, commands, downstream, action, count).0.len() == processes.len(),
        forall|i: int|
            0 <= i < processes.len() && (#[trigger] processes[i]).state is Stopped
                ==> spec_followed(processes, commands, downstream, action, count).0[i].state is Stopped,
    decreases count,
{
    if count > 0 {
        lemma_followed_keeps_stopped(processes, commands, downstream, action, (count - 1) as nat);
    }
}

/// The dependency tracker changes neither how many processes there are nor
/// the state of one that is stopped.
proof fn lemma_cascade_keeps_stopped(start: Cascade, count: nat)
    requires
        count <= start.after.len(),
    ensures
        spec_cascade(start, count).processes.len() == start.processes.len(),
        spec_cascade(start, count).after.len() == start.after.len(),
        forall|i: int|
            0 <= i < start.processes.len() && (#[trigger] start.processes[i]).state is Stopped
                ==> spec_cascade(start, count).processes[i].state is Stopped,
    decreases count,
{
    if count > 0 {
        lemma_cascade_keeps_stopped(start, (count - 1) as nat);
        let before = spec_cascade(start, (count - 1) as nat);
        let entry = before.after[count - 1];
        if entry.upstream_process_index < before.processes.len() {
            let status = before.processes[entry.upstream_process_index as int].status();
            match DownstreamProcesses::spec_action(entry.last_upstream_status, status) {
                None => {},
                Some(action) => {
                    lemma_followed_keeps_stopped(
                        before.processes,
                        before.commands,
                        entry.downstream_process_indexes@,
                        action,
                        entry.downstream_process_indexes@.len(),
                    );
                    assert forall|i: int|
                        0 <= i < start.processes.len() && (
                        #[trigger] start.processes[i]).state is Stopped implies spec_cascade(
                        start,
                        count,
                    ).processes[i].state is Stopped by {
                        assert(before.processes[i].state is Stopped);
                    }
                },
            }
        }
    }
}

/// A process that is stopped stays stopped through a tick, whatever the
/// instances report and whatever the processes before it do: nothing that
/// the supervisor does by itself starts it again.
pub proof fn lemma_tick_keeps_stopped<L>(
    view: ProcessesView<L>,
    received: Seq<Vec<ProcessStatus>>,
    process_index: int,
)
    requires
        0 <= process_index < view.processes.len(),
        view.processes[process_index].state is Stopped,
    ensures
        spec_do_work(view, received).processes.len() == view.processes.len(),
        spec_do_work(view, received).processes[process_index].state is Stopped,
{
    let start = Cascade {
        processes: spec_synchronized(view.processes, received),
        after: view.after,
        commands: Seq::empty(),
    };
    assert(start.processes[process_index].state is Stopped);
    lemma_cascade_keeps_stopped(start, view.after.len());
}

/// The answer to a request to start a process leaves every process that
/// is stopped as it is: the answer is taken only by a process that is
/// pending.
pub proof fn lemma_start_keeps_stopped<L>(
    view: ProcessesView<L>,
    started: usize,
    spawned: Result<u32, ProcessError>,
    process_index: int,
)
    requires
        spec_awaits_start(view, started),
        0 <= process_index < view.processes.len(),
        view.processes[process_index].state is Stopped,
    ensures
        spec_start_completed(view, started, spawned).processes[process_index].state is Stopped,
{
}

/// No request but an explicit restart moves a process that is stopped: it
/// neither follows its upstream process, nor waits for it, nor takes in
/// reports, and a second stop changes nothing. The restart does move it.
pub proof fn lemma_only_restart_leaves_stopped(
    state_on_termination: StateOnTermination,
    received: Seq<ProcessStatus>,
)
    ensures
        ProcessInstanceState::Stopped.spec_killed(state_on_termination) is Stopped,
        ProcessInstanceState::Stopped.spec_synchronized(received) is Stopped,
        ProcessInstanceState::Stopped.spec_redirected(StateOnTermination::PendingRestart) is PendingRestart,
{
}

/// The processes that run after one process are listed in the order of
/// their indexes, and each of them is one of the processes looked at.
proof fn lemma_downstream_ascends(configs: Seq<ProcessConfig>, upstream: int, count: nat)
    requires
        count <= usize::MAX,
    ensures
        forall|j: int|
            0 <= j < spec_downstream(configs, upstream, count).len() ==> (#[trigger] spec_downstream(
                configs,
                upstream,
                count,
            )[j]) < count,
        forall|i: int, j: int|
            0 <= i < j < spec_downstream(configs, upstream, count).len() ==> spec_downstream(
                configs,
                upstream,
                count,
            )[i] < spec_downstream(configs, upstream, count)[j],
    decreases count,
{
    if count > 0 {
        lemma_downstream_ascends(configs, upstream, (count - 1) as nat);
        let before = spec_downstream(configs, upstream, (count - 1) as nat);
        let now = spec_downstream(configs, upstream, count);
        assert forall|j: int| 0 <= j < now.len() implies (#[trigger] now[j]) < count by {
            if j < before.len() {
                assert(now[j] == before[j]);
            }
        }
        assert forall|i: int, j: int| 0 <= i < j < now.len() implies now[i] < now[j] by {
            assert(now[i] == before[i]);
            if j < before.len() {
                assert(now[j] == before[j]);
            }
        }
    }
}

/// The processes that others run after are listed in the order of their
/// indexes, each of them is one of the processes looked at, and each has a
/// process that runs after it.
proof fn lemma_upstreams_ascend(configs: Seq<ProcessConfig>, count: nat)
    requires
        count <= usize::MAX,
    ensures
        forall|k: int|
            0 <= k < spec_upstreams(configs, count).len() ==> (#[trigger] spec_upstreams(
                configs,
                count,
            )[k]) < count && spec_downstream(
                configs,
                spec_upstreams(configs, count)[k] as int,
                configs.len(),
            ).len() > 0,
        forall|k: int, l: int|
            0 <= k < l < spec_upstreams(configs, count).len() ==> spec_upstreams(configs, count)[k]
                < spec_upstreams(configs, count)[l],
    decreases count,
{
    if count > 0 {
        lemma_upstreams_ascend(configs, (count - 1) as nat);
        let before = spec_upstreams(configs, (count - 1) as nat);
        let now = spec_upstreams(configs, count);
        assert forall|k: int| 0 <= k < now.len() implies (#[trigger] now[k]) < count
            && spec_downstream(configs, now[k] as int, configs.len()).len() > 0 by {
            if k < before.len() {
                assert(now[k] == before[k]);
            }
        }
        assert forall|k: int, l: int| 0 <= k < l < now.len() implies now[k] < now[l] by {
            assert(now[k] == before[k]);
            if l < before.len() {
                assert(now[l] == before[l]);
            }
        }
    }
}

/// The dependency tracker of a configuration is sorted by the index of the
/// upstream process, and it has one entry for a process at most. Every
/// entry has a downstream process, lists its downstream processes in the
/// order of their indexes, and speaks of processes that exist.
pub proof fn lemma_dependency_table_is_sorted(
    after: Seq<DownstreamProcesses>,
    configs: Seq<ProcessConfig>,
)
    requires
        spec_is_dependency_table(after, configs),
        configs.len() <= usize::MAX,
    ensures
        forall|k: int, l: int|
            0 <= k < l < after.len() ==> (#[trigger] after[k]).upstream_process_index < (
            #[trigger] after[l]).upstream_process_index,
        forall|k: int|
            0 <= k < after.len() ==> (#[trigger] after[k]).upstream_process_index < configs.len()
                && after[k].downstream_process_indexes@.len() > 0,
        forall|k: int, j: int|
            0 <= k < after.len() && 0 <= j < after[k].downstream_process_indexes@.len()
                ==> (#[trigger] after[k].downstream_process_indexes@[j]) < configs.len(),
        forall|k: int, i: int, j: int|
            0 <= k < after.len() && 0 <= i < j < after[k].downstream_process_indexes@.len()
                ==> (#[trigger] after[k].downstream_process_indexes@[i]) < (
            #[trigger] after[k].downstream_process_indexes@[j]),
{
    let upstreams = spec_upstreams(configs, configs.len());
    lemma_upstreams_ascend(configs, configs.len());
    assert forall|k: int| 0 <= k < after.len() implies (#[trigger] after[k]).upstream_process_index
        == upstreams[k] && after[k].downstream_process_indexes@ == spec_downstream(
        configs,
        upstreams[k] as int,
        configs.len(),
    ) by {
        assert(spec_is_entry(after[k], configs, upstreams[k]));
    }
    assert forall|k: int, j: int|
        0 <= k < after.len() && 0 <= j
            < after[k].downstream_process_indexes@.len() implies (
    #[trigger] after[k].downstream_process_indexes@[j]) < configs.len() by {
        lemma_downstream_ascends(configs, upstreams[k] as int, configs.len());
    }
    assert forall|k: int, i: int, j: int|
        0 <= k < after.len() && 0 <= i < j
            < after[k].downstream_process_indexes@.len() implies (
    #[trigger] after[k].downstream_process_indexes@[i]) < (
    #[trigger] after[k].downstream_process_indexes@[j]) by {
        lemma_downstream_ascends(configs, upstreams[k] as int, configs.len());
    }
}

/// Whether the indexes of a list ascend and are below `bound`.
pub open spec fn spec_ascending(indexes: Seq<usize>, bound: nat) -> bool {
    &&& forall|j: int| 0 <= j < indexes.len() ==> (#[trigger] indexes[j]) < bound
    &&& forall|i: int, j: int| 0 <= i < j < indexes.len() ==> indexes[i] < indexes[j]
}

/// Where downstream processes follow an action, each of them is asked
/// once: it takes the state that the action sends it to, unless it is
/// stopped or being stopped, and every other process is left alone. No
/// more than one command is given for each of them, after those that were
/// given before.
pub proof fn lemma_followed_reaches_each_once(
    processes: Seq<ProcessView>,
    commands: Seq<ProcessCommand>,
    downstream: Seq<usize>,
    action: DownstreamAction,
    count: nat,
)
    requires
        count <= downstream.len(),
        spec_ascending(downstream, processes.len()),
    ensures
        spec_followed(processes, commands, downstream, action, count).0.len() == processes.len(),
        forall|j: int|
            0 <= j < count ==> spec_followed(processes, commands, downstream, action, count).0[(
            #[trigger] downstream[j]) as int] == processes[downstream[j] as int].with_state(
                processes[downstream[j] as int].state.spec_killed(spec_state_after(action)),
            ),
        forall|i: int|
            0 <= i < processes.len() && (forall|j: int| 0 <= j < count ==> downstream[j] != i)
                ==> #[trigger] spec_followed(processes, commands, downstream, action, count).0[i]
                == processes[i],
        commands.len() <= spec_followed(processes, commands, downstream, action, count).1.len()
            <= commands.len() + count,
        spec_followed(processes, commands, downstream, action, count).1.take(
            commands.len() as int,
        ) == commands,
    decreases count,
{
    if count == 0 {
        assert(commands.take(commands.len() as int) == commands);
    } else {
        lemma_followed_reaches_each_once(
            processes,
            commands,
            downstream,
            action,
            (count - 1) as nat,
        );
        let (before, given) = spec_followed(
            processes,
            commands,
            downstream,
            action,
            (count - 1) as nat,
        );
        let now = spec_followed(processes, commands, downstream, action, count);
        let index = downstream[count - 1];
        assert(before[index as int] == processes[index as int]);
        assert forall|j: int| 0 <= j < count implies now.0[(#[trigger] downstream[j]) as int]
            == processes[downstream[j] as int].with_state(
            processes[downstream[j] as int].state.spec_killed(spec_state_after(action)),
        ) by {
            if j < count - 1 {
                assert(downstream[j] < downstream[count - 1]);
            }
        }
        assert(now.1.take(commands.len() as int) == given.take(commands.len() as int));
    }
}

/// What one entry of the dependency tracker does in a tick. It looks once
/// at the status that its upstream process has by then and remembers it.
/// A status that equals the last one it acted upon changes nothing: no
/// process and no command. Any other status makes the downstream
/// processes follow the one action that the status asks for.
pub proof fn lemma_tracker_entry_acts_once(start: Cascade, count: nat)
    requires
        count < start.after.len(),
        spec_cascade(start, count).after[count as int].upstream_process_index < start.processes.len(),
    ensures
        ({
            let before = spec_cascade(start, count);
            let now = spec_cascade(start, count + 1);
            let entry = before.after[count as int];
            let status = before.processes[entry.upstream_process_index as int].status();
            &&& before.processes.len() == start.processes.len()
            &&& before.after.len() == start.after.len()
            &&& now.after == before.after.update(
                count as int,
                DownstreamProcesses { last_upstream_status: status, ..entry },
            )
            &&& match DownstreamProcesses::spec_action(entry.last_upstream_status, status) {
                None => now.processes == before.processes && now.commands == before.commands,
                Some(action) => (now.processes, now.commands) == spec_followed(
                    before.processes,
                    before.commands,
                    entry.downstream_process_indexes@,
                    action,
                    entry.downstream_process_indexes@.len(),
                ),
            }
            &&& status == entry.last_upstream_status ==> now.processes == before.processes
                && now.commands == before.commands
        }),
{
    lemma_cascade_keeps_stopped(start, count);
}

/// A success of the upstream process with a new ID, after a success that
/// was acted upon, restarts the downstream processes once more: each of
/// them that is neither stopped nor being stopped is pending where it has
/// no instance, and is terminated in order to start anew where it has
/// one. The new success is remembered.
pub proof fn lemma_new_success_restarts_downstream(
    start: Cascade,
    count: nat,
    acted_upon: crate::statuses::SuccessId,
    new: crate::statuses::SuccessId,
)
    requires
        count < start.after.len(),
        acted_upon != new,
        ({
            let before = spec_cascade(start, count);
            let entry = before.after[count as int];
            &&& entry.upstream_process_index < start.processes.len()
            &&& spec_ascending(entry.downstream_process_indexes@, start.processes.len())
            &&& entry.last_upstream_status == ProcessStatus::Success(acted_upon)
            &&& before.processes[entry.upstream_process_index as int].status()
                == ProcessStatus::Success(new)
        }),
    ensures
        ({
            let before = spec_cascade(start, count);
            let now = spec_cascade(start, count + 1);
            let entry = before.after[count as int];
            &&& now.after[count as int].last_upstream_status == ProcessStatus::Success(new)
            &&& forall|j: int|
                0 <= j < entry.downstream_process_indexes@.len() ==> now.processes[(
                #[trigger] entry.downstream_process_indexes@[j]) as int].state
                    == before.processes[entry.downstream_process_indexes@[j] as int].state.spec_killed(
                    StateOnTermination::PendingRestart,
                )
        }),
{
    lemma_tracker_entry_acts_once(start, count);
    let before = spec_cascade(start, count);
    let entry = before.after[count as int];
    lemma_followed_reaches_each_once(
        before.processes,
        before.commands,
        entry.downstream_process_indexes@,
        DownstreamAction::Restart,
        entry.downstream_process_indexes@.len(),
    );
}

/// A process that shows the status `Stopped` shows it after a tick as
/// well, whatever the instances report, as long as what the process holds
/// of its own instance is a status that readers report.
pub proof fn lemma_tick_keeps_status_stopped<L>(
    view: ProcessesView<L>,
    received: Seq<Vec<ProcessStatus>>,
    process_index: int,
)
    requires
        0 <= process_index < view.processes.len(),
        view.processes[process_index].state.spec_holds_report(),
        view.processes[process_index].status() == ProcessStatus::Stopped,
    ensures
        spec_do_work(view, received).processes[process_index].status() == ProcessStatus::Stopped,
{
    view.processes[process_index].state.lemma_stopped_shows_as_stopped();
    lemma_tick_keeps_stopped(view, received, process_index);
}

} // verus!
