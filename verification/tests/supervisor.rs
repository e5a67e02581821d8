use mintaka::config::ProcessConfig;
use mintaka::controls::{KeyCode, KeyEvent, KeyModifiers, MintakaInputEvent};
use mintaka::instances::{ProcessError, ProcessInstance, PtySize};
use mintaka::processes::{DownstreamProcesses, MintakaMode, ProcessInstanceState, ScreenContents};
use mintaka::scroll::ScrollDirection;
use mintaka::snapshots::Screen;
use mintaka::statuses::{ProcessInstanceId, ProcessStatus, SuccessId};
use mintaka::supervisor::{ProcessCommand, Processes};

fn process(name: &str, after: Option<&str>) -> ProcessConfig {
    ProcessConfig {
        command: vec![name.to_owned()],
        working_directory: None,
        name: None,
        process_type: None,
        after: after.map(|name| name.to_owned()),
        autostart: None,
        success_regex: None,
        error_regex: None,
    }
}

fn size() -> PtySize {
    PtySize { rows: 24, cols: 80, pixel_width: 0, pixel_height: 0 }
}

fn instance(id: u32, process_id: u32) -> ProcessInstance {
    ProcessInstance { id: ProcessInstanceId(id), process_id }
}

fn start(process_index: usize, id: u32) -> ProcessCommand {
    ProcessCommand::Start { process_index, instance_id: ProcessInstanceId(id), pty_size: size() }
}

fn kill(process_index: usize, id: u32, process_id: u32) -> ProcessCommand {
    ProcessCommand::Kill { process_index, instance: instance(id, process_id) }
}

fn success(instance: u32, index: u32) -> ProcessStatus {
    ProcessStatus::Success(SuccessId { process_instance_id: ProcessInstanceId(instance), success_index: index })
}

fn statuses(processes: &Processes<u32>) -> Vec<ProcessStatus> {
    processes.processes().iter().map(|process| process.status()).collect()
}

fn nothing(count: usize) -> Vec<Vec<ProcessStatus>> {
    vec![vec![]; count]
}

/// Runs a tick and starts every process that asks for it, with the
/// process's index plus 1000 as the number of the child.
fn tick(processes: &mut Processes<u32>, received: Vec<Vec<ProcessStatus>>) -> Vec<ProcessCommand> {
    let commands = processes.do_work(&received);
    for command in &commands {
        if let ProcessCommand::Start { process_index, .. } = command {
            assert!(processes.complete_start(*process_index, Ok(1000 + *process_index as u32)));
        }
    }
    commands
}

fn three_running() -> Processes<u32> {
    let mut processes = Processes::new(vec![process("a", None), process("b", None), process("c", None)]);
    tick(&mut processes, nothing(3));
    processes
}

fn screen() -> Screen<u32> {
    Screen { lines: (0..100).collect(), physical_rows: 24 }
}

#[test]
fn new_supervisor_starts_in_the_main_mode() {
    let processes: Processes<u32> = Processes::new(vec![process("a", None), process("b", Some("a"))]);
    assert_eq!(processes.mode(), MintakaMode::Main);
    assert!(processes.autofocus_enabled());
    assert_eq!(processes.focused_process_index(), 0);
    assert!(processes.snapshot().is_none());
    assert_eq!(processes.pty_size(), size());
    assert_eq!(processes.processes().len(), 2);
    assert_eq!(processes.processes()[0].name(), "a");
    assert_eq!(processes.processes()[1].name(), "b");
    assert_eq!(processes.processes()[0].pty_size(), size());
    assert_eq!(statuses(&processes), vec![ProcessStatus::Running, ProcessStatus::NotStarted]);
    assert!(!processes.is_stopped());
}

#[test]
fn dependency_table_has_one_entry_per_upstream() {
    let processes: Processes<u32> = Processes::new(vec![
        process("serve", Some("build")),
        process("build", None),
        process("test", Some("build")),
        process("lint", None),
        process("report", Some("test")),
    ]);
    assert_eq!(
        processes.after(),
        &[
            DownstreamProcesses {
                upstream_process_index: 1,
                downstream_process_indexes: vec![0, 2],
                last_upstream_status: ProcessStatus::NotStarted,
            },
            DownstreamProcesses {
                upstream_process_index: 2,
                downstream_process_indexes: vec![4],
                last_upstream_status: ProcessStatus::NotStarted,
            },
        ]
    );
}

#[test]
fn unknown_upstream_name_is_ignored() {
    let processes: Processes<u32> = Processes::new(vec![process("a", Some("nobody")), process("b", None)]);
    assert_eq!(processes.after(), &[]);
    assert_eq!(statuses(&processes), vec![ProcessStatus::NotStarted, ProcessStatus::Running]);
}

#[test]
fn upstream_name_refers_to_the_last_process_of_that_name() {
    let processes: Processes<u32> =
        Processes::new(vec![process("build", None), process("build", None), process("serve", Some("build"))]);
    assert_eq!(
        processes.after(),
        &[DownstreamProcesses {
            upstream_process_index: 1,
            downstream_process_indexes: vec![2],
            last_upstream_status: ProcessStatus::NotStarted,
        }]
    );
}

#[test]
fn upstream_is_found_by_display_name() {
    let mut named = process("cargo", None);
    named.name = Some("build".to_owned());
    let processes: Processes<u32> = Processes::new(vec![named, process("a", Some("cargo")), process("b", Some("build"))]);
    assert_eq!(
        processes.after(),
        &[DownstreamProcesses {
            upstream_process_index: 0,
            downstream_process_indexes: vec![2],
            last_upstream_status: ProcessStatus::NotStarted,
        }]
    );
}

#[test]
fn first_tick_starts_the_autostarting_processes() {
    let mut processes: Processes<u32> = Processes::new(vec![process("a", None), process("b", None)]);
    let commands = processes.do_work(&nothing(2));
    assert_eq!(commands, vec![start(0, 0), start(1, 0)]);
    assert_eq!(
        processes.processes()[0].instance_state(),
        &ProcessInstanceState::PendingRestart
    );
    assert!(processes.complete_start(0, Ok(10)));
    assert!(processes.complete_start(1, Ok(11)));
    assert_eq!(processes.processes()[0].instance(), Some(instance(0, 10)));
    assert_eq!(processes.processes()[1].instance(), Some(instance(0, 11)));
    assert_eq!(processes.do_work(&nothing(2)), vec![]);
}

#[test]
fn unanswered_start_is_asked_for_again() {
    let mut processes: Processes<u32> = Processes::new(vec![process("a", None)]);
    assert_eq!(processes.do_work(&nothing(1)), vec![start(0, 0)]);
    assert_eq!(processes.do_work(&nothing(1)), vec![start(0, 0)]);
}

#[test]
fn complete_start_is_taken_only_by_a_pending_process() {
    let mut processes: Processes<u32> = Processes::new(vec![process("a", None), process("b", Some("a"))]);
    assert!(!processes.complete_start(1, Ok(5)));
    assert!(!processes.complete_start(2, Ok(5)));
    assert!(processes.complete_start(0, Ok(5)));
    assert!(!processes.complete_start(0, Ok(6)));
    assert_eq!(processes.processes()[0].instance(), Some(instance(0, 5)));
    assert_eq!(processes.processes()[1].instance_state(), &ProcessInstanceState::NotStarted);
}

#[test]
fn missing_reports_count_as_none() {
    let mut processes = three_running();
    processes.do_work(&vec![vec![success(0, 0)]]);
    assert_eq!(statuses(&processes), vec![success(0, 0), ProcessStatus::Running, ProcessStatus::Running]);
    processes.do_work(&vec![vec![], vec![], vec![], vec![ProcessStatus::Stopped]]);
    assert_eq!(statuses(&processes), vec![success(0, 0), ProcessStatus::Running, ProcessStatus::Running]);
}

#[test]
fn after_restart_cascade() {
    let mut processes: Processes<u32> = Processes::new(vec![process("build", None), process("serve", Some("build"))]);
    let commands = tick(&mut processes, nothing(2));
    assert_eq!(commands, vec![start(0, 0)]);
    assert_eq!(statuses(&processes), vec![ProcessStatus::Running, ProcessStatus::WaitingForUpstream]);

    let commands = tick(&mut processes, vec![vec![ProcessStatus::Exited { exit_code: 0 }], vec![]]);
    assert_eq!(commands, vec![start(1, 0)]);
    assert_eq!(statuses(&processes), vec![ProcessStatus::Exited { exit_code: 0 }, ProcessStatus::Running]);
    assert_eq!(processes.processes()[1].instance(), Some(instance(0, 1001)));

    processes.move_focus_up();
    processes.move_focus_down();
    assert_eq!(processes.restart_focused(), Some(kill(0, 0, 1000)));
    assert_eq!(statuses(&processes)[0], ProcessStatus::Restarting);

    let commands = tick(&mut processes, nothing(2));
    assert_eq!(commands, vec![kill(1, 0, 1001), start(0, 1)]);
    assert_eq!(statuses(&processes), vec![ProcessStatus::Running, ProcessStatus::Terminating]);

    tick(&mut processes, vec![vec![], vec![ProcessStatus::Exited { exit_code: 143 }]]);
    assert_eq!(statuses(&processes), vec![ProcessStatus::Running, ProcessStatus::WaitingForUpstream]);

    let commands = tick(&mut processes, vec![vec![ProcessStatus::Exited { exit_code: 0 }], vec![]]);
    assert_eq!(commands, vec![start(1, 1)]);
    assert_eq!(statuses(&processes), vec![ProcessStatus::Exited { exit_code: 0 }, ProcessStatus::Running]);
    assert_eq!(processes.processes()[1].instance(), Some(instance(1, 1001)));
}

#[test]
fn each_new_success_restarts_the_downstream_process() {
    let mut processes: Processes<u32> = Processes::new(vec![process("check", None), process("serve", Some("check"))]);
    tick(&mut processes, nothing(2));
    let commands = tick(&mut processes, vec![vec![success(0, 0)], vec![]]);
    assert_eq!(commands, vec![start(1, 0)]);
    let commands = tick(&mut processes, vec![vec![success(0, 0)], vec![]]);
    assert_eq!(commands, vec![]);
    let commands = tick(&mut processes, vec![vec![success(0, 1)], vec![]]);
    assert_eq!(commands, vec![kill(1, 0, 1001)]);
    assert_eq!(statuses(&processes)[1], ProcessStatus::Restarting);
    let commands = tick(&mut processes, vec![vec![], vec![ProcessStatus::Exited { exit_code: 143 }]]);
    assert_eq!(commands, vec![start(1, 1)]);
    assert_eq!(processes.processes()[1].instance(), Some(instance(1, 1001)));
}

#[test]
fn upstream_errors_make_the_downstream_process_wait() {
    let mut processes: Processes<u32> = Processes::new(vec![process("check", None), process("serve", Some("check"))]);
    tick(&mut processes, nothing(2));
    tick(&mut processes, vec![vec![success(0, 0)], vec![]]);
    let commands = tick(&mut processes, vec![vec![ProcessStatus::Errors { error_count: Some(2) }], vec![]]);
    assert_eq!(commands, vec![kill(1, 0, 1001)]);
    assert_eq!(statuses(&processes)[1], ProcessStatus::Terminating);
    tick(&mut processes, vec![vec![], vec![ProcessStatus::Exited { exit_code: 143 }]]);
    assert_eq!(statuses(&processes)[1], ProcessStatus::WaitingForUpstream);
}

#[test]
fn cascade_reaches_the_downstream_of_a_downstream_in_one_tick() {
    let mut processes: Processes<u32> =
        Processes::new(vec![process("a", None), process("b", Some("a")), process("c", Some("b"))]);
    tick(&mut processes, nothing(3));
    assert_eq!(
        statuses(&processes),
        vec![ProcessStatus::Running, ProcessStatus::WaitingForUpstream, ProcessStatus::WaitingForUpstream]
    );
    let commands = tick(&mut processes, vec![vec![success(0, 0)], vec![], vec![]]);
    assert_eq!(commands, vec![start(1, 0)]);
    assert_eq!(
        statuses(&processes),
        vec![success(0, 0), ProcessStatus::Running, ProcessStatus::WaitingForUpstream]
    );
    let commands = tick(&mut processes, vec![vec![], vec![ProcessStatus::Exited { exit_code: 0 }], vec![]]);
    assert_eq!(commands, vec![start(2, 0)]);
}

#[test]
fn stopped_process_is_not_restarted_by_its_upstream() {
    let mut processes: Processes<u32> = Processes::new(vec![process("check", None), process("serve", Some("check"))]);
    tick(&mut processes, nothing(2));
    processes.stop_all();
    tick(&mut processes, vec![vec![ProcessStatus::Exited { exit_code: 0 }], vec![]]);
    assert_eq!(statuses(&processes), vec![ProcessStatus::Stopped, ProcessStatus::Stopped]);
    for _ in 0..3 {
        assert_eq!(tick(&mut processes, vec![vec![success(0, 7)], vec![success(0, 7)]]), vec![]);
        assert_eq!(statuses(&processes), vec![ProcessStatus::Stopped, ProcessStatus::Stopped]);
    }
    assert!(processes.is_stopped());
}

#[test]
fn manual_restart_while_running() {
    let mut processes: Processes<u32> = Processes::new(vec![process("a", None)]);
    tick(&mut processes, nothing(1));
    let commands = processes.handle_input(MintakaInputEvent::RestartProcess, None);
    assert_eq!(commands, vec![kill(0, 0, 1000)]);
    assert_eq!(statuses(&processes), vec![ProcessStatus::Restarting]);
    assert_eq!(tick(&mut processes, nothing(1)), vec![]);
    assert_eq!(statuses(&processes), vec![ProcessStatus::Restarting]);
    let commands = tick(&mut processes, vec![vec![ProcessStatus::Exited { exit_code: 143 }]]);
    assert_eq!(commands, vec![start(0, 1)]);
    assert_eq!(statuses(&processes), vec![ProcessStatus::Running]);
    assert_eq!(processes.processes()[0].instance(), Some(instance(1, 1000)));
}

#[test]
fn quit_lifecycle() {
    let mut processes: Processes<u32> = Processes::new(vec![process("a", None), process("b", Some("a")), process("c", None)]);
    tick(&mut processes, nothing(3));
    let commands = processes.handle_input(MintakaInputEvent::Quit, None);
    assert_eq!(commands, vec![kill(0, 0, 1000), kill(2, 0, 1002)]);
    assert_eq!(
        statuses(&processes),
        vec![ProcessStatus::Stopping, ProcessStatus::Stopped, ProcessStatus::Stopping]
    );
    assert!(!processes.is_stopped());
    tick(&mut processes, vec![vec![ProcessStatus::Exited { exit_code: 143 }], vec![], vec![]]);
    assert!(!processes.is_stopped());
    tick(&mut processes, vec![vec![], vec![], vec![ProcessStatus::Running, ProcessStatus::Exited { exit_code: 0 }]]);
    assert_eq!(statuses(&processes), vec![ProcessStatus::Stopped; 3]);
    assert!(processes.is_stopped());
}

#[test]
fn autofocus_moves_to_the_first_failing_process() {
    let mut processes = three_running();
    tick(&mut processes, vec![vec![], vec![], vec![ProcessStatus::Errors { error_count: Some(7) }]]);
    assert_eq!(processes.focused_process_index(), 2);
    tick(&mut processes, vec![vec![], vec![ProcessStatus::Exited { exit_code: 2 }], vec![]]);
    assert_eq!(processes.focused_process_index(), 1);
    tick(&mut processes, vec![vec![], vec![success(0, 0)], vec![success(0, 0)]]);
    assert_eq!(processes.focused_process_index(), 1);
}

#[test]
fn autofocus_finds_a_failed_start() {
    let mut processes: Processes<u32> = Processes::new(vec![process("a", None), process("b", None)]);
    processes.do_work(&nothing(2));
    assert!(processes.complete_start(0, Ok(1)));
    assert_eq!(processes.focused_process_index(), 0);
    assert!(processes.complete_start(1, Err(ProcessError::SpawnCommandFailed("gone".to_owned()))));
    assert_eq!(processes.focused_process_index(), 1);
    assert_eq!(
        processes.screen_contents(&[], None::<u8>),
        ScreenContents::Error("SpawnCommandFailed(gone)".to_owned())
    );
}

#[test]
fn autofocus_can_be_switched_off() {
    let mut processes = three_running();
    processes.toggle_autofocus();
    assert!(!processes.autofocus_enabled());
    tick(&mut processes, vec![vec![], vec![], vec![ProcessStatus::Errors { error_count: None }]]);
    assert_eq!(processes.focused_process_index(), 0);
    processes.toggle_autofocus();
    assert!(processes.autofocus_enabled());
    tick(&mut processes, nothing(3));
    assert_eq!(processes.focused_process_index(), 2);
    processes.disable_autofocus();
    processes.disable_autofocus();
    assert!(!processes.autofocus_enabled());
}

#[test]
fn autofocus_rests_outside_the_main_mode() {
    let mut processes = three_running();
    processes.forward_input_to_focused_process();
    tick(&mut processes, vec![vec![], vec![ProcessStatus::Errors { error_count: None }], vec![]]);
    assert_eq!(processes.focused_process_index(), 0);
    processes.enter_main_mode();
    processes.scroll(ScrollDirection::LineUp, Some(screen()));
    tick(&mut processes, nothing(3));
    assert_eq!(processes.focused_process_index(), 0);
    processes.leave_history();
    tick(&mut processes, nothing(3));
    assert_eq!(processes.focused_process_index(), 1);
}

#[test]
fn focus_wraps_around() {
    let mut processes = three_running();
    processes.move_focus_up();
    assert_eq!(processes.focused_process_index(), 2);
    processes.move_focus_down();
    assert_eq!(processes.focused_process_index(), 0);
    processes.move_focus_down();
    processes.move_focus_down();
    assert_eq!(processes.focused_process_index(), 2);
    processes.move_focus_up();
    assert_eq!(processes.focused_process_index(), 1);
}

#[test]
fn focus_of_a_single_process_stays() {
    let mut processes: Processes<u32> = Processes::new(vec![process("a", None)]);
    processes.move_focus_up();
    assert_eq!(processes.focused_process_index(), 0);
    processes.move_focus_down();
    assert_eq!(processes.focused_process_index(), 0);
}

#[test]
fn focus_stays_in_range_whatever_happens() {
    let mut processes = three_running();
    let events = [
        MintakaInputEvent::FocusProcessUp,
        MintakaInputEvent::FocusProcessUp,
        MintakaInputEvent::ScrollPageUp,
        MintakaInputEvent::FocusProcessDown,
        MintakaInputEvent::FocusProcessDown,
        MintakaInputEvent::ToggleAutofocus,
        MintakaInputEvent::RestartProcess,
        MintakaInputEvent::FocusProcessDown,
        MintakaInputEvent::Quit,
        MintakaInputEvent::FocusProcessUp,
    ];
    for event in events {
        processes.handle_input(event, Some(screen()));
        assert!(processes.focused_process_index() < 3);
        tick(&mut processes, vec![vec![ProcessStatus::Exited { exit_code: 1 }]; 3]);
        assert!(processes.focused_process_index() < 3);
    }
}

#[test]
fn moving_the_focus_by_hand_switches_autofocus_off() {
    let mut processes = three_running();
    assert_eq!(processes.handle_input(MintakaInputEvent::FocusProcessDown, None), vec![]);
    assert_eq!(processes.focused_process_index(), 1);
    assert!(!processes.autofocus_enabled());
    assert_eq!(processes.mode(), MintakaMode::Main);
    tick(&mut processes, vec![vec![ProcessStatus::Errors { error_count: None }], vec![], vec![]]);
    assert_eq!(processes.focused_process_index(), 1);
    processes.handle_input(MintakaInputEvent::FocusProcessUp, None);
    processes.handle_input(MintakaInputEvent::FocusProcessUp, None);
    assert_eq!(processes.focused_process_index(), 2);
    processes.handle_input(MintakaInputEvent::ToggleAutofocus, None);
    assert!(processes.autofocus_enabled());
}

#[test]
fn moving_the_focus_by_hand_leads_back_to_the_main_mode() {
    let mut processes = three_running();
    processes.scroll(ScrollDirection::PageUp, Some(screen()));
    processes.handle_input(MintakaInputEvent::FocusProcessDown, None);
    assert_eq!(processes.mode(), MintakaMode::Main);
    assert!(processes.snapshot().is_none());
    processes.forward_input_to_focused_process();
    processes.handle_input(MintakaInputEvent::FocusProcessUp, None);
    assert_eq!(processes.mode(), MintakaMode::Main);
    assert_eq!(processes.focused_process_index(), 0);
}

#[test]
fn mode_changes() {
    let mut processes = three_running();
    processes.handle_input(MintakaInputEvent::EnterProcess, None);
    assert_eq!(processes.mode(), MintakaMode::ForwardInputToFocusedProcess);
    processes.handle_input(MintakaInputEvent::LeaveProcess, None);
    assert_eq!(processes.mode(), MintakaMode::Main);
    processes.handle_input(MintakaInputEvent::ScrollLineUp, Some(screen()));
    assert_eq!(processes.mode(), MintakaMode::History);
    processes.handle_input(MintakaInputEvent::LeaveHistory, None);
    assert_eq!(processes.mode(), MintakaMode::Main);
    assert!(processes.snapshot().is_none());
}

#[test]
fn history_capture() {
    let mut processes = three_running();
    assert_eq!(processes.snapshot_source(), Some(instance(0, 1000)));
    processes.handle_input(MintakaInputEvent::ScrollPageUp, Some(screen()));
    assert_eq!(processes.mode(), MintakaMode::History);
    assert_eq!(processes.snapshot().unwrap().line_index(), 64);
    assert_eq!(processes.snapshot_source(), None);
    let live = [7u32; 24];
    assert_eq!(
        processes.screen_contents(&live, Some(1)),
        ScreenContents::Terminal { lines: (64..88).collect::<Vec<u32>>().as_slice(), cursor_position: None }
    );
    processes.handle_input(MintakaInputEvent::ScrollPageUp, Some(Screen { lines: vec![], physical_rows: 0 }));
    assert_eq!(processes.snapshot().unwrap().line_index(), 52);
    for _ in 0..10 {
        processes.handle_input(MintakaInputEvent::ScrollPageUp, None);
    }
    assert_eq!(processes.snapshot().unwrap().line_index(), 0);
    processes.handle_input(MintakaInputEvent::ScrollLineDown, None);
    assert_eq!(processes.snapshot().unwrap().line_index(), 1);
    processes.handle_input(MintakaInputEvent::LeaveHistory, None);
    assert_eq!(processes.mode(), MintakaMode::Main);
    assert!(processes.snapshot().is_none());
    assert_eq!(
        processes.screen_contents(&live, Some(1)),
        ScreenContents::Terminal { lines: &live, cursor_position: None }
    );
}

#[test]
fn first_scroll_down_stays_at_the_base() {
    let mut processes = three_running();
    processes.scroll(ScrollDirection::PageDown, Some(screen()));
    assert_eq!(processes.mode(), MintakaMode::History);
    assert_eq!(processes.snapshot().unwrap().line_index(), 76);
}

#[test]
fn scroll_without_an_instance_shows_nothing() {
    let mut processes: Processes<u32> = Processes::new(vec![process("a", None)]);
    assert_eq!(processes.snapshot_source(), None);
    processes.scroll(ScrollDirection::LineUp, Some(screen()));
    assert_eq!(processes.mode(), MintakaMode::History);
    assert_eq!(processes.snapshot().unwrap().line_index(), 0);
    assert_eq!(
        processes.screen_contents(&[1, 2], Some(1)),
        ScreenContents::Terminal { lines: &[], cursor_position: None }
    );
}

#[test]
fn screen_contents_by_mode() {
    let mut processes = three_running();
    let live = [1u32, 2, 3];
    assert_eq!(
        processes.screen_contents(&live, Some('c')),
        ScreenContents::Terminal { lines: &live, cursor_position: None }
    );
    processes.forward_input_to_focused_process();
    assert_eq!(
        processes.screen_contents(&live, Some('c')),
        ScreenContents::Terminal { lines: &live, cursor_position: Some('c') }
    );
}

#[test]
fn input_goes_to_the_focused_instance() {
    let key = KeyEvent { key: KeyCode::Char('x'), modifiers: KeyModifiers::Unmodified };
    let mut processes: Processes<u32> = Processes::new(vec![process("a", None), process("b", Some("a"))]);
    tick(&mut processes, nothing(2));
    assert_eq!(
        processes.send_input(key),
        Some(ProcessCommand::SendInput { process_index: 0, instance: instance(0, 1000), input: key })
    );
    assert_eq!(
        processes.handle_input(MintakaInputEvent::SendToFocusedProcess(key), None),
        vec![ProcessCommand::SendInput { process_index: 0, instance: instance(0, 1000), input: key }]
    );
    processes.move_focus_down();
    assert_eq!(processes.send_input(key), None);
    assert_eq!(processes.handle_input(MintakaInputEvent::SendToFocusedProcess(key), None), vec![]);
}

#[test]
fn restart_focused_without_an_instance_kills_nothing() {
    let mut processes: Processes<u32> = Processes::new(vec![process("a", None), process("b", Some("a"))]);
    processes.move_focus_down();
    assert_eq!(processes.restart_focused(), None);
    assert_eq!(processes.processes()[1].instance_state(), &ProcessInstanceState::PendingRestart);
    assert_eq!(processes.handle_input(MintakaInputEvent::RestartProcess, None), vec![]);
}

#[test]
fn resize_reaches_every_process_once() {
    let mut processes: Processes<u32> = Processes::new(vec![process("a", None), process("b", Some("a")), process("c", None)]);
    tick(&mut processes, nothing(3));
    let new_size = PtySize { rows: 40, cols: 120, pixel_width: 0, pixel_height: 0 };
    let commands = processes.resize((120, 40));
    assert_eq!(
        commands,
        vec![
            ProcessCommand::Resize { process_index: 0, instance: instance(0, 1000), pty_size: new_size },
            ProcessCommand::Resize { process_index: 2, instance: instance(0, 1002), pty_size: new_size },
        ]
    );
    assert_eq!(processes.pty_size(), new_size);
    for process in processes.processes() {
        assert_eq!(process.pty_size(), new_size);
    }
    assert_eq!(processes.resize((120, 40)), vec![]);
    assert_eq!(processes.pty_size(), new_size);
}

#[test]
fn resize_to_the_same_size_does_nothing() {
    let mut processes = three_running();
    assert_eq!(processes.resize((80, 24)), vec![]);
    assert_eq!(processes.pty_size(), size());
}

#[test]
fn resize_cuts_the_size_to_sixteen_bits() {
    let mut processes = three_running();
    processes.resize((65536 + 100, 65536 * 3 + 30));
    assert_eq!(processes.pty_size(), PtySize { rows: 30, cols: 100, pixel_width: 0, pixel_height: 0 });
}

#[test]
fn new_processes_start_with_the_size_of_the_last_resize() {
    let mut processes: Processes<u32> = Processes::new(vec![process("a", None)]);
    processes.resize((100, 30));
    assert_eq!(
        processes.do_work(&nothing(1)),
        vec![ProcessCommand::Start {
            process_index: 0,
            instance_id: ProcessInstanceId(0),
            pty_size: PtySize { rows: 30, cols: 100, pixel_width: 0, pixel_height: 0 },
        }]
    );
}

#[test]
fn stop_all_stops_every_process() {
    let mut processes: Processes<u32> = Processes::new(vec![process("a", None), process("b", Some("a"))]);
    assert_eq!(processes.stop_all(), vec![]);
    assert!(processes.is_stopped());
    assert_eq!(processes.do_work(&nothing(2)), vec![]);
    assert!(processes.is_stopped());
}
