use mintaka::config::{ProcessConfig, ProcessTypeConfig};
use mintaka::process_statuses::ProcessStatusAnalyzer;
use mintaka::reader::{exited, soften, status, Guard, Header, LineEvent, Parameter, ProcessReader, CANCEL};
use mintaka::statuses::{ProcessInstanceId, ProcessStatus, SuccessId};

fn analyzer(process_type: Option<ProcessTypeConfig>, success: Option<&str>, error: Option<&str>) -> ProcessStatusAnalyzer {
    ProcessConfig {
        command: vec!["tsc".to_owned(), "--watch".to_owned()],
        working_directory: None,
        name: None,
        process_type,
        after: None,
        autostart: None,
        success_regex: success.map(|text| text.to_owned()),
        error_regex: error.map(|text| text.to_owned()),
    }
    .process_status_analyzer()
    .unwrap()
}

fn tsc_reader(instance: u32) -> ProcessReader {
    ProcessReader::new(analyzer(Some(ProcessTypeConfig::TscWatch), None, None), ProcessInstanceId(instance))
}

fn success(instance: u32, index: u32) -> ProcessStatus {
    ProcessStatus::Success(SuccessId { process_instance_id: ProcessInstanceId(instance), success_index: index })
}

#[test]
fn simple_watcher_success() {
    let mut reader = tsc_reader(0);
    let chunk = reader.read(b" Found 0 errors. Watching for file changes.\n");
    assert_eq!(chunk.statuses, vec![success(0, 0)]);
    assert_eq!(reader.last_line(), "");
}

#[test]
fn watcher_failure_count() {
    let mut reader = tsc_reader(0);
    let chunk = reader.read(b" Found 7 errors. Watching for file changes.\n");
    assert_eq!(chunk.statuses, vec![ProcessStatus::Errors { error_count: Some(7) }]);
}

#[test]
fn text_without_a_line_end_reports_nothing() {
    let mut reader = tsc_reader(0);
    let chunk = reader.read(b" Found 0 errors. Watching");
    assert_eq!(chunk.statuses, vec![]);
    assert_eq!(reader.last_line(), " Found 0 errors. Watching");
    let chunk = reader.read(b" for file changes.\r\n");
    assert_eq!(chunk.statuses, vec![success(0, 0)]);
    assert_eq!(reader.last_line(), "");
}

#[test]
fn carriage_return_ends_a_line_and_the_line_feed_after_it_is_blank() {
    let mut reader = tsc_reader(0);
    let chunk = reader.read(b"compiling\r\n");
    assert_eq!(chunk.statuses, vec![ProcessStatus::Running]);
}

#[test]
fn lines_rewritten_with_carriage_returns_are_each_classified() {
    let mut reader = tsc_reader(3);
    let chunk = reader.read(b"10%\r50%\r Found 2 errors. Watching for file changes.\r");
    assert_eq!(
        chunk.statuses,
        vec![ProcessStatus::Running, ProcessStatus::Running, ProcessStatus::Errors { error_count: Some(2) }]
    );
}

#[test]
fn full_reset_ends_a_line() {
    let mut reader = tsc_reader(0);
    let chunk = reader.read(b"hello\x1bc");
    assert_eq!(chunk.statuses, vec![ProcessStatus::Running]);
    assert_eq!(reader.last_line(), "");
    assert!(chunk.events.contains(&LineEvent::FullReset));
}

#[test]
fn other_actions_leave_the_line_alone() {
    let mut reader = tsc_reader(0);
    let chunk = reader.read(b"\x1b[31mred\x1b[0m\ttab\x07");
    assert_eq!(chunk.statuses, vec![]);
    assert_eq!(reader.last_line(), "redtab");
    assert!(chunk.events.contains(&LineEvent::Other));
}

#[test]
fn events_stand_for_the_actions() {
    let mut reader = tsc_reader(0);
    let chunk = reader.read(b"ab\n\r");
    assert_eq!(chunk.events.len(), chunk.actions.len());
    assert_eq!(
        chunk.events,
        vec![LineEvent::Print('a'), LineEvent::Print('b'), LineEvent::LineFeed, LineEvent::CarriageReturn]
    );
    assert_eq!(chunk.statuses, vec![ProcessStatus::Running]);
}

#[test]
fn a_character_split_over_two_chunks_is_put_together() {
    let mut reader = tsc_reader(0);
    let bytes = "é\n".as_bytes();
    let first = reader.read(&bytes[..1]);
    assert_eq!(first.statuses, vec![]);
    assert_eq!(reader.last_line(), "");
    let second = reader.read(&bytes[1..]);
    assert!(second.events.contains(&LineEvent::Print('é')));
    assert_eq!(second.statuses, vec![ProcessStatus::Running]);
}

#[test]
fn each_success_gets_a_fresh_id() {
    let mut reader = tsc_reader(5);
    let chunk = reader.read(
        b" Found 0 errors. Watching for file changes.\n Found 1 error. Watching for file changes.\n Found 0 errors. Watching for file changes.\n",
    );
    assert_eq!(
        chunk.statuses,
        vec![success(5, 0), ProcessStatus::Errors { error_count: Some(1) }, success(5, 1)]
    );
    assert_eq!(reader.next_success_id(), SuccessId { process_instance_id: ProcessInstanceId(5), success_index: 2 });
    let chunk = reader.read(b" Found 0 errors. Watching for file changes.\n");
    assert_eq!(chunk.statuses, vec![success(5, 2)]);
}

#[test]
fn new_reader_starts_at_success_zero() {
    let reader = tsc_reader(9);
    assert_eq!(reader.last_line(), "");
    assert_eq!(reader.next_success_id(), SuccessId { process_instance_id: ProcessInstanceId(9), success_index: 0 });
}

#[test]
fn observe_gathers_printed_text() {
    let mut reader = ProcessReader::new(analyzer(None, Some("^done$"), None), ProcessInstanceId(1));
    assert_eq!(reader.observe(&LineEvent::Print('d')), None);
    assert_eq!(reader.observe(&LineEvent::PrintString("on".to_owned())), None);
    assert_eq!(reader.observe(&LineEvent::Other), None);
    assert_eq!(reader.observe(&LineEvent::Print('e')), None);
    assert_eq!(reader.last_line(), "done");
    assert_eq!(reader.observe(&LineEvent::LineFeed), Some(success(1, 0)));
    assert_eq!(reader.last_line(), "");
    assert_eq!(reader.observe(&LineEvent::CarriageReturn), None);
    assert_eq!(reader.observe(&LineEvent::FullReset), None);
}

#[test]
fn observe_without_patterns_reports_running() {
    let mut reader = ProcessReader::new(analyzer(None, None, None), ProcessInstanceId(0));
    assert_eq!(reader.observe(&LineEvent::PrintString("error".to_owned())), None);
    assert_eq!(reader.observe(&LineEvent::CarriageReturn), Some(ProcessStatus::Running));
    assert_eq!(reader.observe(&LineEvent::PrintString("  ".to_owned())), None);
    assert_eq!(reader.observe(&LineEvent::LineFeed), None);
    assert_eq!(reader.last_line(), "");
}

#[test]
fn status_maps_each_analysis() {
    let analyzer = analyzer(None, Some("ok"), Some("([0-9]+) bad"));
    let mut id = SuccessId::new(ProcessInstanceId(2));
    assert_eq!(status(&analyzer, "", &mut id), None);
    assert_eq!(status(&analyzer, "working", &mut id), Some(ProcessStatus::Running));
    assert_eq!(status(&analyzer, "3 bad", &mut id), Some(ProcessStatus::Errors { error_count: Some(3) }));
    assert_eq!(id.success_index, 0);
    assert_eq!(status(&analyzer, "ok", &mut id), Some(success(2, 0)));
    assert_eq!(id.success_index, 1);
    assert_eq!(status(&analyzer, "0 bad", &mut id), Some(success(2, 1)));
    assert_eq!(id.success_index, 2);
}

#[test]
fn the_last_success_id_but_one_is_given_out() {
    let analyzer = analyzer(None, Some("ok"), None);
    let mut id = SuccessId { process_instance_id: ProcessInstanceId(0), success_index: u32::MAX - 1 };
    assert_eq!(status(&analyzer, "ok", &mut id), Some(success(0, u32::MAX - 1)));
    assert_eq!(id.success_index, u32::MAX);
}

#[test]
fn a_fresh_reader_can_observe() {
    let mut reader = tsc_reader(0);
    assert!(reader.can_observe());
    let chunk = reader.read(b" Found 0 errors. Watching for file changes.\nmore");
    assert_eq!(chunk.observed, chunk.events.len());
    assert_eq!(chunk.observed, chunk.actions.len());
    assert!(reader.can_observe());
}

#[test]
fn exit_status_carries_the_code() {
    assert_eq!(exited(Some(0)), ProcessStatus::Exited { exit_code: 0 });
    assert_eq!(exited(Some(130)), ProcessStatus::Exited { exit_code: 130 });
}

#[test]
fn exit_status_without_a_code_is_one() {
    assert_eq!(exited(None), ProcessStatus::Exited { exit_code: 1 });
}

fn softened(bytes: &[u8]) -> Vec<u8> {
    let mut guard = Guard::new();
    soften(&mut guard, bytes)
}

#[test]
fn plain_text_is_fed_as_it_is() {
    let text = " Found 1000 errors. Watching for file changes.\r\n1000p p1000 \x1b[1000;1p".as_bytes();
    assert_eq!(softened(text), text);
}

#[test]
fn tmux_header_is_cancelled() {
    assert_eq!(softened(b"\x1bP1000p"), b"\x1bP1000\x18");
    assert_eq!(softened(b"\x901000p"), b"\x901000\x18");
    assert_eq!(softened(b"\x1bP01000p"), b"\x1bP01000\x18");
    assert_eq!(softened(b"\x1bP1000 p"), b"\x1bP1000 \x18");
    assert_eq!(softened(b"\x1b\n\x7fP\x001\x7f000\xa0p"), b"\x1b\n\x7fP\x001\x7f000\xa0\x18");
    assert_eq!(softened("\u{90}1000p".as_bytes()), b"\xc2\x901000\x18");
    assert_eq!(CANCEL, 0x18);
}

#[test]
fn tmux_header_split_over_chunks_is_cancelled() {
    let mut guard = Guard::new();
    assert_eq!(soften(&mut guard, b"text\x1b"), b"text\x1b");
    assert!(guard.escape);
    assert_eq!(soften(&mut guard, b"P10"), b"P10");
    assert_eq!(guard, Guard { escape: false, header: Header::Param, parameter: Parameter::Single(10) });
    assert_eq!(soften(&mut guard, b"00"), b"00");
    assert_eq!(soften(&mut guard, b"pp"), b"\x18p");
    assert_eq!(guard, Guard::new());
}

#[test]
fn other_device_control_strings_are_fed_as_they_are() {
    for bytes in [
        &b"\x1bPq#0;2;0;0;0\x1b\\"[..],
        &b"\x1bP1000q"[..],
        &b"\x1bP100p"[..],
        &b"\x1bP10000p"[..],
        &b"\x1bP1001p"[..],
        &b"\x1bP1000;p"[..],
        &b"\x1bP;1000p"[..],
        &b"\x1bP1000;1p"[..],
        &b"\x1bP?1000p"[..],
        &b"\x1bP>1000p"[..],
        &b"\x1bPp"[..],
        &b"\x1bP 1000p"[..],
        &b"\x1bP1000:p"[..],
        &b"\x1bP1000?p"[..],
        &b"\x1bP1000 0p"[..],
        &b"\x1bP10\x1800p"[..],
        &b"\x1bP10\x1b[00p"[..],
        &b"\x1bP1000\x9cp"[..],
        &b"\x1b[P1000p"[..],
        &b"\x1b P1000p"[..],
        &b"P1000p"[..],
    ] {
        assert_eq!(softened(bytes), bytes);
    }
}

#[test]
fn text_with_the_byte_of_the_introducer_is_fed_as_it_is() {
    for text in ["\u{410}\u{431}\u{432} 1000 passed", "\u{2550}\u{2550} 1 passed \u{2550}", "\u{2010}p", "\u{410}1p"] {
        assert_eq!(softened(text.as_bytes()), text.as_bytes());
    }
}

#[test]
fn guard_follows_the_header() {
    let guard = Guard::new();
    assert!(!guard.refuses(b'p'));
    let entered = guard.after(0x1b).after(b'P');
    assert_eq!(entered, Guard { escape: false, header: Header::Entry, parameter: Parameter::Missing });
    assert!(!entered.refuses(b'p'));
    let thousand = entered.after(b'1').after(b'0').after(b'0').after(b'0');
    assert_eq!(thousand.parameter, Parameter::Single(1000));
    assert!(thousand.refuses(b'p'));
    assert!(!thousand.refuses(b'q'));
    assert!(thousand.after(b'+').refuses(b'p'));
    assert_eq!(thousand.after(b'0').parameter, Parameter::Single(1001));
    assert_eq!(thousand.after(b'0').after(b'0').parameter, Parameter::Single(1001));
    assert_eq!(thousand.after(b';').parameter, Parameter::Other);
    assert_eq!(thousand.after(b';').after(b'1').parameter, Parameter::Other);
    assert_eq!(thousand.after(b'q'), Guard::new());
    assert_eq!(thousand.after(b':').header, Header::Outside);
    assert_eq!(thousand.after(0x90), entered);
}

#[test]
fn reader_survives_the_control_mode_of_tmux() {
    let mut reader = tsc_reader(0);
    let chunk = reader.read(b"\x1bP1000p%layout-change @1 a,99999999999999999999999x1,0,0,0\n");
    assert_eq!(chunk.statuses, vec![ProcessStatus::Running]);
    assert_eq!(reader.last_line(), "");
    let chunk = reader.read(b" Found 0 errors. Watching for file changes.\n");
    assert_eq!(chunk.statuses, vec![success(0, 0)]);
}

#[test]
fn reader_takes_other_device_control_strings() {
    let mut reader = tsc_reader(0);
    let chunk = reader.read(b"\x1bP1$r0m\x1b\\ Found 3 errors. Watching for file changes.\n");
    assert_eq!(chunk.statuses, vec![ProcessStatus::Errors { error_count: Some(3) }]);
}

#[test]
fn reader_reads_text_in_other_scripts() {
    let mut reader = ProcessReader::new(analyzer(None, Some("\u{433}\u{43e}\u{442}\u{43e}\u{432}\u{43e} 1000 p"), None), ProcessInstanceId(0));
    let chunk = reader.read("\u{410} \u{433}\u{43e}\u{442}\u{43e}\u{432}\u{43e} 1000 p\n".as_bytes());
    assert_eq!(chunk.statuses, vec![success(0, 0)]);
}
