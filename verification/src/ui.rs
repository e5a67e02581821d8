//! What the chrome around the process pane shows of the processes.

use vstd::prelude::*;
use vstd::string::StringExecFns;
use crate::statuses::ProcessStatus;
use crate::text::{decimal, spec_decimal};

verus! {

/// The colour that a status is shown in.
#[derive(Clone, Copy, PartialEq, Eq, Structural, Debug)]
pub enum StatusColor {
    Success,
    Other,
    Failed,
}

/// The number of errors as the list shows it: counts of 100 and more are
/// all shown alike.
pub open spec fn spec_error_count_label(error_count: u64) -> Seq<char> {
    if error_count >= 100 {
        "99+"@
    } else {
        spec_decimal(error_count as nat)
    }
}

/// The text that the process list shows for a status.
pub open spec fn spec_status_label(status: ProcessStatus) -> Seq<char> {
    match status {
        ProcessStatus::NotStarted => "INACTIVE"@,
        ProcessStatus::Stopped => "STOPPED"@,
        ProcessStatus::WaitingForUpstream => "WAITING"@,
        ProcessStatus::FailedToStart => "ERR"@,
        ProcessStatus::Running => "RUNNING"@,
        ProcessStatus::Success(_) => "SUCCESS"@,
        ProcessStatus::Errors { error_count: None } => "ERR"@,
        ProcessStatus::Errors { error_count: Some(error_count) } => "ERR"@ + " ("@
            + spec_error_count_label(error_count) + ")"@,
        ProcessStatus::Exited { exit_code } => "EXIT "@ + spec_decimal(exit_code as nat),
        ProcessStatus::Restarting => "RESTARTING"@,
        ProcessStatus::Stopping => "STOPPING"@,
        ProcessStatus::Terminating => "TERMINATING"@,
    }
}

/// The colour that the process list shows a status in: successes in one,
/// failures in another, everything else in a third.
pub open spec fn spec_status_color(status: ProcessStatus) -> StatusColor {
    if status.is_success() {
        StatusColor::Success
    } else if status.is_failure() {
        StatusColor::Failed
    } else {
        StatusColor::Other
    }
}

/// The text and the colour that the process list shows for a status.
pub fn status_label(status: ProcessStatus) -> (label: (String, StatusColor))
    ensures
        label.0@ == spec_status_label(status),
        label.1 == spec_status_color(status),
{
    match status {
        ProcessStatus::NotStarted => (String::from_str("INACTIVE"), StatusColor::Other),
        ProcessStatus::Stopped => (String::from_str("STOPPED"), StatusColor::Other),
        ProcessStatus::WaitingForUpstream => (String::from_str("WAITING"), StatusColor::Other),
        ProcessStatus::FailedToStart => (String::from_str("ERR"), StatusColor::Failed),
        ProcessStatus::Running => (String::from_str("RUNNING"), StatusColor::Other),
        ProcessStatus::Success(_) => (String::from_str("SUCCESS"), StatusColor::Success),
        ProcessStatus::Errors { error_count } => {
            let mut status_str = String::from_str("ERR");
            if let Some(error_count) = error_count {
                let error_count_str = if error_count >= 100 {
                    String::from_str("99+")
                } else {
                    decimal(error_count)
                };
                status_str.append(" (");
                status_str.append(error_count_str.as_str());
                status_str.append(")");
            }
            (status_str, StatusColor::Failed)
        },
        ProcessStatus::Exited { exit_code } => {
            let status_color = if exit_code == 0 {
                StatusColor::Success
            } else {
                StatusColor::Failed
            };
            let mut status_str = String::from_str("EXIT ");
            status_str.append(decimal(exit_code as u64).as_str());
            (status_str, status_color)
        },
        ProcessStatus::Restarting => (String::from_str("RESTARTING"), StatusColor::Other),
        ProcessStatus::Stopping => (String::from_str("STOPPING"), StatusColor::Other),
        ProcessStatus::Terminating => (String::from_str("TERMINATING"), StatusColor::Other),
    }
}

/// Where on the host's screen the cursor of the focused process goes: a
/// cursor that is hidden, or is above the visible screen, or would leave
/// the range of positions, is not shown.
pub open spec fn spec_cursor_on_screen(
    visible: bool,
    x: usize,
    y: i64,
    pane_x: u16,
    pane_y: u16,
) -> Option<(usize, usize)> {
    if visible && y >= 0 && x + pane_x <= usize::MAX && y + pane_y <= usize::MAX {
        Some(((x + pane_x) as usize, (y + pane_y) as usize))
    } else {
        None
    }
}

/// Where on the host's screen the cursor of the focused process goes,
/// given where it is in the process's terminal and where the pane is.
pub fn cursor_on_screen(visible: bool, x: usize, y: i64, pane_x: u16, pane_y: u16) -> (position:
    Option<(usize, usize)>)
    ensures
        position == spec_cursor_on_screen(visible, x, y, pane_x, pane_y),
{
    if !visible || y < 0 {
        return None;
    }
    if y as u64 > usize::MAX as u64 {
        return None;
    }
    let row = y as usize;
    match (x.checked_add(pane_x as usize), row.checked_add(pane_y as usize)) {
        (Some(column), Some(row)) => Some((column, row)),
        _ => None,
    }
}

} // verus!
