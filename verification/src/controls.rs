//! The keys that the supervisor answers to, in each of its modes.

use vstd::prelude::*;
use crate::processes::MintakaMode;

verus! {

/// Which key is pressed, as far as the bindings tell keys apart.
#[derive(Clone, Copy, PartialEq, Eq, Structural, Debug)]
pub enum KeyCode {
    /// The decoded unicode character.
    Char(char),
    UpArrow,
    DownArrow,
    PageUp,
    PageDown,
    /// Any other key.
    Other,
}

/// Which modifiers are down, as far as the bindings tell them apart.
#[derive(Clone, Copy, PartialEq, Eq, Structural, Debug)]
pub enum KeyModifiers {
    /// No modifier at all.
    Unmodified,
    /// The control key and no other.
    Ctrl,
    /// Any other set of modifiers.
    Other,
}

/// A key press.
#[derive(Clone, Copy, PartialEq, Eq, Structural, Debug)]
pub struct KeyEvent {
    /// Which key was pressed.
    pub key: KeyCode,
    /// Which modifiers are down.
    pub modifiers: KeyModifiers,
}

/// What a key press asks of the supervisor.
#[derive(Clone, Copy, PartialEq, Eq, Structural, Debug)]
pub enum MintakaInputEvent {
    ToggleAutofocus,
    FocusProcessUp,
    FocusProcessDown,
    ScrollPageUp,
    ScrollPageDown,
    ScrollLineUp,
    ScrollLineDown,
    LeaveHistory,
    RestartProcess,
    EnterProcess,
    LeaveProcess,
    Quit,
    SendToFocusedProcess(KeyEvent),
}

/// The bindings of the main mode.
pub open spec fn spec_read_main_key(key_event: KeyEvent) -> Option<MintakaInputEvent> {
    match (key_event.key, key_event.modifiers) {
        (KeyCode::Char('a'), KeyModifiers::Unmodified) => Some(MintakaInputEvent::ToggleAutofocus),
        (KeyCode::UpArrow, KeyModifiers::Unmodified) => Some(MintakaInputEvent::FocusProcessUp),
        (KeyCode::DownArrow, KeyModifiers::Unmodified) => Some(MintakaInputEvent::FocusProcessDown),
        (KeyCode::PageUp, KeyModifiers::Unmodified) => Some(MintakaInputEvent::ScrollPageUp),
        (KeyCode::PageDown, KeyModifiers::Unmodified) => Some(MintakaInputEvent::ScrollPageDown),
        (KeyCode::Char('r'), KeyModifiers::Unmodified) => Some(MintakaInputEvent::RestartProcess),
        (KeyCode::Char('e'), KeyModifiers::Ctrl) => Some(MintakaInputEvent::EnterProcess),
        (KeyCode::Char('c'), KeyModifiers::Ctrl) => Some(MintakaInputEvent::Quit),
        _ => None,
    }
}

/// The bindings while input is forwarded: one key leaves the mode, every
/// other key goes to the focused process.
pub open spec fn spec_read_forwarded_key(key_event: KeyEvent) -> Option<MintakaInputEvent> {
    match (key_event.key, key_event.modifiers) {
        (KeyCode::Char('e'), KeyModifiers::Ctrl) => Some(MintakaInputEvent::LeaveProcess),
        _ => Some(MintakaInputEvent::SendToFocusedProcess(key_event)),
    }
}

/// The bindings while looking through the history.
pub open spec fn spec_read_history_key(key_event: KeyEvent) -> Option<MintakaInputEvent> {
    match (key_event.key, key_event.modifiers) {
        (KeyCode::Char('q'), KeyModifiers::Unmodified) => Some(MintakaInputEvent::LeaveHistory),
        (KeyCode::PageUp, KeyModifiers::Unmodified) => Some(MintakaInputEvent::ScrollPageUp),
        (KeyCode::PageDown, KeyModifiers::Unmodified) => Some(MintakaInputEvent::ScrollPageDown),
        (KeyCode::UpArrow, KeyModifiers::Unmodified) => Some(MintakaInputEvent::ScrollLineUp),
        (KeyCode::DownArrow, KeyModifiers::Unmodified) => Some(MintakaInputEvent::ScrollLineDown),
        _ => None,
    }
}

/// What a key press means in each mode.
pub open spec fn spec_read_key_event(key_event: KeyEvent, mode: MintakaMode) -> Option<
    MintakaInputEvent,
> {
    match mode {
        MintakaMode::Main => spec_read_main_key(key_event),
        MintakaMode::ForwardInputToFocusedProcess => spec_read_forwarded_key(key_event),
        MintakaMode::History => spec_read_history_key(key_event),
    }
}

/// What a key press means in the mode that the supervisor is in.
pub fn read_key_event(key_event: KeyEvent, mode: MintakaMode) -> (event: Option<MintakaInputEvent>)
    ensures
        event == spec_read_key_event(key_event, mode),
{
    match mode {
        MintakaMode::Main => match key_event {
            KeyEvent { key: KeyCode::Char('a'), modifiers: KeyModifiers::Unmodified } => Some(
                MintakaInputEvent::ToggleAutofocus,
            ),
            KeyEvent { key: KeyCode::UpArrow, modifiers: KeyModifiers::Unmodified } => Some(
                MintakaInputEvent::FocusProcessUp,
            ),
            KeyEvent { key: KeyCode::DownArrow, modifiers: KeyModifiers::Unmodified } => Some(
                MintakaInputEvent::FocusProcessDown,
            ),
            KeyEvent { key: KeyCode::PageUp, modifiers: KeyModifiers::Unmodified } => Some(
                MintakaInputEvent::ScrollPageUp,
            ),
            KeyEvent { key: KeyCode::PageDown, modifiers: KeyModifiers::Unmodified } => Some(
                MintakaInputEvent::ScrollPageDown,
            ),
            KeyEvent { key: KeyCode::Char('r'), modifiers: KeyModifiers::Unmodified } => Some(
                MintakaInputEvent::RestartProcess,
            ),
            KeyEvent { key: KeyCode::Char('e'), modifiers: KeyModifiers::Ctrl } => Some(
                MintakaInputEvent::EnterProcess,
            ),
            KeyEvent { key: KeyCode::Char('c'), modifiers: KeyModifiers::Ctrl } => Some(
                MintakaInputEvent::Quit,
            ),
            _ => None,
        },
        MintakaMode::ForwardInputToFocusedProcess => match key_event {
            KeyEvent { key: KeyCode::Char('e'), modifiers: KeyModifiers::Ctrl } => Some(
                MintakaInputEvent::LeaveProcess,
            ),
            _ => Some(MintakaInputEvent::SendToFocusedProcess(key_event)),
        },
        MintakaMode::History => match key_event {
            KeyEvent { key: KeyCode::Char('q'), modifiers: KeyModifiers::Unmodified } => Some(
                MintakaInputEvent::LeaveHistory,
            ),
            KeyEvent { key: KeyCode::PageUp, modifiers: KeyModifiers::Unmodified } => Some(
                MintakaInputEvent::ScrollPageUp,
            ),
            KeyEvent { key: KeyCode::PageDown, modifiers: KeyModifiers::Unmodified } => Some(
                MintakaInputEvent::ScrollPageDown,
            ),
            KeyEvent { key: KeyCode::UpArrow, modifiers: KeyModifiers::Unmodified } => Some(
                MintakaInputEvent::ScrollLineUp,
            ),
            KeyEvent { key: KeyCode::DownArrow, modifiers: KeyModifiers::Unmodified } => Some(
                MintakaInputEvent::ScrollLineDown,
            ),
            _ => None,
        },
    }
}

/// The keys that the status bar names in each mode, each with what it
/// does.
pub open spec fn spec_describe(mode: MintakaMode, autofocus_enabled: bool) -> Seq<
    (Seq<char>, Seq<char>),
> {
    match mode {
        MintakaMode::Main => seq![
            (
                " a"@,
                if autofocus_enabled {
                    "Autofocus (On) "@
                } else {
                    "Autofocus (Off)"@
                },
            ),
            ("\u{2191}\u{2193}"@, "Focus process"@),
            ("PgUp"@, "Page up"@),
            (" r"@, "Restart process"@),
            ("^e"@, "Enter process"@),
            ("^c"@, "Quit"@),
        ],
        MintakaMode::ForwardInputToFocusedProcess => seq![("^e"@, "Leave process"@)],
        MintakaMode::History => seq![
            (" q"@, "Leave history"@),
            ("PgUp"@, "Page up"@),
            ("PgDn"@, "Page down"@),
            ("\u{2191}\u{2193}"@, "Line up/down"@),
        ],
    }
}

/// The texts of a list of pairs of strings.
pub open spec fn spec_pair_texts(pairs: Seq<(&'static str, &'static str)>) -> Seq<
    (Seq<char>, Seq<char>),
> {
    pairs.map_values(|pair: (&'static str, &'static str)| (pair.0@, pair.1@))
}

/// The keys that the status bar names, each with what it does.
pub fn describe(mode: MintakaMode, autofocus_enabled: bool) -> (keys: Vec<
    (&'static str, &'static str),
>)
    ensures
        spec_pair_texts(keys@) == spec_describe(mode, autofocus_enabled),
{
    let keys = match mode {
        MintakaMode::Main => {
            let autofocus_str = if autofocus_enabled {
                "Autofocus (On) "
            } else {
                "Autofocus (Off)"
            };
            vec![
                (" a", autofocus_str),
                ("\u{2191}\u{2193}", "Focus process"),
                ("PgUp", "Page up"),
                (" r", "Restart process"),
                ("^e", "Enter process"),
                ("^c", "Quit"),
            ]
        },
        MintakaMode::ForwardInputToFocusedProcess => {
            vec![("^e", "Leave process")]
        },
        MintakaMode::History => {
            vec![
                (" q", "Leave history"),
                ("PgUp", "Page up"),
                ("PgDn", "Page down"),
                ("\u{2191}\u{2193}", "Line up/down"),
            ]
        },
    };
    assert(spec_pair_texts(keys@) =~= spec_describe(mode, autofocus_enabled));
    keys
}

} // verus!
