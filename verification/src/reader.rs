//! What the reader of one process instance makes of the instance's output:
//! the bytes are parsed into terminal actions, the printed text is gathered
//! into lines, and each completed line is classified.
//!
//! The parser is never fed the one header that would switch it to the
//! control mode of tmux: a guard follows the bytes and cancels that header
//! at its last byte.

use vstd::prelude::*;
use vstd::string::StringExecFns;
use termwiz::escape::parser::Parser;
use termwiz::escape::{Action, ControlCode, Esc, EscCode};
use crate::process_statuses::{AnalyzerView, LineAnalysis, ProcessStatusAnalyzer};
use crate::statuses::{ProcessInstanceId, ProcessStatus, SuccessId};
use crate::text::push_char;

verus! {

/// `termwiz::escape::parser::Parser`, which turns bytes into terminal
/// actions and remembers what it has been fed. Nothing inside it is known
/// here.
#[verifier::external_type_specification]
#[verifier::external_body]
pub struct ExParser(Parser);

/// `termwiz::escape::Action`, one terminal action. Nothing inside it is
/// known here.
#[verifier::external_type_specification]
#[verifier::external_body]
pub struct ExAction(Action);

/// What a terminal action means for the line that is being printed.
#[derive(Debug, PartialEq, Eq)]
pub enum LineEvent {
    /// A character was printed.
    Print(char),
    /// A string was printed.
    PrintString(String),
    /// The line ended with a line feed.
    LineFeed,
    /// The line ended with a carriage return.
    CarriageReturn,
    /// The line ended with a full reset of the terminal.
    FullReset,
    /// Anything else: it leaves the line as it is.
    Other,
}

impl LineEvent {
    /// Whether the event completes the line.
    pub open spec fn ends_line(&self) -> bool {
        *self is LineFeed || *self is CarriageReturn || *self is FullReset
    }
}

/// The byte that is fed in place of one that is refused: it cancels
/// whatever sequence the parser is in.
pub const CANCEL: u8 = 0x18;

/// Where in the header of a device control string a parser is: past the
/// introducer of the string and before its final byte.
#[derive(Clone, Copy, PartialEq, Eq, Structural, Debug)]
pub enum Header {
    /// Not in a header.
    Outside,
    /// Just past the introducer.
    Entry,
    /// Among the parameters.
    Param,
    /// Among the intermediate bytes that follow the parameters.
    Intermediate,
}

/// What the parameters of a header are so far, as far as it matters
/// whether they are the single number 1000.
#[derive(Clone, Copy, PartialEq, Eq, Structural, Debug)]
pub enum Parameter {
    /// No parameter yet.
    Missing,
    /// One number. A number above 1000 is held as 1001: no digit brings it
    /// back down.
    Single(u16),
    /// Anything that more digits cannot turn into a single number.
    Other,
}

/// What is known, from the bytes alone, of where the parser may be. It
/// errs on the side of caution: wherever the parser is in the header of a
/// device control string, `header` and `parameter` say exactly where, and
/// wherever it has just read an escape character, `escape` is set. The
/// converse does not hold.
#[derive(Clone, Copy, PartialEq, Eq, Structural, Debug)]
pub struct Guard {
    /// The parser may have just read an escape character.
    pub escape: bool,
    /// Where in a header the parser is, if it is in one.
    pub header: Header,
    /// What the parameters of that header are so far.
    pub parameter: Parameter,
}

impl Guard {
    /// What is known of a parser that has been fed nothing.
    pub open spec fn spec_new() -> Guard {
        Guard { escape: false, header: Header::Outside, parameter: Parameter::Missing }
    }

    /// Whether a byte takes a parser out of the state after an escape
    /// character, if it is there.
    pub open spec fn spec_leaves_escape(byte: u8) -> bool {
        (0x20 <= byte <= 0x7e) || byte == 0x18 || byte == 0x1a || (0x80 <= byte <= 0x9f)
    }

    /// Whether a byte ends a header from wherever in it the parser is: a
    /// final byte, a cancel or a substitute, an escape character, or a
    /// control of the upper range.
    pub open spec fn spec_leaves_header(byte: u8) -> bool {
        (0x40 <= byte <= 0x7e) || byte == 0x18 || byte == 0x1a || byte == 0x1b || (0x80 <= byte
            <= 0x8f) || (0x91 <= byte <= 0x9f)
    }

    /// Whether a byte may take a parser into the header of a device
    /// control string: the introducer of one, as a single byte or as the
    /// letter `P` after an escape character.
    pub open spec fn spec_enters_header(self, byte: u8) -> bool {
        byte == 0x90 || (self.escape && byte == 0x50)
    }

    /// The number that `parameter` becomes with one more digit.
    pub open spec fn spec_with_digit(parameter: Parameter, digit: u8) -> Parameter {
        match parameter {
            Parameter::Missing => Parameter::Single(digit as u16),
            Parameter::Single(value) => Parameter::Single(
                if value * 10 + digit > 1000 {
                    1001u16
                } else {
                    (value * 10 + digit) as u16
                },
            ),
            Parameter::Other => Parameter::Other,
        }
    }

    /// Whether a byte is kept from the parser: the letter `p` where it
    /// ends the header of a device control string whose parameters are
    /// the single number 1000. That string would put the parser into the
    /// control mode of tmux.
    pub open spec fn spec_refuses(self, byte: u8) -> bool {
        byte == 0x70 && (self.header is Param || self.header is Intermediate) && self.parameter
            == Parameter::Single(1000)
    }

    /// Where in a header a parser is after a byte that neither enters a
    /// header nor ends one, and what the parameters are then.
    pub open spec fn spec_within_header(self, byte: u8) -> (Header, Parameter) {
        match self.header {
            Header::Outside => (Header::Outside, self.parameter),
            Header::Entry => if 0x20 <= byte <= 0x2f {
                (Header::Intermediate, self.parameter)
            } else if 0x30 <= byte <= 0x39 {
                (Header::Param, Self::spec_with_digit(self.parameter, (byte - 0x30) as u8))
            } else if byte == 0x3a {
                (Header::Outside, self.parameter)
            } else if 0x3b <= byte <= 0x3f {
                (Header::Param, Parameter::Other)
            } else {
                (Header::Entry, self.parameter)
            },
            Header::Param => if 0x20 <= byte <= 0x2f {
                (Header::Intermediate, self.parameter)
            } else if 0x30 <= byte <= 0x39 {
                (Header::Param, Self::spec_with_digit(self.parameter, (byte - 0x30) as u8))
            } else if byte == 0x3b {
                (Header::Param, Parameter::Other)
            } else if byte == 0x3a || (0x3c <= byte <= 0x3f) {
                (Header::Outside, self.parameter)
            } else {
                (Header::Param, self.parameter)
            },
            Header::Intermediate => if 0x30 <= byte <= 0x3f {
                (Header::Outside, self.parameter)
            } else {
                (Header::Intermediate, self.parameter)
            },
        }
    }

    /// What is known after a byte has been fed.
    pub open spec fn spec_after(self, byte: u8) -> Guard {
        let escape = byte == 0x1b || (self.escape && !Self::spec_leaves_escape(byte));
        if self.spec_enters_header(byte) {
            Guard { escape, header: Header::Entry, parameter: Parameter::Missing }
        } else if Self::spec_leaves_header(byte) {
            Guard { escape, header: Header::Outside, parameter: Parameter::Missing }
        } else {
            Guard {
                escape,
                header: self.spec_within_header(byte).0,
                parameter: self.spec_within_header(byte).1,
            }
        }
    }

    /// The byte that is fed for `byte`: the byte itself, or `CANCEL` where
    /// it is refused.
    pub open spec fn spec_softened(self, byte: u8) -> u8 {
        if self.spec_refuses(byte) {
            CANCEL
        } else {
            byte
        }
    }

    /// What is known of a parser that has been fed nothing.
    pub fn new() -> (guard: Guard)
        ensures
            guard == Self::spec_new(),
    {
        Guard { escape: false, header: Header::Outside, parameter: Parameter::Missing }
    }

    /// Whether a byte is kept from the parser.
    pub fn refuses(&self, byte: u8) -> (refused: bool)
        ensures
            refused == self.spec_refuses(byte),
    {
        let in_header = match self.header {
            Header::Param => true,
            Header::Intermediate => true,
            _ => false,
        };
        let thousand = match self.parameter {
            Parameter::Single(value) => value == 1000,
            _ => false,
        };
        byte == 0x70 && in_header && thousand
    }

    fn with_digit(parameter: Parameter, digit: u8) -> (with_digit: Parameter)
        requires
            digit <= 9,
        ensures
            with_digit == Self::spec_with_digit(parameter, digit),
    {
        match parameter {
            Parameter::Missing => Parameter::Single(digit as u16),
            Parameter::Single(value) => {
                if value > 1000 {
                    Parameter::Single(1001)
                } else {
                    let longer: u16 = value * 10 + digit as u16;
                    Parameter::Single(
                        if longer > 1000 {
                            1001
                        } else {
                            longer
                        },
                    )
                }
            },
            Parameter::Other => Parameter::Other,
        }
    }

    fn within_header(&self, byte: u8) -> (within: (Header, Parameter))
        ensures
            within == self.spec_within_header(byte),
    {
        match self.header {
            Header::Outside => (Header::Outside, self.parameter),
            Header::Entry => if 0x20 <= byte && byte <= 0x2f {
                (Header::Intermediate, self.parameter)
            } else if 0x30 <= byte && byte <= 0x39 {
                (Header::Param, Self::with_digit(self.parameter, byte - 0x30))
            } else if byte == 0x3a {
                (Header::Outside, self.parameter)
            } else if 0x3b <= byte && byte <= 0x3f {
                (Header::Param, Parameter::Other)
            } else {
                (Header::Entry, self.parameter)
            },
            Header::Param => if 0x20 <= byte && byte <= 0x2f {
                (Header::Intermediate, self.parameter)
            } else if 0x30 <= byte && byte <= 0x39 {
                (Header::Param, Self::with_digit(self.parameter, byte - 0x30))
            } else if byte == 0x3b {
                (Header::Param, Parameter::Other)
            } else if byte == 0x3a || (0x3c <= byte && byte <= 0x3f) {
                (Header::Outside, self.parameter)
            } else {
                (Header::Param, self.parameter)
            },
            Header::Intermediate => if 0x30 <= byte && byte <= 0x3f {
                (Header::Outside, self.parameter)
            } else {
                (Header::Intermediate, self.parameter)
            },
        }
    }

    /// What is known after a byte has been fed.
    pub fn after(&self, byte: u8) -> (guard: Guard)
        ensures
            guard == self.spec_after(byte),
    {
        let leaves_escape = (0x20 <= byte && byte <= 0x7e) || byte == 0x18 || byte == 0x1a || (0x80
            <= byte && byte <= 0x9f);
        let leaves_header = (0x40 <= byte && byte <= 0x7e) || byte == 0x18 || byte == 0x1a || byte
            == 0x1b || (0x80 <= byte && byte <= 0x8f) || (0x91 <= byte && byte <= 0x9f);
        let enters_header = byte == 0x90 || (self.escape && byte == 0x50);
        let escape = byte == 0x1b || (self.escape && !leaves_escape);
        if enters_header {
            Guard { escape, header: Header::Entry, parameter: Parameter::Missing }
        } else if leaves_header {
            Guard { escape, header: Header::Outside, parameter: Parameter::Missing }
        } else {
            let (header, parameter) = self.within_header(byte);
            Guard { escape, header, parameter }
        }
    }
}

/// What is known of a parser that has been fed `fed`, where none of these
/// bytes is one that is kept from the parser.
pub open spec fn spec_guard(fed: Seq<u8>) -> Option<Guard>
    decreases fed.len(),
{
    if fed.len() == 0 {
        Some(Guard::spec_new())
    } else {
        match spec_guard(fed.drop_last()) {
            Some(guard) => if guard.spec_refuses(fed.last()) {
                None
            } else {
                Some(guard.spec_after(fed.last()))
            },
            None => None,
        }
    }
}

/// What is fed for the first `count` of `bytes`, each byte itself or
/// `CANCEL` where it is refused, and what is known afterwards.
pub open spec fn spec_soften(guard: Guard, bytes: Seq<u8>, count: nat) -> (Guard, Seq<u8>)
    decreases count,
{
    if count == 0 {
        (guard, Seq::empty())
    } else {
        let (before, softened) = spec_soften(guard, bytes, (count - 1) as nat);
        let byte = before.spec_softened(bytes[count - 1]);
        (before.spec_after(byte), softened.push(byte))
    }
}

/// What is fed for `bytes`: the bytes themselves, but for those that are
/// kept from the parser, which give way to `CANCEL`. `guard` follows the
/// bytes that are fed.
pub fn soften(guard: &mut Guard, bytes: &[u8]) -> (softened: Vec<u8>)
    ensures
        (*final(guard), softened@) == spec_soften(*old(guard), bytes@, bytes@.len()),
        softened@.len() == bytes@.len(),
{
    let mut softened: Vec<u8> = Vec::new();
    let mut i: usize = 0;
    while i < bytes.len()
        invariant
            i <= bytes@.len(),
            softened@.len() == i,
            (*guard, softened@) == spec_soften(*old(guard), bytes@, i as nat),
        decreases bytes@.len() - i,
    {
        let byte = if guard.refuses(bytes[i]) {
            CANCEL
        } else {
            bytes[i]
        };
        *guard = guard.after(byte);
        softened.push(byte);
        i += 1;
    }
    softened
}

/// Bytes that have been softened hold none that is kept from the parser:
/// where `guard` is what is known after `fed`, what is known after the
/// softened bytes as well is what `spec_soften` says.
pub proof fn lemma_softened_is_guarded(fed: Seq<u8>, guard: Guard, bytes: Seq<u8>, count: nat)
    requires
        spec_guard(fed) == Some(guard),
        count <= bytes.len(),
    ensures
        spec_guard(fed + spec_soften(guard, bytes, count).1) == Some(
            spec_soften(guard, bytes, count).0,
        ),
    decreases count,
{
    if count == 0 {
        assert(fed + spec_soften(guard, bytes, count).1 == fed);
    } else {
        lemma_softened_is_guarded(fed, guard, bytes, (count - 1) as nat);
        let (before, softened) = spec_soften(guard, bytes, (count - 1) as nat);
        let byte = before.spec_softened(bytes[count - 1]);
        let longer = fed + softened.push(byte);
        assert(longer.drop_last() == fed + softened);
        assert(longer.last() == byte);
    }
}

/// The bytes that a parser has been fed since it was made, in their
/// order. What a parser makes of the next bytes depends on nothing else.
pub uninterp spec fn parser_fed(parser: Parser) -> Seq<u8>;

/// What the terminal actions mean for the line, one event for each action
/// and in their order, that a parser of the `termwiz` crate completes when
/// it is fed `bytes` after it has been fed `fed`.
pub uninterp spec fn parsed_events(fed: Seq<u8>, bytes: Seq<u8>) -> Seq<LineEvent>;

/// The events of a list of actions that come with their events.
pub open spec fn spec_events(parsed: Seq<(Action, LineEvent)>) -> Seq<LineEvent> {
    parsed.map_values(|pair: (Action, LineEvent)| pair.1)
}

/// Calls `termwiz::escape::parser::Parser::new`, which makes a parser that
/// has been fed nothing.
#[verifier::external_body]
fn new_parser() -> (parser: Parser)
    ensures
        parser_fed(parser) == Seq::<u8>::empty(),
{
    Parser::new()
}

/// Calls `termwiz::escape::parser::Parser::parse_as_vec`, which feeds the
/// bytes to the parser and hands out the actions that they complete. Each
/// action comes with what it means for the line: the variants of
/// `termwiz::escape::Action` are told apart, as far as lines are
/// concerned.
///
/// A device control string with the parameter 1000 and the final byte `p`
/// puts the parser into the control mode of tmux, in which it panics on
/// some lines. The parser must never have been fed a byte that may
/// complete such a header.
#[verifier::external_body]
fn parse(parser: &mut Parser, bytes: &[u8]) -> (parsed: Vec<(Action, LineEvent)>)
    requires
        spec_guard(parser_fed(*old(parser)) + bytes@) is Some,
    ensures
        parser_fed(*final(parser)) == parser_fed(*old(parser)) + bytes@,
        spec_events(parsed@) == parsed_events(parser_fed(*old(parser)), bytes@),
{
    parser.parse_as_vec(bytes).into_iter().map(|action| {
        let event = match &action {
            Action::Print(c) => LineEvent::Print(*c),
            Action::PrintString(s) => LineEvent::PrintString(s.clone()),
            Action::Control(ControlCode::LineFeed) => LineEvent::LineFeed,
            Action::Control(ControlCode::CarriageReturn) => LineEvent::CarriageReturn,
            Action::Esc(Esc::Code(EscCode::FullReset)) => LineEvent::FullReset,
            _ => LineEvent::Other,
        };
        (action, event)
    }).collect()
}

/// The status that an instance reports when it has ended: its exit code,
/// or 1 where the code could not be had.
pub open spec fn spec_exited(exit_code: Option<u32>) -> ProcessStatus {
    ProcessStatus::Exited {
        exit_code: match exit_code {
            Some(exit_code) => exit_code,
            None => 1,
        },
    }
}

/// The status that an instance reports when it has ended.
pub fn exited(exit_code: Option<u32>) -> (status: ProcessStatus)
    ensures
        status == spec_exited(exit_code),
{
    ProcessStatus::Exited {
        exit_code: match exit_code {
            Some(exit_code) => exit_code,
            None => 1,
        },
    }
}

/// The ID after `id`, where there is one: the last index has none after
/// it.
pub open spec fn spec_following(id: SuccessId) -> SuccessId {
    SuccessId { success_index: (id.success_index + 1) as u32, ..id }
}

/// The status that a completed line reports, if it says anything, and the
/// ID that the next success gets: a success takes `next_success_id` and
/// moves it on.
pub open spec fn spec_status(
    process_status_analyzer: AnalyzerView,
    last_line: Seq<char>,
    next_success_id: SuccessId,
) -> (Option<ProcessStatus>, SuccessId) {
    match process_status_analyzer.analyze_line(last_line) {
        None => (None, next_success_id),
        Some(LineAnalysis::Running) => (Some(ProcessStatus::Running), next_success_id),
        Some(LineAnalysis::Success) => (
            Some(ProcessStatus::Success(next_success_id)),
            spec_following(next_success_id),
        ),
        Some(LineAnalysis::Errors { error_count }) => (
            Some(ProcessStatus::Errors { error_count }),
            next_success_id,
        ),
    }
}

/// The status that a completed line of output reports, if the line says
/// anything. A success is given the ID `next_success_id`, which then moves
/// on to the next; so there has to be a next.
pub fn status(
    process_status_analyzer: &ProcessStatusAnalyzer,
    last_line: &str,
    next_success_id: &mut SuccessId,
) -> (status: Option<ProcessStatus>)
    requires
        old(next_success_id).success_index < u32::MAX,
    ensures
        (status, *final(next_success_id)) == spec_status(
            process_status_analyzer@,
            last_line@,
            *old(next_success_id),
        ),
{
    match process_status_analyzer.analyze_line(last_line) {
        None => None,
        Some(LineAnalysis::Running) => Some(ProcessStatus::Running),
        Some(LineAnalysis::Success) => Some(ProcessStatus::Success(next_success_id.increment())),
        Some(LineAnalysis::Errors { error_count }) => Some(ProcessStatus::Errors { error_count }),
    }
}

/// The reader of one process instance.
pub struct ProcessReader {
    process_status_analyzer: ProcessStatusAnalyzer,
    parser: Parser,
    guard: Guard,
    last_line: String,
    next_success_id: SuccessId,
}

/// A reader as contracts speak of it.
pub struct ProcessReaderView {
    pub process_status_analyzer: AnalyzerView,
    /// The bytes that the parser has been fed so far: the instance's
    /// output, softened.
    pub fed: Seq<u8>,
    /// What is known of where the parser may be.
    pub guard: Guard,
    /// What has been printed since the last line ended.
    pub last_line: Seq<char>,
    /// The ID that the next success gets.
    pub next_success_id: SuccessId,
}

impl ProcessReaderView {
    /// Whether the reader is as every reader is: what it knows of its
    /// parser is what the bytes that the parser has been fed say.
    pub open spec fn wf(self) -> bool {
        spec_guard(self.fed) == Some(self.guard)
    }

    /// What the parser is fed for `bytes` of the instance's output.
    pub open spec fn softened(self, bytes: Seq<u8>) -> Seq<u8> {
        spec_soften(self.guard, bytes, bytes.len()).1
    }

    /// The reader after its parser has been fed what is fed for `bytes`.
    pub open spec fn fed_with(self, bytes: Seq<u8>) -> ProcessReaderView {
        ProcessReaderView {
            fed: self.fed + self.softened(bytes),
            guard: spec_soften(self.guard, bytes, bytes.len()).0,
            ..self
        }
    }

    /// The reader after the line has ended, and the status that it reports
    /// for the line, if the line says anything.
    pub open spec fn line_ended(self) -> (ProcessReaderView, Option<ProcessStatus>) {
        let (status, next_success_id) = spec_status(
            self.process_status_analyzer,
            self.last_line,
            self.next_success_id,
        );
        (ProcessReaderView { last_line: Seq::empty(), next_success_id, ..self }, status)
    }

    /// The reader after one event, and the status that it reports.
    pub open spec fn observed(self, event: LineEvent) -> (ProcessReaderView, Option<ProcessStatus>) {
        match event {
            LineEvent::Print(c) => (
                ProcessReaderView { last_line: self.last_line.push(c), ..self },
                None,
            ),
            LineEvent::PrintString(s) => (
                ProcessReaderView { last_line: self.last_line + s@, ..self },
                None,
            ),
            LineEvent::LineFeed => self.line_ended(),
            LineEvent::CarriageReturn => self.line_ended(),
            LineEvent::FullReset => self.line_ended(),
            LineEvent::Other => (self, None),
        }
    }

    /// The reader after the first `count` of `events`, and the statuses
    /// that it reports, in their order.
    pub open spec fn observed_all(self, events: Seq<LineEvent>, count: nat) -> (
        ProcessReaderView,
        Seq<ProcessStatus>,
    )
        decreases count,
    {
        if count == 0 {
            (self, Seq::empty())
        } else {
            let (before, statuses) = self.observed_all(events, (count - 1) as nat);
            let (after, status) = before.observed(events[count - 1]);
            (
                after,
                match status {
                    Some(status) => statuses.push(status),
                    None => statuses,
                },
            )
        }
    }
}

impl View for ProcessReader {
    type V = ProcessReaderView;

    closed spec fn view(&self) -> ProcessReaderView {
        ProcessReaderView {
            process_status_analyzer: self.process_status_analyzer@,
            fed: parser_fed(self.parser),
            guard: self.guard,
            last_line: self.last_line@,
            next_success_id: self.next_success_id,
        }
    }
}

/// What a chunk of output came to.
pub struct Chunk {
    /// The terminal actions that the bytes completed, for the host to
    /// apply to the emulated screen.
    pub actions: Vec<Action>,
    /// What each of the actions means for the line.
    pub events: Vec<LineEvent>,
    /// How many of the events were observed, from the first on: all of
    /// them, unless the reader ran out of success IDs.
    pub observed: usize,
    /// The statuses to report, in their order.
    pub statuses: Vec<ProcessStatus>,
}

impl ProcessReader {
    /// A reader for a new instance: nothing is printed yet, and the first
    /// success will be the instance's success number 0.
    pub fn new(
        process_status_analyzer: ProcessStatusAnalyzer,
        process_instance_id: ProcessInstanceId,
    ) -> (reader: Self)
        ensures
            reader@ == (ProcessReaderView {
                process_status_analyzer: process_status_analyzer@,
                fed: Seq::empty(),
                guard: Guard::spec_new(),
                last_line: Seq::empty(),
                next_success_id: SuccessId { process_instance_id, success_index: 0 },
            }),
            reader@.wf(),
    {
        Self {
            process_status_analyzer,
            parser: new_parser(),
            guard: Guard::new(),
            last_line: String::new(),
            next_success_id: SuccessId::new(process_instance_id),
        }
    }

    /// What has been printed since the last line ended.
    pub fn last_line(&self) -> (last_line: &str)
        ensures
            last_line@ == self@.last_line,
    {
        self.last_line.as_str()
    }

    /// The ID that the next success gets.
    pub fn next_success_id(&self) -> (id: SuccessId)
        ensures
            id == self@.next_success_id,
    {
        self.next_success_id
    }

    /// Whether the reader has a success ID left after the next one, so
    /// that it can observe another event.
    pub fn can_observe(&self) -> (able: bool)
        ensures
            able == (self@.next_success_id.success_index < u32::MAX),
    {
        self.next_success_id.success_index < u32::MAX
    }

    /// Take in one event. Printed text is added to the line. The end of
    /// the line has the line classified and cleared; a success gets the
    /// next success ID, so there has to be one after it.
    pub fn observe(&mut self, event: &LineEvent) -> (status: Option<ProcessStatus>)
        requires
            old(self)@.next_success_id.success_index < u32::MAX,
        ensures
            (final(self)@, status) == old(self)@.observed(*event),
    {
        match event {
            LineEvent::Print(c) => {
                push_char(&mut self.last_line, *c);
                None
            },
            LineEvent::PrintString(s) => {
                self.last_line.append(s.as_str());
                None
            },
            LineEvent::LineFeed | LineEvent::CarriageReturn | LineEvent::FullReset => {
                let status = status(
                    &self.process_status_analyzer,
                    self.last_line.as_str(),
                    &mut self.next_success_id,
                );
                self.last_line = String::new();
                status
            },
            LineEvent::Other => None,
        }
    }

    /// Take in a chunk of the instance's output. The bytes are softened and
    /// fed to the parser, which goes on from what it has been fed before;
    /// the actions that they complete are observed one after the other, as
    /// the events that they mean for the line. A reader that has run out
    /// of success IDs observes no more.
    pub fn read(&mut self, bytes: &[u8]) -> (chunk: Chunk)
        requires
            old(self)@.wf(),
        ensures
            chunk.events@ == parsed_events(old(self)@.fed, old(self)@.softened(bytes@)),
            chunk.actions@.len() == chunk.events@.len(),
            chunk.observed <= chunk.events@.len(),
            chunk.observed < chunk.events@.len() ==> final(self)@.next_success_id.success_index
                == u32::MAX,
            (final(self)@, chunk.statuses@) == old(self)@.fed_with(bytes@).observed_all(
                chunk.events@,
                chunk.observed as nat,
            ),
            final(self)@.fed == old(self)@.fed + old(self)@.softened(bytes@),
            final(self)@.process_status_analyzer == old(self)@.process_status_analyzer,
            final(self)@.wf(),
    {
        let softened = soften(&mut self.guard, bytes);
        proof {
            lemma_softened_is_guarded(old(self)@.fed, old(self)@.guard, bytes@, bytes@.len());
        }
        let parsed = parse(&mut self.parser, softened.as_slice());
        let total = parsed.len();
        let ghost fed = self@;
        let ghost pairs = parsed@;
        let mut actions: Vec<Action> = Vec::new();
        let mut events: Vec<LineEvent> = Vec::new();
        let mut statuses: Vec<ProcessStatus> = Vec::new();
        let mut observed: usize = 0;
        for pair in it: parsed
            invariant
                it.seq() == pairs,
                pairs.len() == total,
                actions@.len() == it.index(),
                events@ == spec_events(pairs).take(it.index() as int),
                observed <= it.index(),
                observed < it.index() ==> self@.next_success_id.success_index == u32::MAX,
                (self@, statuses@) == fed.observed_all(events@, observed as nat),
                self@.fed == fed.fed,
                self@.guard == fed.guard,
                self@.process_status_analyzer == fed.process_status_analyzer,
        {
            let (action, event) = pair;
            let ghost seen = events@;
            let status = if self.can_observe() {
                observed = observed + 1;
                self.observe(&event)
            } else {
                None
            };
            actions.push(action);
            events.push(event);
            proof {
                assert(events@.drop_last() == seen);
                assert(events@ == spec_events(pairs).take(it.index() + 1));
                if observed == it.index() + 1 {
                    lemma_observed_all_prefix(fed, seen, events@, it.index() as nat);
                } else {
                    lemma_observed_all_prefix(fed, seen, events@, observed as nat);
                }
            }
            if let Some(status) = status {
                statuses.push(status);
            }
        }
        proof {
            assert(events@ == spec_events(pairs));
        }
        Chunk { actions, events, observed, statuses }
    }
}

/// What a reader makes of the first events of a list does not depend on
/// the events that follow them.
proof fn lemma_observed_all_prefix(
    reader: ProcessReaderView,
    events: Seq<LineEvent>,
    longer: Seq<LineEvent>,
    count: nat,
)
    requires
        count <= events.len() <= longer.len(),
        forall|i: int| 0 <= i < count ==> events[i] == longer[i],
    ensures
        reader.observed_all(events, count) == reader.observed_all(longer, count),
    decreases count,
{
    if count > 0 {
        lemma_observed_all_prefix(reader, events, longer, (count - 1) as nat);
    }
}

/// Whether a status is one that a reader reports for a line of this
/// instance: that the process runs, a success of this instance with an
/// index from `first` on and below `next`, or errors.
pub open spec fn spec_reported_for_line(status: ProcessStatus, first: SuccessId, next: SuccessId) -> bool {
    match status {
        ProcessStatus::Running => true,
        ProcessStatus::Success(id) => id.process_instance_id == first.process_instance_id
            && first.success_index <= id.success_index < next.success_index,
        ProcessStatus::Errors { .. } => true,
        _ => false,
    }
}

/// Over any run of events, a reader reports nothing but that the process
/// runs, its successes and its errors; each success carries the ID of the
/// reader's instance and an index of its own, in ascending order. An exit
/// is never among them: it is reported once, by `exited`, when the output
/// has ended.
pub proof fn lemma_reader_reports_lines(reader: ProcessReaderView, events: Seq<LineEvent>, count: nat)
    requires
        count <= events.len(),
        reader.next_success_id.success_index + count <= u32::MAX,
    ensures
        reader.observed_all(events, count).0.next_success_id.process_instance_id
            == reader.next_success_id.process_instance_id,
        reader.next_success_id.success_index <= reader.observed_all(
            events,
            count,
        ).0.next_success_id.success_index <= reader.next_success_id.success_index + count,
        forall|i: int|
            0 <= i < reader.observed_all(events, count).1.len() ==> spec_reported_for_line(
                #[trigger] reader.observed_all(events, count).1[i],
                reader.next_success_id,
                reader.observed_all(events, count).0.next_success_id,
            ),
        forall|i: int, j: int|
            0 <= i < j < reader.observed_all(events, count).1.len() && (
            #[trigger] reader.observed_all(events, count).1[i]) is Success && (
            #[trigger] reader.observed_all(events, count).1[j]) is Success ==> reader.observed_all(
                events,
                count,
            ).1[i]->0.success_index < reader.observed_all(events, count).1[j]->0.success_index,
    decreases count,
{
    if count > 0 {
        lemma_reader_reports_lines(reader, events, (count - 1) as nat);
        let (before, statuses) = reader.observed_all(events, (count - 1) as nat);
        let (after, status) = before.observed(events[count - 1]);
        let now = reader.observed_all(events, count).1;
        assert forall|i: int| 0 <= i < now.len() implies spec_reported_for_line(
            #[trigger] now[i],
            reader.next_success_id,
            after.next_success_id,
        ) by {
            if i < statuses.len() {
                assert(now[i] == statuses[i]);
                assert(spec_reported_for_line(
                    statuses[i],
                    reader.next_success_id,
                    before.next_success_id,
                ));
            }
        }
        assert forall|i: int, j: int|
            0 <= i < j < now.len() && (#[trigger] now[i]) is Success && (
            #[trigger] now[j]) is Success implies now[i]->0.success_index
            < now[j]->0.success_index by {
            assert(now[i] == statuses[i]);
            assert(spec_reported_for_line(
                statuses[i],
                reader.next_success_id,
                before.next_success_id,
            ));
            if j < statuses.len() {
                assert(now[j] == statuses[j]);
            }
        }
    }
}

} // verus!
