//! Classification of one completed line of a process's output.

use vstd::prelude::*;
use crate::config::RegexKind;
use crate::patterns::{pattern_capture, pattern_matches, LinePattern, PatternError};
use crate::text::{is_blank, parse_u64, spec_is_blank, spec_parse_u64};

verus! {

/// The result of analysing a line.
#[derive(Clone, Copy, PartialEq, Eq, Structural, Debug)]
pub enum LineAnalysis {
    /// The line represents neither a success nor an error.
    Running,
    /// The line represents a success.
    Success,
    /// The line represents an error.
    Errors { error_count: Option<u64> },
}

impl LineAnalysis {
    /// What a line means whose error pattern matched with `count` as the
    /// text of its first group: a count of zero is the success that some
    /// watchers report as "0 errors".
    pub open spec fn spec_from_error_match(count: Option<Seq<char>>) -> LineAnalysis {
        let error_count = match count {
            Some(text) => spec_parse_u64(text),
            None => None,
        };
        if error_count == Some(0u64) {
            LineAnalysis::Success
        } else {
            LineAnalysis::Errors { error_count }
        }
    }

    /// Classify a line that the error pattern matched, from the text of the
    /// pattern's first group.
    pub fn from_error_match(count: Option<&str>) -> (analysis: LineAnalysis)
        ensures
            analysis == Self::spec_from_error_match(
                match count {
                    Some(text) => Some(text@),
                    None => None,
                },
            ),
    {
        let error_count = match count {
            Some(text) => parse_u64(text),
            None => None,
        };
        match error_count {
            Some(0) => LineAnalysis::Success,
            _ => LineAnalysis::Errors { error_count },
        }
    }
}

/// The patterns that tell a success line and an error line of one process.
pub struct ProcessStatusAnalyzer {
    pub success_regex: Option<LinePattern>,
    pub error_regex: Option<LinePattern>,
}

/// The texts of an analyzer's two patterns.
pub struct AnalyzerView {
    pub success_regex: Option<Seq<char>>,
    pub error_regex: Option<Seq<char>>,
}

/// The text of a pattern that may be absent.
pub open spec fn opt_pattern(pattern: Option<LinePattern>) -> Option<Seq<char>> {
    match pattern {
        Some(pattern) => Some(pattern@),
        None => None,
    }
}

/// The text of a pattern that was to be compiled, where it compiled.
pub open spec fn opt_compiled(compiled: Option<Result<LinePattern, PatternError>>) -> Option<
    Seq<char>,
> {
    match compiled {
        Some(Ok(pattern)) => Some(pattern@),
        _ => None,
    }
}

impl View for ProcessStatusAnalyzer {
    type V = AnalyzerView;

    open spec fn view(&self) -> AnalyzerView {
        AnalyzerView {
            success_regex: opt_pattern(self.success_regex),
            error_regex: opt_pattern(self.error_regex),
        }
    }
}

impl AnalyzerView {
    /// The meaning of a completed line. A blank line carries no signal. The
    /// error pattern is asked first, and its first group is the error
    /// count; then the success pattern; any other line shows that the
    /// process is alive.
    pub open spec fn analyze_line(self, last_line: Seq<char>) -> Option<LineAnalysis> {
        if spec_is_blank(last_line) {
            None
        } else if self.error_regex is Some && pattern_capture(
            self.error_regex->0,
            last_line,
            1,
        ) is Some {
            Some(
                LineAnalysis::spec_from_error_match(
                    pattern_capture(self.error_regex->0, last_line, 1)->0,
                ),
            )
        } else if self.success_regex is Some && pattern_matches(self.success_regex->0, last_line) {
            Some(LineAnalysis::Success)
        } else {
            Some(LineAnalysis::Running)
        }
    }
}

impl ProcessStatusAnalyzer {
    /// Put an analyzer together from what compiling its two patterns gave.
    /// A success pattern that did not compile is reported before an error
    /// pattern that did not.
    pub fn from_compiled(
        success: Option<Result<LinePattern, PatternError>>,
        error: Option<Result<LinePattern, PatternError>>,
    ) -> (analyzer: Result<ProcessStatusAnalyzer, RegexKind>)
        ensures
            success matches Some(Err(_)) ==> analyzer == Err::<ProcessStatusAnalyzer, RegexKind>(
                RegexKind::Success,
            ),
            !(success matches Some(Err(_))) && (error matches Some(Err(_))) ==> analyzer == Err::<
                ProcessStatusAnalyzer,
                RegexKind,
            >(RegexKind::Error),
            !(success matches Some(Err(_))) && !(error matches Some(Err(_))) ==> (analyzer matches Ok(
                compiled,
            ) && compiled@ == (AnalyzerView {
                success_regex: opt_compiled(success),
                error_regex: opt_compiled(error),
            })),
    {
        let success_regex = match success {
            Some(Ok(pattern)) => Some(pattern),
            Some(Err(_)) => {
                return Err(RegexKind::Success);
            },
            None => None,
        };
        let error_regex = match error {
            Some(Ok(pattern)) => Some(pattern),
            Some(Err(_)) => {
                return Err(RegexKind::Error);
            },
            None => None,
        };
        Ok(ProcessStatusAnalyzer { success_regex, error_regex })
    }

    /// Classify the most recent completed line of output.
    pub fn analyze_line(&self, last_line: &str) -> (analysis: Option<LineAnalysis>)
        ensures
            analysis == self@.analyze_line(last_line@),
    {
        if is_blank(last_line) {
            return None;
        }
        if let Some(error_regex) = &self.error_regex {
            match error_regex.capture(last_line, 1) {
                None => {},
                Some(count) => {
                    return Some(
                        match &count {
                            Some(text) => LineAnalysis::from_error_match(Some(text.as_str())),
                            None => LineAnalysis::from_error_match(None),
                        },
                    );
                },
            }
        }
        if let Some(success_regex) = &self.success_regex {
            if success_regex.is_match(last_line) {
                return Some(LineAnalysis::Success);
            }
        }
        Some(LineAnalysis::Running)
    }
}

} // verus!
