//! The configuration that the supervisor is started with.

use vstd::prelude::*;
use vstd::string::StringExecFns;
use crate::patterns::{pattern_compiles, LinePattern};
use crate::process_statuses::{AnalyzerView, ProcessStatusAnalyzer};

verus! {

/// The error pattern of the `tsc-watch` preset. Its first group is the
/// number of errors that the compiler found.
pub const TSC_WATCH_ERROR_REGEX: &'static str =
    " Found ([0-9]+) error[s]?\\. Watching for file changes\\.";

/// The text of an optional string.
pub open spec fn opt_text(text: Option<String>) -> Option<Seq<char>> {
    match text {
        Some(text) => Some(text@),
        None => None,
    }
}

/// The texts of a list of strings.
pub open spec fn texts(strings: Seq<String>) -> Seq<Seq<char>> {
    strings.map_values(|s: String| s@)
}

/// The parts of a list, with one space between each two.
pub open spec fn joined_by_space(parts: Seq<Seq<char>>) -> Seq<char>
    decreases parts.len(),
{
    if parts.len() == 0 {
        Seq::empty()
    } else if parts.len() == 1 {
        parts[0]
    } else {
        joined_by_space(parts.drop_last()) + seq![' '] + parts.last()
    }
}

/// A built-in kind of process, which brings its own patterns.
#[derive(Clone, Copy, PartialEq, Eq, Structural, Debug)]
pub enum ProcessTypeConfig {
    TscWatch,
}

impl ProcessTypeConfig {
    /// The text of the preset's success pattern: it has none.
    pub open spec fn spec_success_regex(&self) -> Option<Seq<char>> {
        None
    }

    /// The text of the preset's error pattern.
    pub open spec fn spec_error_regex(&self) -> Option<Seq<char>> {
        Some(TSC_WATCH_ERROR_REGEX@)
    }

    /// The text of the preset's success pattern.
    pub fn success_regex(&self) -> (pattern: Option<&'static str>)
        ensures
            pattern is None,
            self.spec_success_regex() is None,
    {
        None
    }

    /// The text of the preset's error pattern.
    pub fn error_regex(&self) -> (pattern: Option<&'static str>)
        ensures
            pattern matches Some(text) && Some(text@) == self.spec_error_regex(),
    {
        Some(TSC_WATCH_ERROR_REGEX)
    }
}

/// Which of a process's two patterns is meant.
#[derive(Clone, Copy, PartialEq, Eq, Structural, Debug)]
pub enum RegexKind {
    Success,
    Error,
}

/// One process of the configuration.
#[derive(Clone, Debug, PartialEq, Eq)]
pub struct ProcessConfig {
    /// The executable, then its arguments.
    pub command: Vec<String>,
    /// Where the process runs, relative to where the supervisor started.
    pub working_directory: Option<String>,
    /// The name that the process is shown and referred to by.
    pub name: Option<String>,
    pub process_type: Option<ProcessTypeConfig>,
    /// The name of the process whose success starts this one.
    pub after: Option<String>,
    pub autostart: Option<bool>,
    pub success_regex: Option<String>,
    pub error_regex: Option<String>,
}

impl ProcessConfig {
    /// The display name: the configured one, else the command line.
    pub open spec fn spec_name(&self) -> Seq<char> {
        match self.name {
            Some(name) => name@,
            None => joined_by_space(texts(self.command@)),
        }
    }

    /// A process starts by itself unless it is told otherwise or waits for
    /// another.
    pub open spec fn spec_autostart(&self) -> bool {
        match self.autostart {
            Some(autostart) => autostart,
            None => self.after is None,
        }
    }

    /// The text of the success pattern in force: the preset's, where a
    /// preset is named.
    pub open spec fn spec_success_regex(&self) -> Option<Seq<char>> {
        match self.process_type {
            Some(process_type) => process_type.spec_success_regex(),
            None => opt_text(self.success_regex),
        }
    }

    /// The text of the error pattern in force: the preset's, where a preset
    /// is named.
    pub open spec fn spec_error_regex(&self) -> Option<Seq<char>> {
        match self.process_type {
            Some(process_type) => process_type.spec_error_regex(),
            None => opt_text(self.error_regex),
        }
    }

    /// The patterns in force, as an analyzer shows them.
    pub open spec fn spec_analyzer(&self) -> AnalyzerView {
        AnalyzerView {
            success_regex: self.spec_success_regex(),
            error_regex: self.spec_error_regex(),
        }
    }

    /// The kind of the first pattern in force that does not compile, the
    /// success pattern before the error pattern.
    pub open spec fn spec_malformed(&self) -> Option<RegexKind> {
        if self.spec_success_regex() matches Some(text) && !pattern_compiles(text) {
            Some(RegexKind::Success)
        } else if self.spec_error_regex() matches Some(text) && !pattern_compiles(text) {
            Some(RegexKind::Error)
        } else {
            None
        }
    }

    /// The name that the process is shown and referred to by.
    pub fn name(&self) -> (name: String)
        ensures
            name@ == self.spec_name(),
    {
        match &self.name {
            Some(name) => name.clone(),
            None => {
                let mut joined = String::new();
                let mut i: usize = 0;
                while i < self.command.len()
                    invariant
                        i <= self.command.len(),
                        joined@ == joined_by_space(texts(self.command@).take(i as int)),
                    decreases self.command.len() - i,
                {
                    proof {
                        reveal_strlit(" ");
                        let parts = texts(self.command@);
                        assert(parts.take(i + 1).drop_last() == parts.take(i as int));
                        assert(parts.take(i + 1).last() == self.command@[i as int]@);
                        assert(" "@ == seq![' ']);
                    }
                    if i > 0 {
                        joined.append(" ");
                    }
                    joined.append(self.command[i].as_str());
                    i += 1;
                }
                assert(texts(self.command@).take(i as int) == texts(self.command@));
                joined
            },
        }
    }

    /// Whether the process is started without waiting to be asked.
    pub fn autostart(&self) -> (autostart: bool)
        ensures
            autostart == self.spec_autostart(),
    {
        match self.autostart {
            None => self.after.is_none(),
            Some(autostart) => autostart,
        }
    }

    /// Compile the patterns in force. They come back as an analyzer where
    /// each of them compiles; else the first text that does not compile is
    /// reported by its kind, the success pattern before the error pattern.
    pub fn process_status_analyzer(&self) -> (analyzer: Result<ProcessStatusAnalyzer, RegexKind>)
        ensures
            match self.spec_malformed() {
                Some(kind) => analyzer == Err::<ProcessStatusAnalyzer, RegexKind>(kind),
                None => analyzer matches Ok(compiled) && compiled@ == self.spec_analyzer(),
            },
    {
        let (success_text, error_text): (Option<&str>, Option<&str>) = match &self.process_type {
            None => (
                match &self.success_regex {
                    Some(text) => Some(text.as_str()),
                    None => None,
                },
                match &self.error_regex {
                    Some(text) => Some(text.as_str()),
                    None => None,
                },
            ),
            Some(process_type) => (process_type.success_regex(), process_type.error_regex()),
        };
        let success = match success_text {
            Some(text) => Some(LinePattern::new(text)),
            None => None,
        };
        let error = match error_text {
            Some(text) => Some(LinePattern::new(text)),
            None => None,
        };
        ProcessStatusAnalyzer::from_compiled(success, error)
    }
}

/// A configuration that has been checked: every process has a command,
/// and every pattern in force compiles.
#[derive(Debug, PartialEq, Eq)]
pub struct MintakaConfig {
    pub processes: Vec<ProcessConfig>,
}

/// Why a configuration is refused.
#[derive(Clone, Copy, PartialEq, Eq, Structural, Debug)]
pub enum ConfigError {
    /// The process with this index has no command.
    MissingCommand { process_index: usize },
    /// A pattern of the process with this index does not compile.
    MalformedRegex { process_index: usize, kind: RegexKind },
}

/// What is wrong with one process, given what compiling its patterns
/// gave: a missing command is reported before a pattern.
pub open spec fn spec_check_process(
    process_index: usize,
    process_config: &ProcessConfig,
    malformed: Option<RegexKind>,
) -> Result<(), ConfigError> {
    if process_config.command@.len() == 0 {
        Err(ConfigError::MissingCommand { process_index })
    } else {
        match malformed {
            Some(kind) => Err(ConfigError::MalformedRegex { process_index, kind }),
            None => Ok(()),
        }
    }
}

/// The kind of the pattern that did not compile, if one did not.
pub open spec fn spec_malformed(analyzer: Result<ProcessStatusAnalyzer, RegexKind>) -> Option<
    RegexKind,
> {
    match analyzer {
        Ok(_) => None,
        Err(kind) => Some(kind),
    }
}

/// What is wrong with the first of the first `count` processes that has
/// something wrong with it.
pub open spec fn spec_first_error(processes: Seq<ProcessConfig>, count: nat) -> Option<ConfigError>
    decreases count,
{
    if count == 0 {
        None
    } else {
        match spec_first_error(processes, (count - 1) as nat) {
            Some(error) => Some(error),
            None => match spec_check_process(
                (count - 1) as usize,
                &processes[count - 1],
                processes[count - 1].spec_malformed(),
            ) {
                Ok(_) => None,
                Err(error) => Some(error),
            },
        }
    }
}

/// Whether a process has a command and no pattern in force that does not
/// compile.
pub open spec fn spec_well_formed(process_config: ProcessConfig) -> bool {
    process_config.command@.len() > 0 && process_config.spec_malformed() is None
}

/// Check one process of a configuration, given what compiling its
/// patterns gave.
pub fn check_process(
    process_index: usize,
    process_config: &ProcessConfig,
    analyzer: &Result<ProcessStatusAnalyzer, RegexKind>,
) -> (checked: Result<(), ConfigError>)
    ensures
        checked == spec_check_process(process_index, process_config, spec_malformed(*analyzer)),
{
    if process_config.command.len() == 0 {
        return Err(ConfigError::MissingCommand { process_index });
    }
    match analyzer {
        Ok(_) => Ok(()),
        Err(kind) => Err(ConfigError::MalformedRegex { process_index, kind: *kind }),
    }
}

/// Check the processes of a configuration, in their order. A
/// configuration is accepted where every process has a command and every
/// pattern in force compiles; else the first process that has something
/// wrong with it is reported, a missing command before a pattern and the
/// success pattern before the error pattern.
pub fn load_config(processes: Vec<ProcessConfig>) -> (config: Result<MintakaConfig, ConfigError>)
    ensures
        match spec_first_error(processes@, processes@.len()) {
            Some(error) => config == Err::<MintakaConfig, ConfigError>(error),
            None => config matches Ok(loaded) && loaded.processes == processes,
        },
        config is Ok <==> (forall|i: int|
            0 <= i < processes@.len() ==> spec_well_formed(#[trigger] processes@[i])),
{
    let mut i: usize = 0;
    while i < processes.len()
        invariant
            i <= processes@.len(),
            spec_first_error(processes@, i as nat) is None,
            forall|j: int| 0 <= j < i ==> spec_well_formed(#[trigger] processes@[j]),
        decreases processes@.len() - i,
    {
        let analyzer = processes[i].process_status_analyzer();
        match check_process(i, &processes[i], &analyzer) {
            Ok(()) => {},
            Err(error) => {
                proof {
                    lemma_first_error_stays(processes@, (i + 1) as nat, processes@.len());
                    assert(!spec_well_formed(processes@[i as int]));
                }
                return Err(error);
            },
        }
        i += 1;
    }
    Ok(MintakaConfig { processes })
}

/// Once a process has something wrong with it, looking at more processes
/// does not change which one is reported.
proof fn lemma_first_error_stays(processes: Seq<ProcessConfig>, count: nat, more: nat)
    requires
        count <= more,
        spec_first_error(processes, count) is Some,
    ensures
        spec_first_error(processes, more) == spec_first_error(processes, count),
    decreases more,
{
    if count < more {
        lemma_first_error_stays(processes, count, (more - 1) as nat);
    }
}

} // verus!
