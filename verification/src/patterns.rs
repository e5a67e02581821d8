//! Line patterns: regular expressions of the `regex` crate, held together
//! with the text they were compiled from.

use vstd::prelude::*;

verus! {

/// `regex::Regex`, a compiled regular expression. Nothing inside it is
/// known here.
#[verifier::external_type_specification]
#[verifier::external_body]
pub struct ExRegex(regex::Regex);

/// `regex::Error`, the reason why a text did not compile. Nothing inside it
/// is known here.
#[verifier::external_type_specification]
#[verifier::external_body]
pub struct ExRegexError(regex::Error);

/// Whether `source` is a regular expression that the `regex` crate
/// compiles with its default options.
pub uninterp spec fn pattern_compiles(source: Seq<char>) -> bool;

/// Whether the regular expression written as `pattern` has a match anywhere
/// in `haystack`.
pub uninterp spec fn pattern_matches(pattern: Seq<char>, haystack: Seq<char>) -> bool;

/// What capture group `group` holds in the first match of the regular
/// expression written as `pattern` in `haystack`: `None` where there is no
/// match, `Some(None)` where the expression has no such group or the group
/// took no part in the match, else the text that the group matched.
pub uninterp spec fn pattern_capture(
    pattern: Seq<char>,
    haystack: Seq<char>,
    group: nat,
) -> Option<Option<Seq<char>>>;

/// A compiled regular expression. The only way to make one is `compile`,
/// so `regex` is always what `source` compiles to with the crate's default
/// options.
pub struct LinePattern {
    source: String,
    regex: regex::Regex,
}

impl View for LinePattern {
    type V = Seq<char>;

    closed spec fn view(&self) -> Seq<char> {
        self.source@
    }
}

/// A text that is no regular expression, or one too large to compile.
#[derive(Debug)]
pub struct PatternError {
    /// The text that was refused.
    pub source: String,
}

impl LinePattern {
    /// Compile `source`. Whether a text compiles is for the `regex` crate
    /// to say; what comes back holds the text that was handed in.
    pub fn new(source: &str) -> (compiled: Result<LinePattern, PatternError>)
        ensures
            compiled is Ok <==> pattern_compiles(source@),
            compiled matches Ok(pattern) ==> pattern@ == source@,
            compiled matches Err(error) ==> error.source@ == source@,
    {
        match LinePattern::compile(source) {
            Ok(pattern) => Ok(pattern),
            Err(_) => Err(PatternError { source: source.to_owned() }),
        }
    }

    /// The text that the pattern was compiled from.
    pub fn as_str(&self) -> (source: &str)
        ensures
            source@ == self@,
    {
        self.source.as_str()
    }

    /// Calls `regex::Regex::new`, which compiles the text or says why not.
    /// A pattern that comes back is one of exactly this text.
    #[verifier::external_body]
    pub(crate) fn compile(source: &str) -> (compiled: Result<LinePattern, regex::Error>)
        ensures
            compiled is Ok <==> pattern_compiles(source@),
            compiled matches Ok(pattern) ==> pattern@ == source@,
    {
        regex::Regex::new(source).map(|regex| LinePattern { source: source.to_owned(), regex })
    }

    /// Calls `regex::Regex::is_match`, which says whether the expression
    /// matches anywhere in the haystack.
    #[verifier::external_body]
    pub(crate) fn is_match(&self, haystack: &str) -> (found: bool)
        ensures
            found == pattern_matches(self@, haystack@),
    {
        self.regex.is_match(haystack)
    }

    /// Calls `regex::Regex::captures`, which searches for the first match,
    /// and hands out the text of one of its groups as an owned string: the
    /// group is taken with `regex::Captures::get`, which gives nothing for
    /// a group that the expression lacks or that took no part in the match,
    /// and its text with `regex::Match::as_str`.
    #[verifier::external_body]
    pub(crate) fn capture(&self, haystack: &str, group: usize) -> (captured: Option<Option<String>>)
        ensures
            captured.deep_view() == pattern_capture(self@, haystack@, group as nat),
    {
        self.regex.captures(haystack).map(
            |captures| captures.get(group).map(|found| found.as_str().to_owned()),
        )
    }
}

} // verus!
