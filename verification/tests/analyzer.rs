use mintaka::config::{ProcessConfig, ProcessTypeConfig, RegexKind, TSC_WATCH_ERROR_REGEX};
use mintaka::patterns::LinePattern;
use mintaka::process_statuses::{LineAnalysis, ProcessStatusAnalyzer};

fn config(process_type: Option<ProcessTypeConfig>, success: Option<&str>, error: Option<&str>) -> ProcessConfig {
    ProcessConfig {
        command: vec!["tsc".to_owned(), "--watch".to_owned()],
        working_directory: None,
        name: None,
        process_type,
        after: None,
        autostart: None,
        success_regex: success.map(|text| text.to_owned()),
        error_regex: error.map(|text| text.to_owned()),
    }
}

fn tsc_watch() -> ProcessStatusAnalyzer {
    config(Some(ProcessTypeConfig::TscWatch), None, None).process_status_analyzer().unwrap()
}

#[test]
fn tsc_watch_zero_errors_is_success() {
    let analysis = tsc_watch().analyze_line(" Found 0 errors. Watching for file changes.");
    assert_eq!(analysis, Some(LineAnalysis::Success));
}

#[test]
fn tsc_watch_seven_errors() {
    let analysis = tsc_watch().analyze_line(" Found 7 errors. Watching for file changes.");
    assert_eq!(analysis, Some(LineAnalysis::Errors { error_count: Some(7) }));
}

#[test]
fn tsc_watch_one_error_without_plural() {
    let analysis = tsc_watch().analyze_line("[12:00:00] Found 1 error. Watching for file changes.");
    assert_eq!(analysis, Some(LineAnalysis::Errors { error_count: Some(1) }));
}

#[test]
fn tsc_watch_other_line_is_running() {
    let analysis = tsc_watch().analyze_line("Starting compilation in watch mode...");
    assert_eq!(analysis, Some(LineAnalysis::Running));
}

#[test]
fn tsc_watch_count_too_large_for_a_number() {
    let analysis = tsc_watch().analyze_line(" Found 99999999999999999999 errors. Watching for file changes.");
    assert_eq!(analysis, Some(LineAnalysis::Errors { error_count: None }));
}

#[test]
fn blank_line_says_nothing() {
    assert_eq!(tsc_watch().analyze_line(""), None);
    assert_eq!(tsc_watch().analyze_line("   \t"), None);
}

#[test]
fn without_patterns_every_line_is_running() {
    let analyzer = config(None, None, None).process_status_analyzer().unwrap();
    assert!(analyzer.success_regex.is_none());
    assert!(analyzer.error_regex.is_none());
    assert_eq!(analyzer.analyze_line("error: everything is broken"), Some(LineAnalysis::Running));
    assert_eq!(analyzer.analyze_line(" "), None);
}

#[test]
fn success_pattern_alone() {
    let analyzer = config(None, Some("^done$"), None).process_status_analyzer().unwrap();
    assert_eq!(analyzer.analyze_line("done"), Some(LineAnalysis::Success));
    assert_eq!(analyzer.analyze_line("not done"), Some(LineAnalysis::Running));
}

#[test]
fn error_pattern_is_asked_before_success_pattern() {
    let analyzer = config(None, Some("build"), Some("build failed")).process_status_analyzer().unwrap();
    assert_eq!(analyzer.analyze_line("build failed"), Some(LineAnalysis::Errors { error_count: None }));
    assert_eq!(analyzer.analyze_line("build ok"), Some(LineAnalysis::Success));
}

#[test]
fn error_pattern_without_group_has_no_count() {
    let analyzer = config(None, None, Some("error")).process_status_analyzer().unwrap();
    assert_eq!(analyzer.analyze_line("an error"), Some(LineAnalysis::Errors { error_count: None }));
}

#[test]
fn error_group_that_took_no_part_has_no_count() {
    let analyzer = config(None, None, Some("failed(?: with ([0-9]+))?")).process_status_analyzer().unwrap();
    assert_eq!(analyzer.analyze_line("failed"), Some(LineAnalysis::Errors { error_count: None }));
    assert_eq!(analyzer.analyze_line("failed with 3"), Some(LineAnalysis::Errors { error_count: Some(3) }));
    assert_eq!(analyzer.analyze_line("failed with 0"), Some(LineAnalysis::Success));
}

#[test]
fn error_group_that_is_no_number_has_no_count() {
    let analyzer = config(None, None, Some("([a-z]+) errors")).process_status_analyzer().unwrap();
    assert_eq!(analyzer.analyze_line("many errors"), Some(LineAnalysis::Errors { error_count: None }));
}

#[test]
fn first_match_decides_the_count() {
    let analyzer = config(None, None, Some("([0-9]+) errors")).process_status_analyzer().unwrap();
    assert_eq!(
        analyzer.analyze_line("3 errors, then 0 errors"),
        Some(LineAnalysis::Errors { error_count: Some(3) })
    );
}

#[test]
fn preset_overrides_configured_patterns() {
    let analyzer = config(Some(ProcessTypeConfig::TscWatch), Some("x"), Some("y"))
        .process_status_analyzer()
        .unwrap();
    assert!(analyzer.success_regex.is_none());
    assert_eq!(analyzer.error_regex.as_ref().unwrap().as_str(), TSC_WATCH_ERROR_REGEX);
    assert_eq!(analyzer.analyze_line("y"), Some(LineAnalysis::Running));
}

#[test]
fn tsc_watch_pattern_text() {
    assert_eq!(TSC_WATCH_ERROR_REGEX, " Found ([0-9]+) error[s]?\\. Watching for file changes\\.");
    assert_eq!(ProcessTypeConfig::TscWatch.error_regex(), Some(TSC_WATCH_ERROR_REGEX));
    assert_eq!(ProcessTypeConfig::TscWatch.success_regex(), None);
}

#[test]
fn malformed_success_pattern_is_reported_first() {
    let result = config(None, Some("("), Some("[")).process_status_analyzer();
    assert_eq!(result.err(), Some(RegexKind::Success));
}

#[test]
fn malformed_error_pattern_is_reported() {
    let result = config(None, Some("fine"), Some("[")).process_status_analyzer();
    assert_eq!(result.err(), Some(RegexKind::Error));
}

#[test]
fn line_pattern_keeps_its_text() {
    let pattern = LinePattern::new("a+b").unwrap();
    assert_eq!(pattern.as_str(), "a+b");
}

#[test]
fn line_pattern_refuses_malformed_text() {
    let error = LinePattern::new("a(").err().unwrap();
    assert_eq!(error.source, "a(");
}

#[test]
fn from_compiled_puts_patterns_in_their_places() {
    let analyzer =
        ProcessStatusAnalyzer::from_compiled(Some(LinePattern::new("ok")), Some(LinePattern::new("bad"))).unwrap();
    assert_eq!(analyzer.success_regex.as_ref().unwrap().as_str(), "ok");
    assert_eq!(analyzer.error_regex.as_ref().unwrap().as_str(), "bad");
}

#[test]
fn from_compiled_reports_the_kind() {
    let result = ProcessStatusAnalyzer::from_compiled(Some(LinePattern::new("(")), Some(LinePattern::new("(")));
    assert_eq!(result.err(), Some(RegexKind::Success));
    let result = ProcessStatusAnalyzer::from_compiled(None, Some(LinePattern::new("(")));
    assert_eq!(result.err(), Some(RegexKind::Error));
    let result = ProcessStatusAnalyzer::from_compiled(None, None);
    assert!(result.is_ok());
}

#[test]
fn from_error_match_parses_the_count() {
    assert_eq!(LineAnalysis::from_error_match(Some("0")), LineAnalysis::Success);
    assert_eq!(LineAnalysis::from_error_match(Some("000")), LineAnalysis::Success);
    assert_eq!(LineAnalysis::from_error_match(Some("+0")), LineAnalysis::Success);
    assert_eq!(LineAnalysis::from_error_match(Some("12")), LineAnalysis::Errors { error_count: Some(12) });
    assert_eq!(LineAnalysis::from_error_match(Some("")), LineAnalysis::Errors { error_count: None });
    assert_eq!(LineAnalysis::from_error_match(Some("twelve")), LineAnalysis::Errors { error_count: None });
    assert_eq!(LineAnalysis::from_error_match(None), LineAnalysis::Errors { error_count: None });
}
