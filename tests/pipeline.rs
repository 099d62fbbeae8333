use workflows_lint::config::{load_manifest_refs, ConfigError};
use workflows_lint::diagnostics::{
    classify_lines, classify_output, invocation_diagnostics, is_benign, BENIGN_PATTERN,
};
use workflows_lint::paths::resolve_paths;
use workflows_lint::run::{prepare_run, LintError, LintRun, Outcome};

fn exited(success: bool, stdout: &str) -> Outcome {
    Outcome::Exited { success, stdout: stdout.as_bytes().to_vec() }
}

#[test]
fn empty_manifest_list_runs_nothing() {
    let run = prepare_run("manifests: []\n", "/repo").unwrap();
    assert_eq!(run.next_manifest(), None);
    assert!(run.succeeded());
    assert_eq!(run.exit_code(), 0);
}

#[test]
fn missing_key_means_no_manifests() {
    let refs = load_manifest_refs("other: 1\n").unwrap();
    assert!(refs.is_empty());
    let run = prepare_run("other:\n  - x.yaml\n", "/repo").unwrap();
    assert_eq!(run.next_manifest(), None);
    assert_eq!(run.exit_code(), 0);
}

#[test]
fn non_mapping_document_has_no_manifests() {
    let refs = load_manifest_refs("- a.yaml\n").unwrap();
    assert!(refs.is_empty());
}

#[test]
fn single_passing_manifest() {
    let mut run = prepare_run("manifests: [\"a.yaml\"]\n", "/repo").unwrap();
    assert_eq!(run.next_manifest(), Some("/repo/a.yaml".to_string()));
    let found = run.record(exited(true, "ignored\nnoise\n")).unwrap();
    assert!(found.errors.is_empty());
    assert!(found.warnings.is_empty());
    assert_eq!(run.next_manifest(), None);
    assert!(run.errors().is_empty());
    assert_eq!(run.exit_code(), 0);
}

#[test]
fn failing_manifest_keeps_real_errors_in_order() {
    let mut run = prepare_run("manifests: [\"a.yaml\", \"b.yaml\"]\n", "/repo").unwrap();
    assert_eq!(run.next_manifest(), Some("/repo/a.yaml".to_string()));
    run.record(exited(true, "")).unwrap();
    assert_eq!(run.next_manifest(), Some("/repo/b.yaml".to_string()));
    let found = run
        .record(exited(false, "line1\ncouldn't find cluster workflow template foo\nline3"))
        .unwrap();
    assert_eq!(found.errors, vec!["line1".to_string(), "line3".to_string()]);
    assert_eq!(found.warnings.len(), 1);
    assert_eq!(run.next_manifest(), None);
    assert_eq!(run.errors(), &vec!["line1".to_string(), "line3".to_string()]);
    assert!(!run.succeeded());
    assert_eq!(run.exit_code(), 1);
}

#[test]
fn errors_accumulate_in_manifest_order() {
    let mut run = prepare_run("manifests:\n  - one.yaml\n  - two.yaml\n", "base").unwrap();
    run.record(exited(false, "first a\nfirst b\n")).unwrap();
    run.record(exited(false, "second\n")).unwrap();
    let expected: Vec<String> = vec!["first a".into(), "first b".into(), "second".into()];
    assert_eq!(run.errors(), &expected);
    assert_eq!(run.exit_code(), 1);
}

#[test]
fn validator_not_started_aborts_the_run() {
    let mut run = prepare_run("manifests: [a.yaml, b.yaml]\n", "/repo").unwrap();
    let r = run.record(Outcome::NotStarted { message: "not found".to_string() });
    match r {
        Err(LintError::Invocation { path, message }) => {
            assert_eq!(path, "/repo/a.yaml");
            assert_eq!(message, "not found");
        }
        _ => panic!("expected an invocation error"),
    }
    assert_eq!(run.next_manifest(), None);
    assert!(!run.succeeded());
    assert_eq!(run.exit_code(), 1);
}

#[test]
fn non_string_item_is_a_config_error() {
    let r = load_manifest_refs("manifests: [a.yaml, 3, b.yaml]\n");
    assert!(matches!(r, Err(ConfigError::NotAString(1))));
    let r = prepare_run("manifests: [a.yaml, {x: 1}]\n", "/repo");
    assert!(matches!(r, Err(LintError::Config(ConfigError::NotAString(1)))));
}

#[test]
fn non_sequence_value_is_a_config_error() {
    let r = load_manifest_refs("manifests: a.yaml\n");
    assert!(matches!(r, Err(ConfigError::NotASequence)));
    let r = load_manifest_refs("manifests:\n");
    assert!(matches!(r, Err(ConfigError::NotASequence)));
}

#[test]
fn empty_config_is_an_error() {
    assert!(matches!(load_manifest_refs(""), Err(ConfigError::Empty)));
    assert!(matches!(load_manifest_refs("~\n"), Err(ConfigError::Empty)));
    assert!(matches!(load_manifest_refs("# only a comment\n"), Err(ConfigError::Empty)));
}

#[test]
fn malformed_yaml_is_a_parse_error() {
    let r = load_manifest_refs("manifests: [a.yaml\n");
    assert!(matches!(r, Err(ConfigError::Parse(_))));
}

#[test]
fn only_first_document_counts() {
    let refs = load_manifest_refs("manifests: [a.yaml]\n---\nmanifests: [b.yaml, c.yaml]\n")
        .unwrap();
    assert_eq!(refs, vec!["a.yaml".to_string()]);
}

#[test]
fn references_keep_their_order() {
    let refs = load_manifest_refs("manifests:\n  - z.yaml\n  - dir/a.yaml\n  - m.yaml\n").unwrap();
    assert_eq!(refs, vec!["z.yaml".to_string(), "dir/a.yaml".to_string(), "m.yaml".to_string()]);
}

#[test]
fn paths_are_joined_to_the_base() {
    let refs = vec!["a.yaml".to_string(), "sub/b.yaml".to_string(), "/abs/c.yaml".to_string()];
    let paths = resolve_paths("/repo", &refs);
    assert_eq!(
        paths,
        vec!["/repo/a.yaml".to_string(), "/repo/sub/b.yaml".to_string(), "/abs/c.yaml".to_string()]
    );
    assert!(resolve_paths("/repo", &Vec::new()).is_empty());
}

#[test]
fn benign_pattern_is_matched_as_substring() {
    assert!(is_benign(BENIGN_PATTERN));
    assert!(is_benign("x: couldn't find cluster workflow template \"base\""));
    assert!(!is_benign("couldn't find workflow template foo"));
    assert!(!is_benign(""));
}

#[test]
fn empty_lines_are_not_errors() {
    let found = classify_output("\nreal error\n\r\n\nanother\n");
    assert_eq!(found.errors, vec!["real error".to_string(), "another".to_string()]);
    assert!(found.warnings.is_empty());
}

#[test]
fn crlf_endings_are_removed() {
    let found = classify_output("one\r\ntwo\r\n");
    assert_eq!(found.errors, vec!["one".to_string(), "two".to_string()]);
}

#[test]
fn benign_lines_become_warnings() {
    let lines = vec![
        "couldn't find cluster workflow template a".to_string(),
        "bad".to_string(),
        "also couldn't find cluster workflow template b".to_string(),
    ];
    let found = classify_lines(&lines);
    assert_eq!(found.errors, vec!["bad".to_string()]);
    assert_eq!(found.warnings, vec![lines[0].clone(), lines[2].clone()]);
}

#[test]
fn successful_invocation_reports_nothing() {
    let found = invocation_diagnostics(true, b"error: something\n");
    assert!(found.errors.is_empty());
    assert!(found.warnings.is_empty());
}

#[test]
fn failed_invocation_output_is_decoded() {
    let found = invocation_diagnostics(false, &[b'a', 0xff, b'\n', b'b']);
    assert_eq!(found.errors, vec!["a\u{fffd}".to_string(), "b".to_string()]);
}

#[test]
fn reruns_give_identical_results() {
    let text = "manifests: [a.yaml, b.yaml]\n";
    let mut results = Vec::new();
    for _ in 0..2 {
        let mut run = prepare_run(text, "/repo").unwrap();
        run.record(exited(false, "e1\ncouldn't find cluster workflow template x\n")).unwrap();
        run.record(exited(false, "e2")).unwrap();
        results.push((run.errors().clone(), run.exit_code()));
    }
    assert_eq!(results[0], results[1]);
    assert_eq!(results[0].1, 1);
}

#[test]
fn start_over_explicit_paths() {
    let mut run = LintRun::start(vec!["p1".to_string()]);
    assert_eq!(run.next_manifest(), Some("p1".to_string()));
    run.record(exited(false, "")).unwrap();
    assert_eq!(run.exit_code(), 0);
}
