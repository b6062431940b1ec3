use nvim_cargo_add::command::{CommandResult, Invocation};
use nvim_cargo_add::facade::{replay, Action, Call, Event, Request};
use nvim_cargo_add::outcome::{Failure, FailureKind, OperationOutcome};

fn text(s: &str) -> String {
    s.to_string()
}

fn cargo(arguments: &[&str]) -> Action {
    Action::Run(Invocation {
        program: text("cargo"),
        arguments: arguments.iter().map(|a| a.to_string()).collect(),
    })
}

fn check_manifest() -> Action {
    Action::CheckManifest { path: text("Cargo.toml") }
}

fn manifest(present: bool) -> Event {
    Event::ManifestChecked { present }
}

fn exited(succeeded: bool, stdout: &str, stderr: &str) -> Event {
    Event::Exited(CommandResult {
        succeeded,
        stdout: stdout.as_bytes().to_vec(),
        stderr: stderr.as_bytes().to_vec(),
    })
}

fn done() -> Action {
    Action::Finish(OperationOutcome::Done)
}

fn failed(kind: FailureKind, message: &str) -> Action {
    Action::Finish(OperationOutcome::Failed(Failure { kind, message: text(message) }))
}

fn lines(expected: &[&str]) -> Action {
    Action::Finish(OperationOutcome::Lines(expected.iter().map(|l| l.to_string()).collect()))
}

fn add(name: &str, version: Option<&str>, auto_save: Option<bool>) -> Request {
    Request::add_dependency(text(name), version.map(text), auto_save)
}

fn add_dev(name: &str, version: Option<&str>, auto_save: Option<bool>) -> Request {
    Request::add_dev_dependency(text(name), version.map(text), auto_save)
}

fn remove(name: &str, auto_save: Option<bool>) -> Request {
    Request::remove_dependency(text(name), auto_save)
}

#[test]
fn add_asks_for_the_manifest_first() {
    assert_eq!(replay(add("serde", None, None), &vec![]), vec![check_manifest()]);
}

#[test]
fn add_without_manifest_fails_before_spawning() {
    let actions = replay(add("serde", None, None), &vec![manifest(false)]);
    assert_eq!(
        actions,
        vec![
            check_manifest(),
            failed(FailureKind::Precondition, "Not in a Rust project directory"),
        ]
    );
    assert!(actions.iter().all(|action| !matches!(action, Action::Run(_))));
}

#[test]
fn add_dev_without_manifest_fails_before_spawning() {
    let actions = replay(add_dev("tempfile", Some("3"), Some(false)), &vec![manifest(false)]);
    assert_eq!(
        actions,
        vec![
            check_manifest(),
            failed(FailureKind::Precondition, "Not in a Rust project directory"),
        ]
    );
}

#[test]
fn remove_without_manifest_fails_before_spawning() {
    let actions = replay(
        remove("serde", None),
        &vec![manifest(false), exited(true, "", ""), exited(true, "", "")],
    );
    assert_eq!(
        actions,
        vec![
            check_manifest(),
            failed(FailureKind::Precondition, "Not in a Rust project directory"),
        ]
    );
}

#[test]
fn add_with_auto_save_formats_once_after_the_change() {
    let actions = replay(
        add("serde", None, Some(true)),
        &vec![manifest(true), exited(true, "", ""), exited(true, "", "")],
    );
    assert_eq!(
        actions,
        vec![check_manifest(), cargo(&["add", "serde"]), cargo(&["fmt"]), done()]
    );
    let formats = actions.iter().filter(|action| **action == cargo(&["fmt"])).count();
    assert_eq!(formats, 1);
}

#[test]
fn auto_save_defaults_to_true() {
    let actions = replay(
        remove("serde", None),
        &vec![manifest(true), exited(true, "", ""), exited(true, "", "")],
    );
    assert_eq!(
        actions,
        vec![check_manifest(), cargo(&["remove", "serde"]), cargo(&["fmt"]), done()]
    );
}

#[test]
fn add_without_auto_save_never_formats() {
    let actions = replay(
        add("serde", None, Some(false)),
        &vec![manifest(true), exited(true, "", ""), exited(true, "", "")],
    );
    assert_eq!(actions, vec![check_manifest(), cargo(&["add", "serde"]), done()]);
}

#[test]
fn remove_without_auto_save_never_formats() {
    let actions = replay(remove("serde", Some(false)), &vec![manifest(true), exited(true, "", "")]);
    assert_eq!(actions, vec![check_manifest(), cargo(&["remove", "serde"]), done()]);
}

#[test]
fn add_passes_the_version_after_the_name() {
    let actions = replay(add("serde", Some("1.0"), Some(false)), &vec![manifest(true)]);
    assert_eq!(
        actions,
        vec![check_manifest(), cargo(&["add", "serde", "--version", "1.0"])]
    );
}

#[test]
fn add_dev_sets_the_dev_flag_before_the_name() {
    let actions = replay(add_dev("tempfile", None, Some(false)), &vec![manifest(true)]);
    assert_eq!(actions, vec![check_manifest(), cargo(&["add", "--dev", "tempfile"])]);
    let actions = replay(add_dev("tempfile", Some("3.2"), Some(false)), &vec![manifest(true)]);
    assert_eq!(
        actions,
        vec![check_manifest(), cargo(&["add", "--dev", "tempfile", "--version", "3.2"])]
    );
}

#[test]
fn failed_add_quotes_the_standard_error() {
    let actions = replay(
        add("nonexistent", None, None),
        &vec![manifest(true), exited(false, "", "no such crate")],
    );
    assert_eq!(
        actions,
        vec![
            check_manifest(),
            cargo(&["add", "nonexistent"]),
            failed(FailureKind::Command, "cargo add failed: no such crate"),
        ]
    );
    match actions.last() {
        Some(Action::Finish(OperationOutcome::Failed(failure))) => {
            assert!(failure.message.contains("no such crate"));
        }
        other => panic!("unexpected end of the call: {:?}", other),
    }
}

#[test]
fn failed_add_dev_names_the_dev_dependency() {
    let actions = replay(
        add_dev("nonexistent", None, None),
        &vec![manifest(true), exited(false, "ignored", "boom\n")],
    );
    assert_eq!(
        actions.last(),
        Some(&failed(FailureKind::Command, "cargo add dev-dependency failed: boom\n"))
    );
}

#[test]
fn removing_an_absent_dependency_reports_the_tool_verbatim_each_time() {
    let complaint = "error: the dependency `serde` could not be found in `dependencies`\n";
    let events = vec![manifest(true), exited(false, "", complaint)];
    let first = replay(remove("serde", None), &events);
    let second = replay(remove("serde", None), &events);
    let expected = vec![
        check_manifest(),
        cargo(&["remove", "serde"]),
        failed(
            FailureKind::Command,
            "cargo remove failed: error: the dependency `serde` could not be found in `dependencies`\n",
        ),
    ];
    assert_eq!(first, expected);
    assert_eq!(second, expected);
}

#[test]
fn the_formatting_pass_does_not_run_after_a_failed_change() {
    let actions = replay(
        add("serde", None, Some(true)),
        &vec![manifest(true), exited(false, "", "nope"), exited(true, "", "")],
    );
    assert_eq!(actions.len(), 3);
    assert!(!actions.contains(&cargo(&["fmt"])));
}

#[test]
fn standard_error_that_is_not_utf8_is_decoded_lossily() {
    let result = CommandResult { succeeded: false, stdout: vec![], stderr: vec![0x66, 0xff, 0x6f] };
    let actions = replay(remove("x", None), &vec![manifest(true), Event::Exited(result)]);
    assert_eq!(
        actions.last(),
        Some(&failed(FailureKind::Command, "cargo remove failed: f\u{fffd}o"))
    );
}

#[test]
fn a_change_that_cannot_be_launched_is_a_spawn_failure() {
    let reason = "No such file or directory (os error 2)";
    let spawn_failed = Event::SpawnFailed { reason: text(reason) };
    let actions = replay(add("serde", None, None), &vec![manifest(true), spawn_failed.clone()]);
    assert_eq!(
        actions.last(),
        Some(&failed(
            FailureKind::Spawn,
            "Failed to execute cargo add: No such file or directory (os error 2)"
        ))
    );
    let actions = replay(add_dev("serde", None, None), &vec![manifest(true), spawn_failed.clone()]);
    assert_eq!(
        actions.last(),
        Some(&failed(
            FailureKind::Spawn,
            "Failed to execute cargo add: No such file or directory (os error 2)"
        ))
    );
    let actions = replay(remove("serde", None), &vec![manifest(true), spawn_failed]);
    assert_eq!(
        actions.last(),
        Some(&failed(
            FailureKind::Spawn,
            "Failed to execute cargo remove: No such file or directory (os error 2)"
        ))
    );
}

#[test]
fn a_formatting_pass_that_cannot_be_launched_is_a_format_failure() {
    let actions = replay(
        add("serde", None, None),
        &vec![
            manifest(true),
            exited(true, "", ""),
            Event::SpawnFailed { reason: text("permission denied") },
        ],
    );
    assert_eq!(
        actions,
        vec![
            check_manifest(),
            cargo(&["add", "serde"]),
            cargo(&["fmt"]),
            failed(FailureKind::Format, "Failed to format: permission denied"),
        ]
    );
}

#[test]
fn a_formatting_pass_that_exits_with_failure_is_a_format_failure() {
    let actions = replay(
        remove("serde", Some(true)),
        &vec![manifest(true), exited(true, "", ""), exited(false, "", "syntax error")],
    );
    assert_eq!(
        actions.last(),
        Some(&failed(FailureKind::Format, "cargo fmt failed: syntax error"))
    );
}

#[test]
fn list_runs_the_metadata_query_without_asking_for_the_manifest() {
    assert_eq!(
        replay(Request::list_dependencies(), &vec![]),
        vec![cargo(&["metadata", "--format-version=1", "--no-deps"])]
    );
}

#[test]
fn list_of_a_manifest_without_dependencies_is_empty() {
    let stdout = r#"{"packages":[{"name":"demo","dependencies":[]}]}"#;
    let actions = replay(Request::list_dependencies(), &vec![exited(true, stdout, "")]);
    assert_eq!(actions.last(), Some(&lines(&[])));
}

#[test]
fn list_without_a_dependency_array_is_empty() {
    for stdout in [r#"{}"#, r#"{"packages":[]}"#, r#"{"packages":[{"name":"demo"}]}"#, r#"[]"#, r#"{"packages":[{"dependencies":{}}]}"#] {
        let actions = replay(Request::list_dependencies(), &vec![exited(true, stdout, "")]);
        assert_eq!(actions.last(), Some(&lines(&[])));
    }
}

#[test]
fn list_marks_the_dev_dependency_and_not_the_normal_one() {
    let stdout = r#"{"packages":[{"name":"demo","dependencies":[
        {"name":"serde","req":"^1.0","kind":null},
        {"name":"tempfile","req":"^3","kind":"dev"}]}]}"#;
    let actions = replay(Request::list_dependencies(), &vec![exited(true, stdout, "")]);
    assert_eq!(actions.last(), Some(&lines(&["serde ^1.0\t", "tempfile ^3\t(dev)"])));
    match actions.last() {
        Some(Action::Finish(OperationOutcome::Lines(found))) => {
            assert_eq!(found.len(), 2);
            assert!(!found[0].contains("(dev)"));
            assert!(found[1].contains("(dev)"));
        }
        other => panic!("unexpected end of the call: {:?}", other),
    }
}

#[test]
fn list_fills_in_missing_names_and_requirements() {
    let stdout = r#"{"packages":[{"dependencies":[{}, {"name":7,"req":"1","kind":"build"}, {"name":"a"}]}]}"#;
    let actions = replay(Request::list_dependencies(), &vec![exited(true, stdout, "")]);
    assert_eq!(actions.last(), Some(&lines(&["unknown *\t", "unknown 1\t", "a *\t"])));
}

#[test]
fn list_reads_only_the_first_package() {
    let stdout = r#"{"packages":[
        {"dependencies":[{"name":"a","req":"1"}]},
        {"dependencies":[{"name":"b","req":"2"}]}]}"#;
    let actions = replay(Request::list_dependencies(), &vec![exited(true, stdout, "")]);
    assert_eq!(actions.last(), Some(&lines(&["a 1\t"])));
}

#[test]
fn list_reports_output_that_is_not_json() {
    let actions = replay(Request::list_dependencies(), &vec![exited(true, "not json", "")]);
    assert_eq!(
        actions.last(),
        Some(&failed(
            FailureKind::ResponseParse,
            "Failed to parse metadata: expected ident at line 1 column 2"
        ))
    );
    let actions = replay(Request::list_dependencies(), &vec![exited(true, "", "")]);
    assert_eq!(
        actions.last(),
        Some(&failed(
            FailureKind::ResponseParse,
            "Failed to parse metadata: EOF while parsing a value at line 1 column 0"
        ))
    );
}

#[test]
fn list_reports_a_failed_metadata_query() {
    let actions = replay(
        Request::list_dependencies(),
        &vec![exited(false, "{}", "error: could not find `Cargo.toml`")],
    );
    assert_eq!(
        actions.last(),
        Some(&failed(
            FailureKind::Command,
            "cargo metadata failed: error: could not find `Cargo.toml`"
        ))
    );
    let actions = replay(
        Request::list_dependencies(),
        &vec![Event::SpawnFailed { reason: text("not found") }],
    );
    assert_eq!(
        actions.last(),
        Some(&failed(FailureKind::Spawn, "Failed to execute cargo metadata: not found"))
    );
}

#[test]
fn short_queries_return_an_empty_list_without_fetching() {
    for query in ["", "a", "\u{e9}", "\u{65e5}"] {
        let events = vec![Event::Responded { body: b"{\"crates\":[]}".to_vec() }];
        let actions = replay(Request::search_crates(text(query)), &events);
        assert_eq!(actions, vec![lines(&[])]);
        assert!(actions.iter().all(|action| !matches!(action, Action::Fetch { .. })));
    }
}

#[test]
fn a_query_of_two_characters_is_fetched_with_a_page_of_ten() {
    assert_eq!(
        replay(Request::search_crates(text("ab")), &vec![]),
        vec![Action::Fetch { url: text("https://crates.io/api/v1/crates?q=ab&per_page=10") }]
    );
    assert_eq!(
        replay(Request::search_crates(text("serde json")), &vec![]),
        vec![Action::Fetch { url: text("https://crates.io/api/v1/crates?q=serde json&per_page=10") }]
    );
}

#[test]
fn search_for_serde_yields_one_line() {
    let body = r#"{"crates":[{"name":"serde","max_version":"1.0.0","downloads":100}]}"#;
    let actions = replay(
        Request::search_crates(text("serde")),
        &vec![Event::Responded { body: body.as_bytes().to_vec() }],
    );
    assert_eq!(
        actions,
        vec![
            Action::Fetch { url: text("https://crates.io/api/v1/crates?q=serde&per_page=10") },
            lines(&["serde (1.0.0)\t\t100 downloads"]),
        ]
    );
    match actions.last() {
        Some(Action::Finish(OperationOutcome::Lines(found))) => {
            assert_eq!(found.len(), 1);
            assert!(found[0].contains("serde"));
            assert!(found[0].contains("1.0.0"));
            assert!(found[0].contains("100"));
        }
        other => panic!("unexpected end of the call: {:?}", other),
    }
}

#[test]
fn search_reports_a_request_that_got_no_response() {
    let actions = replay(
        Request::search_crates(text("serde")),
        &vec![Event::RequestFailed { reason: text("connection refused") }],
    );
    assert_eq!(
        actions.last(),
        Some(&failed(FailureKind::Network, "Failed to search crates.io: connection refused"))
    );
}

#[test]
fn search_reports_a_body_that_could_not_be_read() {
    let actions = replay(
        Request::search_crates(text("serde")),
        &vec![Event::BodyFailed { reason: text("connection reset") }],
    );
    assert_eq!(
        actions.last(),
        Some(&failed(
            FailureKind::ResponseParse,
            "Failed to parse crates.io response: connection reset"
        ))
    );
}

#[test]
fn search_never_reads_a_malformed_reply_as_no_results() {
    for body in [r#"{}"#, r#"{"crates":null}"#, r#"{"crates":{}}"#, r#"[]"#, r#"{"crates":[{}]}"#] {
        let actions = replay(
            Request::search_crates(text("serde")),
            &vec![Event::Responded { body: body.as_bytes().to_vec() }],
        );
        assert_eq!(
            actions.last(),
            Some(&failed(
                FailureKind::ResponseParse,
                "Failed to parse crates.io response: unexpected shape of the reply"
            ))
        );
    }
    let actions = replay(
        Request::search_crates(text("serde")),
        &vec![Event::Responded { body: b"<html>".to_vec() }],
    );
    assert_eq!(
        actions.last(),
        Some(&failed(
            FailureKind::ResponseParse,
            "Failed to parse crates.io response: expected value at line 1 column 1"
        ))
    );
}

#[test]
fn a_report_that_answers_nothing_is_ignored() {
    let (call, _) = Call::begin(add("serde", None, None));
    let (call, action) = call.advance(&exited(true, "", ""));
    assert_eq!(action, None);
    let (call, action) = call.advance(&Event::Responded { body: vec![] });
    assert_eq!(action, None);
    let (call, action) = call.advance(&manifest(true));
    assert_eq!(action, Some(cargo(&["add", "serde"])));
    let (call, action) = call.advance(&manifest(true));
    assert_eq!(action, None);
    let (_, action) = call.advance(&exited(true, "", ""));
    assert_eq!(action, Some(cargo(&["fmt"])));
}

#[test]
fn nothing_follows_the_end_of_a_call() {
    let (call, _) = Call::begin(Request::list_dependencies());
    let (call, action) = call.advance(&exited(true, "{}", ""));
    assert_eq!(action, Some(lines(&[])));
    assert_eq!(call, Call::Finished);
    for event in [
        manifest(true),
        exited(true, "", ""),
        Event::SpawnFailed { reason: text("x") },
        Event::RequestFailed { reason: text("x") },
        Event::BodyFailed { reason: text("x") },
        Event::Responded { body: vec![] },
    ] {
        let (next, action) = Call::Finished.advance(&event);
        assert_eq!(next, Call::Finished);
        assert_eq!(action, None);
    }
}

#[test]
fn a_runtime_that_cannot_be_built_is_reported_in_its_own_words() {
    assert_eq!(
        Failure::runtime_init(text("Too many open files")),
        Failure { kind: FailureKind::RuntimeInit, message: text("Too many open files") }
    );
}
