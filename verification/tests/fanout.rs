use bytes::Bytes;
use script_engine::fanout::is_space;
use script_engine::{
    collect_results, failure_entry, parse_targets, plan_fan_out, resolve_targets, run_input,
    AppError, AppState, RunQuery, RunRequest, ScriptResult,
};
use serde_json::{Number, Value};

fn names(list: &[&str]) -> Vec<String> {
    list.iter().map(|name| name.to_string()).collect()
}

fn result(stdout: &str, stderr: &str, exit_code: i32) -> ScriptResult {
    ScriptResult {
        stdout: stdout.to_string(),
        stderr: stderr.to_string(),
        exit_code,
        timed_out: false,
    }
}

fn engine() -> AppState {
    let mut state = AppState::new(4, 30);
    state.scan_scripts(Some(names(&["a.py", "b.py"])));
    state
}

fn object() -> Value {
    let mut fields = serde_json::Map::new();
    fields.insert("n".to_string(), Value::Number(Number::from(1)));
    fields.insert("s".to_string(), Value::String("x".to_string()));
    Value::Object(fields)
}

#[test]
fn whitespace_is_what_std_says() {
    for code in 0..=0x10ffffu32 {
        if let Some(c) = char::from_u32(code) {
            assert_eq!(is_space(c), c.is_whitespace(), "U+{:04X}", code);
        }
    }
}

#[test]
fn targets_are_split_and_trimmed() {
    assert_eq!(parse_targets("a.py,b.py"), names(&["a.py", "b.py"]));
    assert_eq!(parse_targets(" a.py ,\tb.py\n"), names(&["a.py", "b.py"]));
    assert_eq!(parse_targets("a.py"), names(&["a.py"]));
    assert_eq!(parse_targets("a b.py , c"), names(&["a b.py", "c"]));
    assert_eq!(parse_targets("\u{3000}a.py\u{a0},\u{2003}b.py"), names(&["a.py", "b.py"]));
}

#[test]
fn empty_pieces_are_left_out() {
    assert_eq!(parse_targets(""), names(&[]));
    assert_eq!(parse_targets(","), names(&[]));
    assert_eq!(parse_targets(" , ,,  "), names(&[]));
    assert_eq!(parse_targets("a.py,,b.py,"), names(&["a.py", "b.py"]));
    assert_eq!(parse_targets(",a.py"), names(&["a.py"]));
}

#[test]
fn repeated_targets_are_kept() {
    assert_eq!(parse_targets("a.py,a.py"), names(&["a.py", "a.py"]));
}

#[test]
fn targets_agree_with_split_and_trim() {
    let lists = [
        "", " ", ",", "a", "a,b", " a , b ", ",,a,,", "a,\u{85}b\u{2028}", "x\u{1680},\u{205f}y",
        "é,ü ,ß", "a, ,b", "a ,b, c ,", "\t\n\r", "a\u{200b},b",
    ];
    for list in lists {
        let expected: Vec<String> = list
            .split(',')
            .map(|piece| piece.trim().to_string())
            .filter(|piece| !piece.is_empty())
            .collect();
        assert_eq!(parse_targets(list), expected, "{:?}", list);
    }
}

#[test]
fn query_names_its_targets() {
    let state = engine();
    let query = RunQuery { names: Some("b.py, missing.py".to_string()) };
    assert_eq!(resolve_targets(&state, &query), names(&["b.py", "missing.py"]));
}

#[test]
fn query_without_names_targets_every_script() {
    let state = engine();
    assert_eq!(resolve_targets(&state, &RunQuery { names: None }), names(&["a.py", "b.py"]));
    let empty = AppState::new(4, 30);
    assert_eq!(resolve_targets(&empty, &RunQuery { names: None }), names(&[]));
}

#[test]
fn query_with_empty_names_targets_nothing() {
    let state = engine();
    assert_eq!(resolve_targets(&state, &RunQuery { names: Some(" , ".to_string()) }), names(&[]));
}

#[test]
fn run_input_takes_bytes_and_arguments() {
    let made = run_input(Some(names(&["-v"])), Ok(b"[1,2]".to_vec())).expect("encoded");
    assert_eq!(made.args, names(&["-v"]));
    assert_eq!(made.input, Bytes::from_static(b"[1,2]"));
    let made = run_input(None, Ok(Vec::new())).expect("encoded");
    assert_eq!(made.args, names(&[]));
    assert_eq!(made.input, Bytes::new());
}

#[test]
fn run_input_reports_the_encoder_error() {
    let made = run_input(Some(names(&["-v"])), Err("key must be a string".to_string()));
    assert_eq!(made.unwrap_err(), AppError::Json("key must be a string".to_string()));
}

#[test]
fn request_is_encoded_as_json() {
    let request = RunRequest { data: object(), args: Some(names(&["--x"])) };
    let made = request.into_input().expect("encoded");
    assert_eq!(made.args, names(&["--x"]));
    assert_eq!(made.input, Bytes::from_static(b"{\"n\":1,\"s\":\"x\"}"));
}

#[test]
fn request_without_arguments_has_none() {
    let made = RunRequest { data: Value::Null, args: None }.into_input().expect("encoded");
    assert_eq!(made.args, names(&[]));
    assert_eq!(made.input, Bytes::from_static(b"null"));
    let made = RunRequest { data: Value::Array(vec![Value::Bool(true)]), args: Some(vec![]) }
        .into_input()
        .expect("encoded");
    assert_eq!(made.args, names(&[]));
    assert_eq!(made.input, Bytes::from_static(b"[true]"));
}

#[test]
fn plan_without_targets_encodes_nothing() {
    let state = AppState::new(4, 30);
    let plan = plan_fan_out(
        &state,
        &RunQuery { names: None },
        RunRequest { data: object(), args: None },
    )
    .expect("planned");
    assert!(plan.targets.is_empty());
    assert!(plan.input.is_none());
}

#[test]
fn plan_with_targets_has_the_input() {
    let state = engine();
    let plan = plan_fan_out(
        &state,
        &RunQuery { names: Some("b.py,a.py".to_string()) },
        RunRequest { data: Value::String("hi".to_string()), args: Some(names(&["1"])) },
    )
    .expect("planned");
    assert_eq!(plan.targets, names(&["b.py", "a.py"]));
    let input = plan.input.expect("targets are named");
    assert_eq!(input.args, names(&["1"]));
    assert_eq!(input.input, Bytes::from_static(b"\"hi\""));
}

#[test]
fn failure_entries() {
    assert_eq!(
        failure_entry(&AppError::ScriptNotFound("b.py".to_string())),
        result("", "Error: Script 'b.py' not found", -1)
    );
    assert_eq!(
        failure_entry(&AppError::Timeout),
        result("", "Error: Script execution timed out", -1)
    );
    assert_eq!(
        failure_entry(&AppError::Io("Broken pipe".to_string())),
        result("", "Error: IO error: Broken pipe", -1)
    );
    assert_eq!(
        failure_entry(&AppError::Utf8("invalid".to_string())),
        result("", "Error: UTF-8 error: invalid", -1)
    );
    assert_eq!(
        failure_entry(&AppError::Json("bad".to_string())),
        result("", "Error: JSON error: bad", -1)
    );
    assert_eq!(
        failure_entry(&AppError::InvalidScriptName("no".to_string())),
        result("", "Error: Script name invalid: no", -1)
    );
    assert_eq!(
        failure_entry(&AppError::Internal("oops".to_string())),
        result("", "Error: Internal error: oops", -1)
    );
}

#[test]
fn missing_target_does_not_affect_its_sibling() {
    let mut state = AppState::new(4, 30);
    state.scan_scripts(Some(names(&["a.py"])));
    let mut outcomes = Vec::new();
    for target in ["a.py", "b.py"] {
        let outcome = match state.start_run(target, vec![], Bytes::from_static(b"{}")) {
            Ok(_) => Ok(result("from a", "", 0)),
            Err(error) => Err(error),
        };
        outcomes.push((target.to_string(), outcome));
    }
    let response = collect_results(outcomes);
    assert_eq!(response.results.len(), 2);
    assert_eq!(response.get("a.py"), Some(&result("from a", "", 0)));
    assert_eq!(response.get("b.py"), Some(&result("", "Error: Script 'b.py' not found", -1)));
    assert_eq!(response.get("c.py"), None);

    let alone = collect_results(vec![("a.py".to_string(), Ok(result("from a", "", 0)))]);
    assert_eq!(alone.get("a.py"), response.get("a.py"));
}

#[test]
fn entries_keep_the_order_of_the_targets() {
    let response = collect_results(vec![
        ("b.py".to_string(), Err(AppError::Timeout)),
        ("a.py".to_string(), Ok(result("a", "", 0))),
        ("c.py".to_string(), Err(AppError::Io("spawn failed".to_string()))),
    ]);
    assert_eq!(
        response.results,
        vec![
            ("b.py".to_string(), result("", "Error: Script execution timed out", -1)),
            ("a.py".to_string(), result("a", "", 0)),
            ("c.py".to_string(), result("", "Error: IO error: spawn failed", -1)),
        ]
    );
}

#[test]
fn last_entry_of_a_repeated_target_counts() {
    let response = collect_results(vec![
        ("a.py".to_string(), Ok(result("first", "", 0))),
        ("b.py".to_string(), Ok(result("b", "", 0))),
        ("a.py".to_string(), Err(AppError::Timeout)),
    ]);
    assert_eq!(response.results.len(), 3);
    assert_eq!(response.get("a.py"), Some(&result("", "Error: Script execution timed out", -1)));
    assert_eq!(response.get("b.py"), Some(&result("b", "", 0)));
}

#[test]
fn no_outcomes_give_an_empty_response() {
    let response = collect_results(Vec::new());
    assert!(response.results.is_empty());
    assert_eq!(response.get("a.py"), None);
}
