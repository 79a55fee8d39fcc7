use bytes::Bytes;
use script_engine::{fingerprint, AppError};
use std::collections::hash_map::DefaultHasher;
use std::hash::{Hash, Hasher};

fn every_error() -> Vec<AppError> {
    vec![
        AppError::ScriptNotFound("job.py".to_string()),
        AppError::InvalidScriptName("Name must be a simple .py filename".to_string()),
        AppError::Io("No such file or directory (os error 2)".to_string()),
        AppError::Json("key must be a string".to_string()),
        AppError::Utf8("invalid utf-8 sequence of 1 bytes from index 0".to_string()),
        AppError::Timeout,
        AppError::Internal("unexpected state".to_string()),
    ]
}

#[test]
fn error_messages() {
    let messages: Vec<String> = every_error().iter().map(|error| error.message()).collect();
    assert_eq!(
        messages,
        vec![
            "Script 'job.py' not found",
            "Script name invalid: Name must be a simple .py filename",
            "IO error: No such file or directory (os error 2)",
            "JSON error: key must be a string",
            "UTF-8 error: invalid utf-8 sequence of 1 bytes from index 0",
            "Script execution timed out",
            "Internal error: unexpected state",
        ]
    );
}

#[test]
fn error_status_codes() {
    let codes: Vec<u16> = every_error().iter().map(|error| error.status_code()).collect();
    assert_eq!(codes, vec![404, 400, 500, 400, 500, 504, 500]);
}

#[test]
fn error_responses() {
    let responses: Vec<(u16, String)> =
        every_error().into_iter().map(|error| error.into_response()).collect();
    let expected = vec![
        (404, "Script 'job.py' not found"),
        (400, "Name must be a simple .py filename"),
        (500, "IO error: No such file or directory (os error 2)"),
        (400, "Invalid JSON: key must be a string"),
        (500, "UTF-8 error: invalid utf-8 sequence of 1 bytes from index 0"),
        (504, "Script execution timed out"),
        (500, "unexpected state"),
    ];
    assert_eq!(responses.len(), expected.len());
    for (response, (code, body)) in responses.iter().zip(expected) {
        assert_eq!(response.0, code);
        assert_eq!(response.1, body);
    }
}

#[test]
fn error_message_with_empty_name() {
    assert_eq!(AppError::ScriptNotFound(String::new()).message(), "Script '' not found");
}

#[test]
fn error_clone_is_equal() {
    for error in every_error() {
        assert_eq!(error.clone(), error);
    }
}

fn args(list: &[&str]) -> Vec<String> {
    list.iter().map(|arg| arg.to_string()).collect()
}

fn hashed_by_std(args: &Vec<String>, input: &Bytes) -> u64 {
    let mut hasher = DefaultHasher::new();
    args.hash(&mut hasher);
    input.hash(&mut hasher);
    hasher.finish()
}

#[test]
fn fingerprint_is_deterministic() {
    let first = fingerprint(&args(&["--fast", "x"]), &Bytes::from(b"{\"a\":1}".to_vec()));
    let second = fingerprint(&args(&["--fast", "x"]), &Bytes::from_static(b"{\"a\":1}"));
    assert_eq!(first, second);
}

#[test]
fn fingerprint_tells_invocations_apart() {
    let input = Bytes::from_static(b"null");
    let base = fingerprint(&args(&["ab", "c"]), &input);
    assert_ne!(base, fingerprint(&args(&["a", "bc"]), &input));
    assert_ne!(base, fingerprint(&args(&["c", "ab"]), &input));
    assert_ne!(base, fingerprint(&args(&["ab", "c", ""]), &input));
    assert_ne!(base, fingerprint(&args(&["ab", "c"]), &Bytes::from_static(b"nul")));
    assert_ne!(base, fingerprint(&args(&["ab", "c"]), &Bytes::new()));
    assert_ne!(
        fingerprint(&args(&[]), &Bytes::from_static(b"a\xffb")),
        fingerprint(&args(&["a"]), &Bytes::from_static(b"b"))
    );
}

#[test]
fn fingerprint_reads_the_whole_payload() {
    let shared = Bytes::from(b"0123456789".to_vec());
    let part = shared.slice(2..5);
    assert_eq!(fingerprint(&args(&[]), &part), fingerprint(&args(&[]), &Bytes::from_static(b"234")));
    assert_ne!(fingerprint(&args(&[]), &part), fingerprint(&args(&[]), &shared));
}

#[test]
fn fingerprint_is_the_standard_hash_of_arguments_and_payload() {
    let cases: Vec<(Vec<String>, Bytes)> = vec![
        (args(&[]), Bytes::new()),
        (args(&[]), Bytes::from_static(b"{}")),
        (args(&["one"]), Bytes::from_static(b"null")),
        (args(&["--flag", "", "värde", "日本"]), Bytes::from(vec![0u8, 255, 128, 7])),
    ];
    for (args, input) in cases {
        assert_eq!(fingerprint(&args, &input), hashed_by_std(&args, &input));
    }
}
