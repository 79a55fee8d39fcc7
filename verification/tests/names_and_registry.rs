use script_engine::{
    check_script_name, is_script_file, is_valid_script_name, AppError, ScriptRegistry,
};

fn names(list: &[&str]) -> Vec<String> {
    list.iter().map(|name| name.to_string()).collect()
}

#[test]
fn simple_script_names_are_valid() {
    assert!(is_valid_script_name("job.py"));
    assert!(is_valid_script_name("a.b.py"));
    assert!(is_valid_script_name(".py"));
    assert!(is_valid_script_name("héllo wörld.py"));
}

#[test]
fn names_with_separators_are_invalid() {
    assert!(!is_valid_script_name("dir/job.py"));
    assert!(!is_valid_script_name("/job.py"));
    assert!(!is_valid_script_name("dir\\job.py"));
    assert!(!is_valid_script_name("../job.py"));
}

#[test]
fn names_without_the_extension_are_invalid() {
    assert!(!is_valid_script_name(""));
    assert!(!is_valid_script_name("py"));
    assert!(!is_valid_script_name("job"));
    assert!(!is_valid_script_name("job.txt"));
    assert!(!is_valid_script_name("job.py "));
    assert!(!is_valid_script_name("job.PY"));
    assert!(!is_valid_script_name("jobpy"));
}

#[test]
fn check_script_name_reports_the_reason() {
    assert_eq!(check_script_name("job.py"), Ok(()));
    assert_eq!(
        check_script_name("a/b.py"),
        Err(AppError::InvalidScriptName("Name must be a simple .py filename".to_string()))
    );
    assert_eq!(
        check_script_name("job.sh"),
        Err(AppError::InvalidScriptName("Name must be a simple .py filename".to_string()))
    );
}

#[test]
fn script_files_need_something_before_the_dot() {
    assert!(is_script_file("job.py"));
    assert!(is_script_file("a.b.py"));
    assert!(is_script_file("..py"));
    assert!(is_script_file("dir\\job.py"));
    assert!(!is_script_file(".py"));
    assert!(!is_script_file("py"));
    assert!(!is_script_file("job.pyc"));
    assert!(!is_script_file("job.py.bak"));
    assert!(!is_script_file(""));
}

#[test]
fn script_file_test_agrees_with_path_extension() {
    let candidates = [
        "job.py", ".py", "..py", "a.b.py", "a.py.txt", "py", "", "x", "a.", "a.p", "a.pyy",
        "ä.py", "日本語.py", ".hidden", ".hidden.py", "UPPER.PY", "a b.py",
    ];
    for candidate in candidates {
        let by_std = std::path::Path::new(candidate).extension().and_then(|ext| ext.to_str())
            == Some("py");
        assert_eq!(is_script_file(candidate), by_std, "{:?}", candidate);
    }
}

#[test]
fn new_registry_is_empty() {
    let registry = ScriptRegistry::new();
    assert_eq!(registry.len(), 0);
    assert!(registry.list().is_empty());
    assert!(!registry.contains("job.py"));
}

#[test]
fn refresh_keeps_scripts_in_scan_order() {
    let mut registry = ScriptRegistry::new();
    let count = registry.refresh(Some(names(&[
        "b.py", "notes.txt", "a.py", ".py", "README", "c.py", "d.pyc",
    ])));
    assert_eq!(count, 3);
    assert_eq!(registry.list(), names(&["b.py", "a.py", "c.py"]));
    assert!(registry.contains("a.py"));
    assert!(!registry.contains("notes.txt"));
    assert!(!registry.contains(".py"));
}

#[test]
fn refresh_replaces_what_was_known() {
    let mut registry = ScriptRegistry::new();
    registry.refresh(Some(names(&["a.py", "b.py"])));
    let count = registry.refresh(Some(names(&["c.py"])));
    assert_eq!(count, 1);
    assert_eq!(registry.list(), names(&["c.py"]));
    assert!(!registry.contains("a.py"));
}

#[test]
fn failed_scan_leaves_registry_empty() {
    let mut registry = ScriptRegistry::new();
    registry.refresh(Some(names(&["a.py", "b.py"])));
    let count = registry.refresh(None);
    assert_eq!(count, 0);
    assert!(registry.list().is_empty());
}

#[test]
fn register_adds_a_name_once() {
    let mut registry = ScriptRegistry::new();
    registry.register("a.py");
    registry.register("b.py");
    registry.register("a.py");
    assert_eq!(registry.list(), names(&["a.py", "b.py"]));
    assert_eq!(registry.len(), 2);
}

#[test]
fn unregister_forgets_a_name() {
    let mut registry = ScriptRegistry::new();
    registry.refresh(Some(names(&["a.py", "b.py", "c.py"])));
    registry.unregister("b.py");
    assert_eq!(registry.list(), names(&["a.py", "c.py"]));
    registry.unregister("missing.py");
    assert_eq!(registry.list(), names(&["a.py", "c.py"]));
}

#[test]
fn unregister_forgets_every_occurrence() {
    let mut registry = ScriptRegistry::new();
    registry.refresh(Some(names(&["a.py", "b.py", "a.py"])));
    assert_eq!(registry.len(), 3);
    registry.unregister("a.py");
    assert_eq!(registry.list(), names(&["b.py"]));
    assert!(!registry.contains("a.py"));
}

#[test]
fn contains_compares_whole_names() {
    let mut registry = ScriptRegistry::new();
    registry.register("job.py");
    assert!(registry.contains("job.py"));
    assert!(!registry.contains("./job.py"));
    assert!(!registry.contains("job.p"));
    assert!(!registry.contains("Job.py"));
}
