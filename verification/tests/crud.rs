use script_engine::{require_existing, AppError, CreateScriptRequest, UpdateScriptRequest};

#[test]
fn create_request_with_a_simple_name_is_accepted() {
    let request = CreateScriptRequest { name: "job.py".to_string(), code: "print(1)".to_string() };
    assert_eq!(request.check(), Ok(()));
}

#[test]
fn create_request_with_a_path_is_refused() {
    let request =
        CreateScriptRequest { name: "../job.py".to_string(), code: "print(1)".to_string() };
    assert_eq!(
        request.check(),
        Err(AppError::InvalidScriptName("Name must be a simple .py filename".to_string()))
    );
}

#[test]
fn update_needs_an_existing_file() {
    let request = UpdateScriptRequest { code: "print(2)".to_string() };
    assert_eq!(request.code, "print(2)");
    assert_eq!(require_existing("job.py", true), Ok(()));
    assert_eq!(
        require_existing("job.py", false),
        Err(AppError::ScriptNotFound("job.py".to_string()))
    );
    assert_eq!(require_existing("not a script", true), Ok(()));
}
