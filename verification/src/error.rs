//! Failures of the engine and how they are reported.

use vstd::prelude::*;
use vstd::string::*;

verus! {

/// Why an operation of the engine failed.
///
/// Variants that stem from a failure observed elsewhere (`Io`, `Json`,
/// `Utf8`) carry the text of that failure.
#[derive(Debug, PartialEq, Eq)]
pub enum AppError {
    /// No script of this name is registered, or its file is missing.
    ScriptNotFound(String),
    /// The name is not a simple file name with the script extension.
    InvalidScriptName(String),
    /// The file system or the subprocess failed.
    Io(String),
    /// A payload could not be written as JSON.
    Json(String),
    /// Captured output was not valid UTF-8.
    Utf8(String),
    /// The run exceeded its deadline.
    Timeout,
    /// The engine was used out of order.
    Internal(String),
}

/// Mathematical value of an [`AppError`].
pub enum AppErrorView {
    ScriptNotFound(Seq<char>),
    InvalidScriptName(Seq<char>),
    Io(Seq<char>),
    Json(Seq<char>),
    Utf8(Seq<char>),
    Timeout,
    Internal(Seq<char>),
}

impl View for AppError {
    type V = AppErrorView;

    open spec fn view(&self) -> AppErrorView {
        match self {
            AppError::ScriptNotFound(name) => AppErrorView::ScriptNotFound(name@),
            AppError::InvalidScriptName(reason) => AppErrorView::InvalidScriptName(reason@),
            AppError::Io(reason) => AppErrorView::Io(reason@),
            AppError::Json(reason) => AppErrorView::Json(reason@),
            AppError::Utf8(reason) => AppErrorView::Utf8(reason@),
            AppError::Timeout => AppErrorView::Timeout,
            AppError::Internal(reason) => AppErrorView::Internal(reason@),
        }
    }
}

impl AppErrorView {
    /// The one-line description of the failure.
    pub open spec fn message(self) -> Seq<char> {
        match self {
            AppErrorView::ScriptNotFound(name) => "Script '"@ + name + "' not found"@,
            AppErrorView::InvalidScriptName(reason) => "Script name invalid: "@ + reason,
            AppErrorView::Io(reason) => "IO error: "@ + reason,
            AppErrorView::Json(reason) => "JSON error: "@ + reason,
            AppErrorView::Utf8(reason) => "UTF-8 error: "@ + reason,
            AppErrorView::Timeout => "Script execution timed out"@,
            AppErrorView::Internal(reason) => "Internal error: "@ + reason,
        }
    }

    /// The HTTP status code under which the failure is reported.
    pub open spec fn status(self) -> u16 {
        match self {
            AppErrorView::ScriptNotFound(_) => 404,
            AppErrorView::InvalidScriptName(_) => 400,
            AppErrorView::Io(_) => 500,
            AppErrorView::Json(_) => 400,
            AppErrorView::Utf8(_) => 500,
            AppErrorView::Timeout => 504,
            AppErrorView::Internal(_) => 500,
        }
    }

    /// The body text under which the failure is reported.
    pub open spec fn body(self) -> Seq<char> {
        match self {
            AppErrorView::ScriptNotFound(name) => "Script '"@ + name + "' not found"@,
            AppErrorView::InvalidScriptName(reason) => reason,
            AppErrorView::Io(reason) => "IO error: "@ + reason,
            AppErrorView::Json(reason) => "Invalid JSON: "@ + reason,
            AppErrorView::Utf8(reason) => "UTF-8 error: "@ + reason,
            AppErrorView::Timeout => "Script execution timed out"@,
            AppErrorView::Internal(reason) => reason,
        }
    }
}

/// `prefix` followed by `rest`.
fn prefixed(prefix: &str, rest: &String) -> (text: String)
    ensures
        text@ == prefix@ + rest@,
{
    let mut text = String::from_str(prefix);
    text.append(rest.as_str());
    text
}

/// The text that names a missing script.
fn not_found_text(name: &String) -> (text: String)
    ensures
        text@ == "Script '"@ + name@ + "' not found"@,
{
    let mut text = prefixed("Script '", name);
    text.append("' not found");
    text
}

impl AppError {
    /// The one-line description of the failure.
    pub fn message(&self) -> (text: String)
        ensures
            text@ == self@.message(),
    {
        match self {
            AppError::ScriptNotFound(name) => not_found_text(name),
            AppError::InvalidScriptName(reason) => prefixed("Script name invalid: ", reason),
            AppError::Io(reason) => prefixed("IO error: ", reason),
            AppError::Json(reason) => prefixed("JSON error: ", reason),
            AppError::Utf8(reason) => prefixed("UTF-8 error: ", reason),
            AppError::Timeout => String::from_str("Script execution timed out"),
            AppError::Internal(reason) => prefixed("Internal error: ", reason),
        }
    }

    /// The HTTP status code under which the failure is reported.
    pub fn status_code(&self) -> (code: u16)
        ensures
            code == self@.status(),
    {
        match self {
            AppError::ScriptNotFound(_) => 404,
            AppError::InvalidScriptName(_) => 400,
            AppError::Io(_) => 500,
            AppError::Json(_) => 400,
            AppError::Utf8(_) => 500,
            AppError::Timeout => 504,
            AppError::Internal(_) => 500,
        }
    }

    /// Status code and body text of the response that reports the failure.
    pub fn into_response(self) -> (response: (u16, String))
        ensures
            response.0 == self@.status(),
            response.1@ == self@.body(),
    {
        let code = self.status_code();
        let body = match self {
            AppError::ScriptNotFound(name) => not_found_text(&name),
            AppError::InvalidScriptName(reason) => reason,
            AppError::Io(reason) => prefixed("IO error: ", &reason),
            AppError::Json(reason) => prefixed("Invalid JSON: ", &reason),
            AppError::Utf8(reason) => prefixed("UTF-8 error: ", &reason),
            AppError::Timeout => String::from_str("Script execution timed out"),
            AppError::Internal(reason) => reason,
        };
        (code, body)
    }
}

impl Clone for AppError {
    fn clone(&self) -> (res: Self)
        ensures
            res == *self,
    {
        match self {
            AppError::ScriptNotFound(name) => AppError::ScriptNotFound(name.clone()),
            AppError::InvalidScriptName(reason) => AppError::InvalidScriptName(reason.clone()),
            AppError::Io(reason) => AppError::Io(reason.clone()),
            AppError::Json(reason) => AppError::Json(reason.clone()),
            AppError::Utf8(reason) => AppError::Utf8(reason.clone()),
            AppError::Timeout => AppError::Timeout,
            AppError::Internal(reason) => AppError::Internal(reason.clone()),
        }
    }
}

} // verus!
