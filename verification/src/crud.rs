//! Requests that create and update scripts, as far as the engine has a say
//! in them: which names it takes on, and what a missing file comes to.

use vstd::prelude::*;
use vstd::string::*;
use crate::error::{AppError, AppErrorView};
use crate::names::{check_script_name, invalid_name_reason, is_simple_script_name};

verus! {

/// The body of a request that creates a script.
#[derive(Debug)]
pub struct CreateScriptRequest {
    /// The file name under which the script is saved.
    pub name: String,
    /// The source text of the script.
    pub code: String,
}

/// The body of a request that replaces the source text of a script.
#[derive(Debug)]
pub struct UpdateScriptRequest {
    /// The new source text.
    pub code: String,
}

impl CreateScriptRequest {
    /// Accepts the request if its name is a simple script name. To be
    /// asked before anything is written.
    pub fn check(&self) -> (checked: Result<(), AppError>)
        ensures
            is_simple_script_name(self.name@) <==> checked is Ok,
            checked matches Err(error) ==> error@ == AppErrorView::InvalidScriptName(
                invalid_name_reason(),
            ),
    {
        check_script_name(self.name.as_str())
    }
}

/// An update goes on only for a script whose file exists; one without is
/// reported as not found.
pub fn require_existing(name: &str, exists: bool) -> (found: Result<(), AppError>)
    ensures
        exists <==> found is Ok,
        found matches Err(error) ==> error@ == AppErrorView::ScriptNotFound(name@),
{
    if exists {
        Ok(())
    } else {
        Err(AppError::ScriptNotFound(String::from_str(name)))
    }
}

} // verus!
