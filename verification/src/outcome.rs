//! What one script run produced.

use vstd::prelude::*;

verus! {

/// Captured output of one script run.
#[derive(Debug, PartialEq, Eq)]
pub struct ScriptResult {
    pub stdout: String,
    pub stderr: String,
    pub exit_code: i32,
    pub timed_out: bool,
}

/// Mathematical value of a [`ScriptResult`].
pub struct ScriptResultView {
    pub stdout: Seq<char>,
    pub stderr: Seq<char>,
    pub exit_code: i32,
    pub timed_out: bool,
}

impl View for ScriptResult {
    type V = ScriptResultView;

    open spec fn view(&self) -> ScriptResultView {
        ScriptResultView {
            stdout: self.stdout@,
            stderr: self.stderr@,
            exit_code: self.exit_code,
            timed_out: self.timed_out,
        }
    }
}

impl Clone for ScriptResult {
    fn clone(&self) -> (res: Self)
        ensures
            res == *self,
    {
        ScriptResult {
            stdout: self.stdout.clone(),
            stderr: self.stderr.clone(),
            exit_code: self.exit_code,
            timed_out: self.timed_out,
        }
    }
}

/// Exit code reported when the operating system gives none, and in the
/// entry that stands for a failed fan-out target.
pub const NO_EXIT_CODE: i32 = -1;

} // verus!
