//! Execution engine of a script service: a registry of runnable scripts, a
//! result cache keyed by script and invocation fingerprint, an admission
//! controller that bounds concurrent subprocesses, the steps of one job run,
//! and the aggregation of a fan-out over many targets.
//!
//! The engine is synchronous and owns no clock, file or process: callers hand
//! it what they observed (a modification time, the current time, what a
//! subprocess produced) and act on what it decides.

pub mod admission;
pub mod cache;
pub mod crud;
pub mod error;
pub mod fanout;
pub mod fingerprint;
pub mod laws;
pub mod names;
pub mod outcome;
pub mod payload;
pub mod registry;
pub mod runner;
pub mod text;

pub use admission::{AdmissionController, AdmissionView};
pub use cache::{CachedResultView, Mtime, ResultCache};
pub use crud::{require_existing, CreateScriptRequest, UpdateScriptRequest};
pub use error::{AppError, AppErrorView};
pub use fanout::{
    collect_results, failure_entry, parse_targets, plan_fan_out, resolve_targets, run_input,
    FanOut, RunInput, RunQuery, RunRequest, RunResponse,
};
pub use fingerprint::fingerprint;
pub use names::{check_script_name, is_script_file, is_valid_script_name};
pub use outcome::{ScriptResult, ScriptResultView, NO_EXIT_CODE};
pub use registry::ScriptRegistry;
pub use runner::{
    conclude, ActiveRun, Admission, AppState, AppStateView, Invocation, PendingRun, Probe,
    ProcessOutcome, ProcessOutcomeView, RunView, INTERPRETER, RUN_DEADLINE_SECS, UNBUFFERED,
};
