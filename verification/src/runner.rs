//! One job run, step by step: existence check, cache probe, admission,
//! and what to make of the subprocess once it is over.
//!
//! Each step hands out a value that the next step takes, so the steps can
//! only be taken in their order. Between the steps the caller does what the
//! engine cannot: it reads the script's modification time and the clock,
//! waits while every permit is out, and runs the subprocess under its
//! deadline.

use vstd::prelude::*;
use vstd::string::*;
use vstd::utf8::{decode_utf8, valid_utf8};
use bytes::Bytes;
use crate::admission::{AdmissionController, AdmissionView};
use crate::cache::{
    after_lookup, entry_for, lookup_result, CacheKey, CachedResultView, Mtime, ResultCache,
};
use crate::error::{AppError, AppErrorView};
use crate::fingerprint::{fingerprint, spec_fingerprint};
use crate::outcome::{ScriptResult, ScriptResultView, NO_EXIT_CODE};
use crate::payload::bytes_contents;
use crate::registry::{scanned_scripts, with_script, other_than, ScriptRegistry};
use crate::names::{check_script_name, invalid_name_reason, is_simple_script_name};
use crate::text::text_from_utf8;

verus! {

/// The interpreter that runs the scripts.
pub const INTERPRETER: &'static str = "python3";

/// The switch that makes the interpreter write its output unbuffered.
pub const UNBUFFERED: &'static str = "-u";

/// Seconds that the spawn, the delivery of the input and the wait for the
/// subprocess may take together.
pub const RUN_DEADLINE_SECS: u64 = 30;

/// How a subprocess ended, as its caller saw it.
#[derive(Debug)]
pub enum ProcessOutcome {
    /// The subprocess ran to its end. `exit_code` is `None` where the
    /// operating system reports none, as after a signal.
    Exited { stdout: Vec<u8>, stderr: Vec<u8>, exit_code: Option<i32> },
    /// Spawning, writing the input or reading the output failed; the text
    /// is that of the I/O error.
    Failed(String),
    /// The deadline passed first.
    TimedOut,
}

/// Mathematical value of a [`ProcessOutcome`].
pub enum ProcessOutcomeView {
    Exited { stdout: Seq<u8>, stderr: Seq<u8>, exit_code: Option<i32> },
    Failed(Seq<char>),
    TimedOut,
}

impl View for ProcessOutcome {
    type V = ProcessOutcomeView;

    open spec fn view(&self) -> ProcessOutcomeView {
        match self {
            ProcessOutcome::Exited { stdout, stderr, exit_code } => ProcessOutcomeView::Exited {
                stdout: stdout@,
                stderr: stderr@,
                exit_code: *exit_code,
            },
            ProcessOutcome::Failed(reason) => ProcessOutcomeView::Failed(reason@),
            ProcessOutcome::TimedOut => ProcessOutcomeView::TimedOut,
        }
    }
}

impl ProcessOutcomeView {
    /// The result of a run that ended normally with output that is text;
    /// `None` for every other outcome.
    pub open spec fn produced(self) -> Option<ScriptResultView> {
        match self {
            ProcessOutcomeView::Exited { stdout, stderr, exit_code } => if valid_utf8(stdout)
                && valid_utf8(stderr) {
                Some(
                    ScriptResultView {
                        stdout: decode_utf8(stdout),
                        stderr: decode_utf8(stderr),
                        exit_code: match exit_code {
                            Some(code) => code,
                            None => NO_EXIT_CODE,
                        },
                        timed_out: false,
                    },
                )
            } else {
                None
            },
            _ => None,
        }
    }

    /// Whether `error` is the failure that this outcome is reported as.
    pub open spec fn fails_with(self, error: AppErrorView) -> bool {
        match self {
            ProcessOutcomeView::Exited { .. } => error is Utf8,
            ProcessOutcomeView::Failed(reason) => error == AppErrorView::Io(reason),
            ProcessOutcomeView::TimedOut => error == AppErrorView::Timeout,
        }
    }
}

/// Turns the end of a subprocess into the result of the run: the captured
/// output as text and the exit code, or the failure.
pub fn conclude(outcome: ProcessOutcome) -> (verdict: Result<ScriptResult, AppError>)
    ensures
        match outcome@.produced() {
            Some(result) => verdict matches Ok(found) && found@ == result,
            None => verdict matches Err(error) && outcome@.fails_with(error@),
        },
{
    match outcome {
        ProcessOutcome::Exited { stdout, stderr, exit_code } => {
            let stdout = match text_from_utf8(stdout) {
                Ok(text) => text,
                Err(error) => {
                    return Err(AppError::Utf8(error.to_string()));
                },
            };
            let stderr = match text_from_utf8(stderr) {
                Ok(text) => text,
                Err(error) => {
                    return Err(AppError::Utf8(error.to_string()));
                },
            };
            let exit_code = match exit_code {
                Some(code) => code,
                None => NO_EXIT_CODE,
            };
            Ok(ScriptResult { stdout, stderr, exit_code, timed_out: false })
        },
        ProcessOutcome::Failed(reason) => Err(AppError::Io(reason)),
        ProcessOutcome::TimedOut => Err(AppError::Timeout),
    }
}

/// Mathematical value of an invocation and of the run it becomes.
pub struct RunView {
    pub script: Seq<char>,
    pub args: Seq<Seq<char>>,
    pub input: Seq<u8>,
    /// The script's modification time as read for the cache probe; `None`
    /// before the probe and where it could not be read.
    pub mtime: Option<Mtime>,
}

impl RunView {
    /// The key under which the result of this run is cached.
    pub open spec fn key(self) -> CacheKey {
        (self.script, spec_fingerprint(self.args, self.input))
    }
}

/// A request to run a registered script, before the cache was asked.
#[derive(Debug)]
pub struct Invocation {
    script: String,
    args: Vec<String>,
    input: Bytes,
    fingerprint: u64,
}

impl View for Invocation {
    type V = RunView;

    closed spec fn view(&self) -> RunView {
        RunView {
            script: self.script@,
            args: self.args.deep_view(),
            input: bytes_contents(self.input),
            mtime: None,
        }
    }
}

impl Invocation {
    #[verifier::type_invariant]
    spec fn fingerprinted(self) -> bool {
        self.fingerprint == spec_fingerprint(self.args.deep_view(), bytes_contents(self.input))
    }

    /// The name of the script.
    pub fn script(&self) -> (name: &String)
        ensures
            name@ == self@.script,
    {
        &self.script
    }

    /// The fingerprint of the arguments and the input.
    pub fn fingerprint(&self) -> (digest: u64)
        ensures
            digest == self@.key().1,
    {
        proof {
            use_type_invariant(self);
        }
        self.fingerprint
    }
}

/// A run that the cache could not answer and that waits for a permit.
#[derive(Debug)]
pub struct PendingRun {
    invocation: Invocation,
    mtime: Option<Mtime>,
}

impl View for PendingRun {
    type V = RunView;

    closed spec fn view(&self) -> RunView {
        RunView { mtime: self.mtime, ..self.invocation@ }
    }
}

/// A run that holds a permit: its subprocess may be started.
#[derive(Debug)]
pub struct ActiveRun {
    run: PendingRun,
}

impl View for ActiveRun {
    type V = RunView;

    closed spec fn view(&self) -> RunView {
        self.run@
    }
}

/// The arguments that the interpreter is started with for a script at
/// `script_path`: the switch for unbuffered output, the path, then `args`.
pub open spec fn interpreter_arguments(script_path: Seq<char>, args: Seq<Seq<char>>) -> Seq<
    Seq<char>,
> {
    seq![UNBUFFERED@, script_path] + args
}

impl ActiveRun {
    /// The name of the script.
    pub fn script(&self) -> (name: &String)
        ensures
            name@ == self@.script,
    {
        &self.run.invocation.script
    }

    /// The arguments of the invocation.
    pub fn args(&self) -> (args: &Vec<String>)
        ensures
            args.deep_view() == self@.args,
    {
        &self.run.invocation.args
    }

    /// The payload to deliver on the standard input of the subprocess.
    pub fn input(&self) -> (input: &Bytes)
        ensures
            bytes_contents(*input) == self@.input,
    {
        &self.run.invocation.input
    }

    /// The argument list for the interpreter, given where the script lies.
    pub fn command_line(&self, script_path: &str) -> (line: Vec<String>)
        ensures
            line.deep_view() == interpreter_arguments(script_path@, self@.args),
    {
        let mut line: Vec<String> = Vec::new();
        line.push(String::from_str(UNBUFFERED));
        line.push(String::from_str(script_path));
        let args = &self.run.invocation.args;
        let mut i: usize = 0;
        assert(line.deep_view() =~= seq![UNBUFFERED@, script_path@] + args.deep_view().take(0));
        while i < args.len()
            invariant
                i <= args@.len(),
                line.deep_view() == seq![UNBUFFERED@, script_path@] + args.deep_view().take(i as int),
            decreases args@.len() - i,
        {
            let ghost before = line.deep_view();
            line.push(args[i].clone());
            assert(line.deep_view() =~= before.push(args@[i as int]@));
            assert(args.deep_view().take(i + 1) =~= args.deep_view().take(i as int).push(
                args@[i as int]@,
            ));
            i = i + 1;
        }
        assert(args.deep_view().take(args@.len() as int) =~= args.deep_view());
        line
    }
}

/// What the cache made of an invocation.
#[derive(Debug)]
pub enum Probe {
    /// A fresh result was held: the run is over, nothing is to be started.
    Hit(ScriptResult),
    /// Nothing fresh was held: the run goes on to admission.
    Miss(PendingRun),
}

/// What the admission controller made of a pending run.
#[derive(Debug)]
pub enum Admission {
    /// A permit was free and is now held by the run.
    Granted(ActiveRun),
    /// Every permit is out: the run is handed back, to ask again later.
    Refused(PendingRun),
}

/// Mathematical value of the engine's state.
pub struct AppStateView {
    /// The registered scripts.
    pub scripts: Seq<Seq<char>>,
    /// The cached results.
    pub cache: Map<CacheKey, CachedResultView>,
    /// How long a cached result may be reused.
    pub ttl: u64,
    /// The admission controller.
    pub admission: AdmissionView,
}

impl AppStateView {
    /// What the cache answers to a probe.
    pub open spec fn probe(self, key: CacheKey, mtime: Option<Mtime>, now: u64) -> Option<
        ScriptResultView,
    > {
        lookup_result(self.cache, self.ttl, key, mtime, now)
    }

    /// The state after a probe: a stale entry under the key is gone.
    pub open spec fn after_probe(self, key: CacheKey, mtime: Option<Mtime>, now: u64)
        -> AppStateView {
        AppStateView { cache: after_lookup(self.cache, self.ttl, key, mtime, now), ..self }
    }

    /// The state after a pending run asked for a permit.
    pub open spec fn after_permit_request(self) -> AppStateView {
        AppStateView { admission: self.admission.after_request(), ..self }
    }

    /// The state after a run is over: its permit is back, and its result
    /// is cached if it produced one and the modification time was known.
    pub open spec fn after_finish(self, run: RunView, outcome: ProcessOutcomeView, now: u64)
        -> AppStateView {
        AppStateView {
            cache: match (outcome.produced(), run.mtime) {
                (Some(result), Some(mtime)) => self.cache.insert(
                    run.key(),
                    entry_for(result, mtime, now),
                ),
                _ => self.cache,
            },
            admission: self.admission.after_release(),
            ..self
        }
    }
}

/// The engine: registry, cache and admission controller.
pub struct AppState {
    registry: ScriptRegistry,
    cache: ResultCache,
    admission: AdmissionController,
}

impl View for AppState {
    type V = AppStateView;

    closed spec fn view(&self) -> AppStateView {
        AppStateView {
            scripts: self.registry@,
            cache: self.cache@,
            ttl: self.cache.spec_ttl(),
            admission: self.admission@,
        }
    }
}

impl AppState {
    /// An engine that knows no script and holds no result, with
    /// `max_concurrent` permits and the given time to live for cached
    /// results, in units of the caller's monotonic clock.
    pub fn new(max_concurrent: usize, cache_ttl: u64) -> (state: AppState)
        ensures
            state@ == (AppStateView {
                scripts: Seq::empty(),
                cache: Map::empty(),
                ttl: cache_ttl,
                admission: AdmissionView { capacity: max_concurrent as nat, in_use: 0 },
            }),
    {
        AppState {
            registry: ScriptRegistry::new(),
            cache: ResultCache::new(cache_ttl),
            admission: AdmissionController::new(max_concurrent),
        }
    }

    /// The registry.
    pub fn registry(&self) -> (registry: &ScriptRegistry)
        ensures
            registry@ == self@.scripts,
    {
        &self.registry
    }

    /// The cache.
    pub fn cache(&self) -> (cache: &ResultCache)
        ensures
            cache@ == self@.cache,
            cache.spec_ttl() == self@.ttl,
    {
        &self.cache
    }

    /// The admission controller.
    pub fn admission(&self) -> (controller: &AdmissionController)
        ensures
            controller@ == self@.admission,
    {
        &self.admission
    }

    /// Takes over the outcome of a scan of the script directory: the file
    /// names found, or `None` where the directory could not be read.
    /// Returns how many scripts are known afterwards.
    pub fn scan_scripts(&mut self, entries: Option<Vec<String>>) -> (count: usize)
        ensures
            final(self)@ == (AppStateView {
                scripts: scanned_scripts(
                    match entries {
                        Some(names) => Some(names.deep_view()),
                        None => None,
                    },
                ),
                ..old(self)@
            }),
            count == final(self)@.scripts.len(),
    {
        self.registry.refresh(entries)
    }

    /// The names of the registered scripts.
    pub fn list_scripts(&self) -> (names: Vec<String>)
        ensures
            names.deep_view() == self@.scripts,
    {
        self.registry.list()
    }

    /// Registers a script whose file has been written, so that it can be
    /// run before the next scan. A name that is no simple script name is
    /// refused and leaves the registry as it was.
    pub fn save_script(&mut self, name: &str) -> (saved: Result<(), AppError>)
        ensures
            is_simple_script_name(name@) <==> saved is Ok,
            saved is Ok ==> final(self)@ == (AppStateView {
                scripts: with_script(old(self)@.scripts, name@),
                ..old(self)@
            }),
            saved matches Err(error) ==> final(self)@ == old(self)@ && error@
                == AppErrorView::InvalidScriptName(invalid_name_reason()),
    {
        match check_script_name(name) {
            Ok(()) => {
                self.registry.register(name);
                Ok(())
            },
            Err(error) => Err(error),
        }
    }

    /// Takes over the outcome of deleting a script's file. Where the file
    /// was removed the script is forgotten; where it was not, the script
    /// is reported as not found and the registry stays as it was.
    pub fn delete_script(&mut self, name: &str, removed: bool) -> (deleted: Result<(), AppError>)
        ensures
            removed <==> deleted is Ok,
            removed ==> final(self)@ == (AppStateView {
                scripts: old(self)@.scripts.filter(other_than(name@)),
                ..old(self)@
            }),
            deleted matches Err(error) ==> final(self)@ == old(self)@ && error@
                == AppErrorView::ScriptNotFound(name@),
    {
        if removed {
            self.registry.unregister(name);
            Ok(())
        } else {
            Err(AppError::ScriptNotFound(String::from_str(name)))
        }
    }

    /// First step of a run: the script must be registered. An unknown name
    /// is refused here, before the cache or a permit is touched.
    pub fn start_run(&self, script_name: &str, args: Vec<String>, input: Bytes) -> (started:
        Result<Invocation, AppError>)
        ensures
            self@.scripts.contains(script_name@) <==> started is Ok,
            started matches Ok(invocation) ==> invocation@ == (RunView {
                script: script_name@,
                args: args.deep_view(),
                input: bytes_contents(input),
                mtime: None,
            }),
            started matches Err(error) ==> error@ == AppErrorView::ScriptNotFound(script_name@),
    {
        if !self.registry.contains(script_name) {
            return Err(AppError::ScriptNotFound(String::from_str(script_name)));
        }
        let fingerprint = fingerprint(&args, &input);
        Ok(Invocation { script: String::from_str(script_name), args, input, fingerprint })
    }

    /// Second step: asks the cache, given the script's modification time
    /// as just read (`None` if it could not be read) and the current time.
    /// A fresh result ends the run; an entry that is no longer fresh is
    /// evicted.
    pub fn probe_cache(&mut self, invocation: Invocation, current_mtime: Option<Mtime>, now: u64)
        -> (probe: Probe)
        ensures
            final(self)@ == old(self)@.after_probe(invocation@.key(), current_mtime, now),
            match old(self)@.probe(invocation@.key(), current_mtime, now) {
                Some(result) => probe matches Probe::Hit(found) && found@ == result,
                None => probe matches Probe::Miss(pending) && pending@ == (RunView {
                    mtime: current_mtime,
                    ..invocation@
                }),
            },
    {
        proof {
            use_type_invariant(&invocation);
        }
        match self.cache.lookup(
            invocation.script.as_str(),
            invocation.fingerprint,
            current_mtime,
            now,
        ) {
            Some(result) => Probe::Hit(result),
            None => Probe::Miss(PendingRun { invocation, mtime: current_mtime }),
        }
    }

    /// Third step: asks for a permit. It never waits: a run that
    /// is refused asks again after some other run has finished.
    pub fn request_permit(&mut self, pending: PendingRun) -> (admission: Admission)
        ensures
            old(self)@.admission.wf(),
            final(self)@ == old(self)@.after_permit_request(),
            if old(self)@.admission.has_room() {
                admission matches Admission::Granted(run) && run@ == pending@
            } else {
                admission matches Admission::Refused(back) && back@ == pending@
            },
    {
        if self.admission.try_acquire() {
            Admission::Granted(ActiveRun { run: pending })
        } else {
            Admission::Refused(pending)
        }
    }

    /// Last step: takes over how the subprocess ended. The permit goes
    /// back whatever the outcome. A result is cached only where the run
    /// produced one and the script's modification time was known.
    pub fn finish_run(&mut self, run: ActiveRun, outcome: ProcessOutcome, now: u64) -> (verdict:
        Result<ScriptResult, AppError>)
        ensures
            final(self)@ == old(self)@.after_finish(run@, outcome@, now),
            match outcome@.produced() {
                Some(result) => verdict matches Ok(found) && found@ == result,
                None => verdict matches Err(error) && outcome@.fails_with(error@),
            },
    {
        proof {
            use_type_invariant(&run.run.invocation);
        }
        self.admission.release();
        let verdict = conclude(outcome);
        if let Ok(result) = &verdict {
            if let Some(mtime) = run.run.mtime {
                self.cache.store(
                    run.run.invocation.script.as_str(),
                    run.run.invocation.fingerprint,
                    result,
                    mtime,
                    now,
                );
            }
        }
        verdict
    }
}

} // verus!
