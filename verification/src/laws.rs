//! What holds of the engine over several steps.

use vstd::prelude::*;
use crate::admission::AdmissionView;
use crate::cache::{elapsed, CacheKey, Mtime};
use crate::error::AppErrorView;
use crate::names::has_script_extension;
use crate::registry::{is_script, other_than, scanned_scripts, with_script};
use crate::runner::{AppStateView, ProcessOutcomeView, RunView};

verus! {

/// A scan leaves in the registry exactly the entries that are scripts.
pub proof fn law_scan_finds_the_scripts(entries: Seq<Seq<char>>, name: Seq<char>)
    ensures
        scanned_scripts(Some(entries)).contains(name) <==> entries.contains(name)
            && has_script_extension(name),
{
    let found = entries.filter(is_script());
    if found.contains(name) {
        let at = choose|i: int| 0 <= i < found.len() && found[i] == name;
        entries.lemma_filter_pred(is_script(), at);
        entries.lemma_filter_contains_rev(is_script(), name);
    }
    if entries.contains(name) && has_script_extension(name) {
        let at = choose|i: int| 0 <= i < entries.len() && entries[i] == name;
        entries.lemma_filter_contains(is_script(), at);
    }
}

/// A script is known as soon as it is registered, and no other script
/// comes or goes with it.
pub proof fn law_registered_script_is_known(
    scripts: Seq<Seq<char>>,
    name: Seq<char>,
    other: Seq<char>,
)
    ensures
        with_script(scripts, name).contains(name),
        other != name ==> (with_script(scripts, name).contains(other) <==> scripts.contains(
            other,
        )),
{
    let after = with_script(scripts, name);
    if !scripts.contains(name) {
        assert(after[scripts.len() as int] == name);
        if scripts.contains(other) {
            let at = choose|i: int| 0 <= i < scripts.len() && scripts[i] == other;
            assert(after[at] == other);
        }
        if after.contains(other) && other != name {
            let at = choose|i: int| 0 <= i < after.len() && after[i] == other;
            assert(scripts[at] == other);
        }
    }
}

/// A script that was unregistered is unknown, and no other script goes
/// with it.
pub proof fn law_unregistered_script_is_unknown(
    scripts: Seq<Seq<char>>,
    name: Seq<char>,
    other: Seq<char>,
)
    ensures
        !scripts.filter(other_than(name)).contains(name),
        other != name ==> (scripts.filter(other_than(name)).contains(other) <==> scripts.contains(
            other,
        )),
{
    let kept = scripts.filter(other_than(name));
    if kept.contains(name) {
        let at = choose|i: int| 0 <= i < kept.len() && kept[i] == name;
        scripts.lemma_filter_pred(other_than(name), at);
    }
    if kept.contains(other) {
        scripts.lemma_filter_contains_rev(other_than(name), other);
    }
    if scripts.contains(other) && other != name {
        let at = choose|i: int| 0 <= i < scripts.len() && scripts[i] == other;
        scripts.lemma_filter_contains(other_than(name), at);
    }
}

/// The cache answers a probe exactly when it holds an entry under the key
/// that is younger than the time to live and was recorded with the
/// modification time that the script file has now. An answer leaves the
/// cache as it was; without an answer nothing is left under the key.
pub proof fn law_cache_answers_only_fresh_entries(
    state: AppStateView,
    key: CacheKey,
    current_mtime: Option<Mtime>,
    now: u64,
)
    ensures
        state.probe(key, current_mtime, now) is Some <==> {
            &&& state.cache.contains_key(key)
            &&& elapsed(state.cache[key].produced_at, now) < state.ttl
            &&& current_mtime == Some(state.cache[key].script_mtime)
        },
        state.probe(key, current_mtime, now) is Some ==> state.after_probe(
            key,
            current_mtime,
            now,
        ) == state,
        state.probe(key, current_mtime, now) is None ==> !state.after_probe(
            key,
            current_mtime,
            now,
        ).cache.contains_key(key),
{
}

/// Cache hit equivalence. Once a run has produced a result and the
/// script's modification time was known, a second invocation of the same
/// script with the same arguments and input is answered from the cache
/// with that same result, and the entry stays, as long as the script file
/// is unchanged and less than the time to live has passed. Nothing is
/// started for it: a hit ends the run before admission.
pub proof fn law_repeated_run_is_served_from_cache(
    state: AppStateView,
    run: RunView,
    outcome: ProcessOutcomeView,
    finished_at: u64,
    again: RunView,
    asked_at: u64,
)
    requires
        run.mtime is Some,
        outcome.produced() is Some,
        again.script == run.script,
        again.args == run.args,
        again.input == run.input,
        elapsed(finished_at, asked_at) < state.ttl,
    ensures
        ({
            let later = state.after_finish(run, outcome, finished_at);
            &&& later.probe(again.key(), run.mtime, asked_at) == outcome.produced()
            &&& later.after_probe(again.key(), run.mtime, asked_at) == later
        }),
{
    let later = state.after_finish(run, outcome, finished_at);
    assert(later.after_probe(again.key(), run.mtime, asked_at).cache =~= later.cache);
}

/// Invalidation by content. Once the script file has another modification
/// time than the one recorded with the result, or none can be read, the
/// cache does not answer, however little time has passed, and the entry is
/// evicted.
pub proof fn law_changed_script_runs_again(
    state: AppStateView,
    run: RunView,
    outcome: ProcessOutcomeView,
    finished_at: u64,
    current_mtime: Option<Mtime>,
    asked_at: u64,
)
    requires
        run.mtime is Some,
        outcome.produced() is Some,
        current_mtime != run.mtime,
    ensures
        ({
            let later = state.after_finish(run, outcome, finished_at);
            &&& later.probe(run.key(), current_mtime, asked_at) is None
            &&& !later.after_probe(run.key(), current_mtime, asked_at).cache.contains_key(
                run.key(),
            )
        }),
{
}

/// Invalidation by age. Once the time to live has passed since the result
/// was stored, the cache does not answer even though the script file is
/// unchanged, and the entry is evicted.
pub proof fn law_expired_result_runs_again(
    state: AppStateView,
    run: RunView,
    outcome: ProcessOutcomeView,
    finished_at: u64,
    current_mtime: Option<Mtime>,
    asked_at: u64,
)
    requires
        run.mtime is Some,
        outcome.produced() is Some,
        elapsed(finished_at, asked_at) >= state.ttl,
    ensures
        ({
            let later = state.after_finish(run, outcome, finished_at);
            &&& later.probe(run.key(), current_mtime, asked_at) is None
            &&& !later.after_probe(run.key(), current_mtime, asked_at).cache.contains_key(
                run.key(),
            )
        }),
{
}

/// A run that produced no result, or whose script had no readable
/// modification time, leaves the cache as it was.
pub proof fn law_failed_run_is_not_cached(
    state: AppStateView,
    run: RunView,
    outcome: ProcessOutcomeView,
    now: u64,
)
    requires
        outcome.produced() is None || run.mtime is None,
    ensures
        state.after_finish(run, outcome, now).cache == state.cache,
{
}

/// However many requests reach the controller, it never has more permits out
/// than its capacity: it has as many out as were asked for, up to that.
pub proof fn law_permits_never_exceed_capacity(controller: AdmissionView, requests: nat)
    requires
        controller.wf(),
    ensures
        controller.after_requests(requests).wf(),
        controller.after_requests(requests).capacity == controller.capacity,
        controller.after_requests(requests).in_use == if controller.in_use + requests
            <= controller.capacity {
            controller.in_use + requests
        } else {
            controller.capacity
        },
    decreases requests,
{
    if requests > 0 {
        law_permits_never_exceed_capacity(controller, (requests - 1) as nat);
    }
}

/// Admission. Of `capacity + 1` requests that reach a controller with every
/// permit free, each of the first `capacity` is granted and the next one
/// is refused; it is granted once one of the others has given its permit
/// back.
pub proof fn law_one_more_than_capacity_waits(capacity: nat)
    ensures
        ({
            let controller = AdmissionView { capacity, in_use: 0 };
            let full = controller.after_requests(capacity);
            &&& forall|earlier: nat|
                earlier < capacity ==> (#[trigger] controller.after_requests(
                    earlier,
                )).has_room()
            &&& !full.has_room()
            &&& capacity > 0 ==> full.after_release().has_room()
        }),
{
    let controller = AdmissionView { capacity, in_use: 0 };
    assert forall|earlier: nat| earlier < capacity implies (#[trigger] controller.after_requests(
        earlier,
    )).has_room() by {
        law_permits_never_exceed_capacity(controller, earlier);
    }
    law_permits_never_exceed_capacity(controller, capacity);
}

/// A run that exceeds its deadline is reported as a timeout, and as
/// nothing else; its permit is back afterwards, so that the next request
/// is granted at once; and nothing is cached for it.
pub proof fn law_timed_out_run_returns_its_permit(state: AppStateView, run: RunView, now: u64)
    requires
        state.admission.wf(),
        state.admission.in_use > 0,
    ensures
        ProcessOutcomeView::TimedOut.produced() is None,
        forall|error: AppErrorView|
            ProcessOutcomeView::TimedOut.fails_with(error) <==> error == AppErrorView::Timeout,
        ({
            let later = state.after_finish(run, ProcessOutcomeView::TimedOut, now);
            &&& later.admission.in_use == state.admission.in_use - 1
            &&& later.admission.has_room()
            &&& later.cache == state.cache
        }),
{
}

/// A run takes one permit and gives it back: once it is over, as many
/// permits are out as before it asked.
pub proof fn law_finished_run_leaves_no_permit_out(
    state: AppStateView,
    run: RunView,
    outcome: ProcessOutcomeView,
    now: u64,
)
    requires
        state.admission.wf(),
        state.admission.has_room(),
    ensures
        state.after_permit_request().after_finish(run, outcome, now).admission == state.admission,
{
}

/// Whatever the outcome of a run, its permit is back afterwards.
pub proof fn law_every_run_returns_its_permit(
    state: AppStateView,
    run: RunView,
    outcome: ProcessOutcomeView,
    now: u64,
)
    requires
        state.admission.wf(),
        state.admission.in_use > 0,
    ensures
        state.after_finish(run, outcome, now).admission.in_use == state.admission.in_use - 1,
        state.after_finish(run, outcome, now).admission.wf(),
{
}

} // verus!
