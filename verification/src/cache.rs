//! The result cache: what a script printed for a given invocation, kept while
//! it is young enough and the script file has not changed since.

use vstd::prelude::*;
use vstd::string::*;
use crate::outcome::{ScriptResult, ScriptResultView};

verus! {

/// Modification time of a script file, as elapsed time since the Unix epoch.
/// The engine only compares two of them for equality.
#[derive(Clone, Copy, Debug, PartialEq, Eq, Structural)]
pub struct Mtime {
    pub secs: i64,
    pub nanos: u32,
}

/// A cache key: the script's name and the invocation fingerprint.
pub type CacheKey = (Seq<char>, u64);

/// Mathematical value of a cached result.
pub struct CachedResultView {
    pub stdout: Seq<char>,
    pub stderr: Seq<char>,
    pub exit_code: i32,
    /// Reading of the caller's monotonic clock when the result was stored.
    pub produced_at: u64,
    /// Modification time of the script file that produced the result.
    pub script_mtime: Mtime,
}

/// Time that has passed on the monotonic clock between two readings; zero
/// where the second reading is not later than the first.
pub open spec fn elapsed(since: u64, now: u64) -> int {
    if now >= since {
        now - since
    } else {
        0
    }
}

impl CachedResultView {
    /// A cached result may be reused while less than `ttl` has passed since
    /// it was stored and the script file still has the modification time
    /// recorded with it. Without a current modification time it may not.
    pub open spec fn is_fresh(self, ttl: u64, current_mtime: Option<Mtime>, now: u64) -> bool {
        &&& elapsed(self.produced_at, now) < ttl
        &&& current_mtime == Some(self.script_mtime)
    }

    /// The result handed out on a hit.
    pub open spec fn as_result(self) -> ScriptResultView {
        ScriptResultView {
            stdout: self.stdout,
            stderr: self.stderr,
            exit_code: self.exit_code,
            timed_out: false,
        }
    }
}

/// What a lookup under `key` returns.
pub open spec fn lookup_result(
    cache: Map<CacheKey, CachedResultView>,
    ttl: u64,
    key: CacheKey,
    current_mtime: Option<Mtime>,
    now: u64,
) -> Option<ScriptResultView> {
    if cache.contains_key(key) && cache[key].is_fresh(ttl, current_mtime, now) {
        Some(cache[key].as_result())
    } else {
        None
    }
}

/// What a lookup under `key` leaves in the cache: a stale entry is evicted.
pub open spec fn after_lookup(
    cache: Map<CacheKey, CachedResultView>,
    ttl: u64,
    key: CacheKey,
    current_mtime: Option<Mtime>,
    now: u64,
) -> Map<CacheKey, CachedResultView> {
    if cache.contains_key(key) && !cache[key].is_fresh(ttl, current_mtime, now) {
        cache.remove(key)
    } else {
        cache
    }
}

/// The entry that `store` records for `result`.
pub open spec fn entry_for(result: ScriptResultView, mtime: Mtime, now: u64) -> CachedResultView {
    CachedResultView {
        stdout: result.stdout,
        stderr: result.stderr,
        exit_code: result.exit_code,
        produced_at: now,
        script_mtime: mtime,
    }
}

struct CacheEntry {
    script: String,
    fingerprint: u64,
    stdout: String,
    stderr: String,
    exit_code: i32,
    produced_at: u64,
    script_mtime: Mtime,
}

impl CacheEntry {
    spec fn key(self) -> CacheKey {
        (self.script@, self.fingerprint)
    }

    spec fn value(self) -> CachedResultView {
        CachedResultView {
            stdout: self.stdout@,
            stderr: self.stderr@,
            exit_code: self.exit_code,
            produced_at: self.produced_at,
            script_mtime: self.script_mtime,
        }
    }
}

/// The map that a list of entries stands for; a later entry would win over
/// an earlier one under the same key.
spec fn entries_map(entries: Seq<CacheEntry>) -> Map<CacheKey, CachedResultView>
    decreases entries.len(),
{
    if entries.len() == 0 {
        Map::empty()
    } else {
        entries_map(entries.drop_last()).insert(entries.last().key(), entries.last().value())
    }
}

spec fn distinct_keys(entries: Seq<CacheEntry>) -> bool {
    forall|i: int, j: int|
        0 <= i < j < entries.len() ==> (#[trigger] entries[i]).key() != (#[trigger] entries[j]).key()
}

spec fn key_absent(entries: Seq<CacheEntry>, key: CacheKey) -> bool {
    forall|i: int| 0 <= i < entries.len() ==> (#[trigger] entries[i]).key() != key
}

proof fn lemma_absent_key(entries: Seq<CacheEntry>, key: CacheKey)
    requires
        key_absent(entries, key),
    ensures
        !entries_map(entries).contains_key(key),
    decreases entries.len(),
{
    if entries.len() > 0 {
        assert(entries.last() == entries[entries.len() - 1]);
        assert forall|i: int| 0 <= i < entries.drop_last().len() implies (
        #[trigger] entries.drop_last()[i]).key() != key by {
            assert(entries.drop_last()[i] == entries[i]);
        }
        lemma_absent_key(entries.drop_last(), key);
    }
}

proof fn lemma_entry_at(entries: Seq<CacheEntry>, i: int)
    requires
        distinct_keys(entries),
        0 <= i < entries.len(),
    ensures
        entries_map(entries).contains_key(entries[i].key()),
        entries_map(entries)[entries[i].key()] == entries[i].value(),
    decreases entries.len(),
{
    let front = entries.drop_last();
    if i < entries.len() - 1 {
        assert forall|a: int, b: int| 0 <= a < b < front.len() implies (#[trigger] front[a]).key()
            != (#[trigger] front[b]).key() by {
            assert(front[a] == entries[a]);
            assert(front[b] == entries[b]);
        }
        lemma_entry_at(front, i);
        assert(front[i] == entries[i]);
        assert(entries[i].key() != entries[entries.len() - 1].key());
    }
}

proof fn lemma_push_entry(entries: Seq<CacheEntry>, entry: CacheEntry)
    requires
        distinct_keys(entries),
        key_absent(entries, entry.key()),
    ensures
        distinct_keys(entries.push(entry)),
        entries_map(entries.push(entry)) == entries_map(entries).insert(entry.key(), entry.value()),
{
    assert(entries.push(entry).drop_last() == entries);
}

proof fn lemma_replace_entry(entries: Seq<CacheEntry>, i: int, entry: CacheEntry)
    requires
        distinct_keys(entries),
        0 <= i < entries.len(),
        entry.key() == entries[i].key(),
    ensures
        distinct_keys(entries.update(i, entry)),
        entries_map(entries.update(i, entry)) == entries_map(entries).insert(
            entry.key(),
            entry.value(),
        ),
    decreases entries.len(),
{
    let front = entries.drop_last();
    let changed = entries.update(i, entry);
    assert forall|a: int, b: int| 0 <= a < b < changed.len() implies (#[trigger] changed[a]).key()
        != (#[trigger] changed[b]).key() by {
        assert(changed[a].key() == entries[a].key());
        assert(changed[b].key() == entries[b].key());
    }
    if i == entries.len() - 1 {
        assert(changed.drop_last() == front);
        assert(entries_map(changed) == entries_map(entries).insert(entry.key(), entry.value()));
    } else {
        assert forall|a: int, b: int| 0 <= a < b < front.len() implies (#[trigger] front[a]).key()
            != (#[trigger] front[b]).key() by {
            assert(front[a] == entries[a]);
            assert(front[b] == entries[b]);
        }
        lemma_replace_entry(front, i, entry);
        assert(changed.drop_last() == front.update(i, entry));
        assert(changed.last() == entries.last());
        assert(entries[i].key() != entries[entries.len() - 1].key());
        assert(entries_map(changed) == entries_map(entries).insert(entry.key(), entry.value()));
    }
}

proof fn lemma_remove_entry(entries: Seq<CacheEntry>, i: int)
    requires
        distinct_keys(entries),
        0 <= i < entries.len(),
    ensures
        distinct_keys(entries.remove(i)),
        entries_map(entries.remove(i)) == entries_map(entries).remove(entries[i].key()),
    decreases entries.len(),
{
    let front = entries.drop_last();
    let rest = entries.remove(i);
    assert forall|a: int, b: int| 0 <= a < b < rest.len() implies (#[trigger] rest[a]).key() != (
    #[trigger] rest[b]).key() by {
        let a0 = if a < i { a } else { a + 1 };
        let b0 = if b < i { b } else { b + 1 };
        assert(rest[a] == entries[a0]);
        assert(rest[b] == entries[b0]);
    }
    assert forall|a: int, b: int| 0 <= a < b < front.len() implies (#[trigger] front[a]).key() != (
    #[trigger] front[b]).key() by {
        assert(front[a] == entries[a]);
        assert(front[b] == entries[b]);
    }
    if i == entries.len() - 1 {
        assert(rest == front);
        assert forall|a: int| 0 <= a < front.len() implies (#[trigger] front[a]).key()
            != entries[i].key() by {
            assert(front[a] == entries[a]);
        }
        lemma_absent_key(front, entries[i].key());
        assert(entries_map(rest) == entries_map(entries).remove(entries[i].key()));
    } else {
        lemma_remove_entry(front, i);
        assert(rest.drop_last() == front.remove(i));
        assert(rest.last() == entries.last());
        assert(front[i] == entries[i]);
        assert(entries[i].key() != entries[entries.len() - 1].key());
        assert(entries_map(rest) == entries_map(entries).remove(entries[i].key()));
    }
}

proof fn lemma_entries_count(entries: Seq<CacheEntry>)
    requires
        distinct_keys(entries),
    ensures
        entries_map(entries).dom().finite(),
        entries_map(entries).len() == entries.len(),
    decreases entries.len(),
{
    if entries.len() > 0 {
        let front = entries.drop_last();
        assert forall|a: int, b: int| 0 <= a < b < front.len() implies (#[trigger] front[a]).key()
            != (#[trigger] front[b]).key() by {
            assert(front[a] == entries[a]);
            assert(front[b] == entries[b]);
        }
        assert forall|a: int| 0 <= a < front.len() implies (#[trigger] front[a]).key()
            != entries.last().key() by {
            assert(front[a] == entries[a]);
            assert(entries.last() == entries[entries.len() - 1]);
        }
        lemma_entries_count(front);
        lemma_absent_key(front, entries.last().key());
    }
}

/// Previously captured results, by script name and invocation fingerprint.
pub struct ResultCache {
    entries: Vec<CacheEntry>,
    ttl: u64,
}

impl View for ResultCache {
    type V = Map<CacheKey, CachedResultView>;

    closed spec fn view(&self) -> Map<CacheKey, CachedResultView> {
        entries_map(self.entries@)
    }
}

impl ResultCache {
    /// No key is held twice.
    #[verifier::type_invariant]
    spec fn keys_are_distinct(self) -> bool {
        distinct_keys(self.entries@)
    }

    /// The time to live that the cache was made with.
    pub closed spec fn spec_ttl(&self) -> u64 {
        self.ttl
    }

    /// An empty cache whose entries may be reused for `ttl` units of the
    /// caller's monotonic clock.
    pub fn new(ttl: u64) -> (cache: ResultCache)
        ensures
            cache@ == Map::<CacheKey, CachedResultView>::empty(),
            cache.spec_ttl() == ttl,
    {
        ResultCache { entries: Vec::new(), ttl }
    }

    /// The time to live that the cache was made with.
    pub fn ttl(&self) -> (ttl: u64)
        ensures
            ttl == self.spec_ttl(),
    {
        self.ttl
    }

    /// How many results are held.
    pub fn len(&self) -> (count: usize)
        ensures
            self@.dom().finite(),
            count == self@.len(),
    {
        proof {
            use_type_invariant(self);
            lemma_entries_count(self.entries@);
        }
        self.entries.len()
    }

    fn position(&self, script: &String, fingerprint: u64) -> (found: Option<usize>)
        ensures
            match found {
                Some(i) => i < self.entries@.len() && self.entries@[i as int].key() == (
                    script@,
                    fingerprint,
                ),
                None => key_absent(self.entries@, (script@, fingerprint)),
            },
    {
        let mut i: usize = 0;
        while i < self.entries.len()
            invariant
                i <= self.entries@.len(),
                forall|j: int| 0 <= j < i ==> (#[trigger] self.entries@[j]).key() != (script@, fingerprint),
            decreases self.entries@.len() - i,
        {
            if self.entries[i].fingerprint == fingerprint && self.entries[i].script == *script {
                return Some(i);
            }
            i = i + 1;
        }
        None
    }

    /// Whether a result is held under this key, fresh or not.
    pub fn contains(&self, script: &str, fingerprint: u64) -> (held: bool)
        ensures
            held == self@.contains_key((script@, fingerprint)),
    {
        let name = String::from_str(script);
        let found = self.position(&name, fingerprint);
        proof {
            use_type_invariant(self);
            match found {
                Some(i) => lemma_entry_at(self.entries@, i as int),
                None => lemma_absent_key(self.entries@, (script@, fingerprint)),
            }
        }
        found.is_some()
    }

    /// Returns the result held under the key if it is still fresh. An entry
    /// that is no longer fresh is evicted.
    pub fn lookup(
        &mut self,
        script: &str,
        fingerprint: u64,
        current_mtime: Option<Mtime>,
        now: u64,
    ) -> (hit: Option<ScriptResult>)
        ensures
            final(self).spec_ttl() == old(self).spec_ttl(),
            final(self)@ == after_lookup(
                old(self)@,
                old(self).spec_ttl(),
                (script@, fingerprint),
                current_mtime,
                now,
            ),
            match lookup_result(
                old(self)@,
                old(self).spec_ttl(),
                (script@, fingerprint),
                current_mtime,
                now,
            ) {
                Some(result) => hit matches Some(found) && found@ == result,
                None => hit is None,
            },
    {
        let name = String::from_str(script);
        let found = self.position(&name, fingerprint);
        proof {
            use_type_invariant(&*self);
        }
        match found {
            None => {
                proof {
                    lemma_absent_key(self.entries@, (script@, fingerprint));
                }
                None
            },
            Some(i) => {
                proof {
                    lemma_entry_at(self.entries@, i as int);
                }
                let entry = &self.entries[i];
                let age = if now >= entry.produced_at {
                    now - entry.produced_at
                } else {
                    0
                };
                let unchanged = match current_mtime {
                    Some(mtime) => mtime == entry.script_mtime,
                    None => false,
                };
                if age < self.ttl && unchanged {
                    Some(
                        ScriptResult {
                            stdout: entry.stdout.clone(),
                            stderr: entry.stderr.clone(),
                            exit_code: entry.exit_code,
                            timed_out: false,
                        },
                    )
                } else {
                    proof {
                        lemma_remove_entry(self.entries@, i as int);
                    }
                    let mut entries: Vec<CacheEntry> = Vec::new();
                    core::mem::swap(&mut self.entries, &mut entries);
                    entries.remove(i);
                    core::mem::swap(&mut self.entries, &mut entries);
                    None
                }
            },
        }
    }

    /// Records `result` under the key, in place of whatever was held there.
    pub fn store(
        &mut self,
        script: &str,
        fingerprint: u64,
        result: &ScriptResult,
        mtime: Mtime,
        now: u64,
    )
        ensures
            final(self).spec_ttl() == old(self).spec_ttl(),
            final(self)@ == old(self)@.insert((script@, fingerprint), entry_for(result@, mtime, now)),
    {
        let name = String::from_str(script);
        let found = self.position(&name, fingerprint);
        let entry = CacheEntry {
            script: name,
            fingerprint,
            stdout: result.stdout.clone(),
            stderr: result.stderr.clone(),
            exit_code: result.exit_code,
            produced_at: now,
            script_mtime: mtime,
        };
        proof {
            use_type_invariant(&*self);
        }
        let mut entries: Vec<CacheEntry> = Vec::new();
        core::mem::swap(&mut self.entries, &mut entries);
        match found {
            Some(i) => {
                proof {
                    lemma_replace_entry(entries@, i as int, entry);
                }
                entries.set(i, entry);
            },
            None => {
                proof {
                    lemma_push_entry(entries@, entry);
                }
                entries.push(entry);
            },
        }
        core::mem::swap(&mut self.entries, &mut entries);
    }
}

} // verus!
