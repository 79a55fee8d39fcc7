//! Fan-out over many targets: which scripts a request names, what is handed
//! to each run, and how the outcomes are gathered so that one target's
//! failure stays its own.

use vstd::prelude::*;
use vstd::string::*;
use bytes::Bytes;
use crate::error::{AppError, AppErrorView};
use crate::outcome::{ScriptResult, ScriptResultView, NO_EXIT_CODE};
use crate::payload::{bytes_contents, json_bytes, json_encoding, payload_from_vec};
use crate::runner::AppState;

verus! {

broadcast use vstd::string::group_string_axioms;

/// The characters with the Unicode property `White_Space`.
pub open spec fn is_whitespace(c: char) -> bool {
    let code = c as u32;
    ||| 0x09 <= code <= 0x0d
    ||| code == 0x20
    ||| code == 0x85
    ||| code == 0xa0
    ||| code == 0x1680
    ||| 0x2000 <= code <= 0x200a
    ||| code == 0x2028
    ||| code == 0x2029
    ||| code == 0x202f
    ||| code == 0x205f
    ||| code == 0x3000
}

/// `text` without the whitespace at its start.
pub open spec fn trim_start(text: Seq<char>) -> Seq<char>
    decreases text.len(),
{
    if text.len() > 0 && is_whitespace(text.first()) {
        trim_start(text.drop_first())
    } else {
        text
    }
}

/// `text` without the whitespace at its end.
pub open spec fn trim_end(text: Seq<char>) -> Seq<char>
    decreases text.len(),
{
    if text.len() > 0 && is_whitespace(text.last()) {
        trim_end(text.drop_last())
    } else {
        text
    }
}

/// `text` without the whitespace at either end.
pub open spec fn trimmed(text: Seq<char>) -> Seq<char> {
    trim_end(trim_start(text))
}

/// How many characters stand before the first comma of `text`; its length
/// where it holds none.
pub open spec fn first_comma(text: Seq<char>) -> int
    decreases text.len(),
{
    if text.len() == 0 || text.first() == ',' {
        0
    } else {
        1 + first_comma(text.drop_first())
    }
}

/// The names in a comma-separated list: each piece between commas without
/// the whitespace around it, empty pieces left out, in their order.
pub open spec fn listed_names(list: Seq<char>) -> Seq<Seq<char>>
    decreases list.len(),
{
    let end = first_comma(list);
    let name = trimmed(list.take(end));
    let own = if name.len() > 0 {
        seq![name]
    } else {
        Seq::empty()
    };
    if 0 <= end < list.len() {
        own + listed_names(list.skip(end + 1))
    } else {
        own
    }
}

proof fn lemma_first_comma(text: Seq<char>, end: int)
    requires
        0 <= end <= text.len(),
        forall|i: int| 0 <= i < end ==> text[i] != ',',
        end < text.len() ==> text[end] == ',',
    ensures
        first_comma(text) == end,
    decreases end,
{
    if end > 0 {
        lemma_first_comma(text.drop_first(), end - 1);
    }
}

proof fn lemma_trim_start(text: Seq<char>, from: int)
    requires
        0 <= from <= text.len(),
        forall|i: int| 0 <= i < from ==> is_whitespace(#[trigger] text[i]),
        from < text.len() ==> !is_whitespace(text[from]),
    ensures
        trim_start(text) == text.skip(from),
    decreases from,
{
    if from > 0 {
        assert(is_whitespace(text[0]));
        let rest = text.drop_first();
        assert forall|i: int| 0 <= i < from - 1 implies is_whitespace(#[trigger] rest[i]) by {
            assert(rest[i] == text[i + 1]);
        }
        lemma_trim_start(rest, from - 1);
        assert(rest.skip(from - 1) == text.skip(from));
    } else {
        assert(text.skip(0) == text);
    }
}

proof fn lemma_trim_end(text: Seq<char>, to: int)
    requires
        0 <= to <= text.len(),
        forall|i: int| to <= i < text.len() ==> is_whitespace(#[trigger] text[i]),
        to > 0 ==> !is_whitespace(text[to - 1]),
    ensures
        trim_end(text) == text.take(to),
    decreases text.len() - to,
{
    if to < text.len() {
        assert(is_whitespace(text[text.len() - 1]));
        let rest = text.drop_last();
        assert forall|i: int| to <= i < rest.len() implies is_whitespace(#[trigger] rest[i]) by {
            assert(rest[i] == text[i]);
        }
        lemma_trim_end(rest, to);
        assert(rest.take(to) == text.take(to));
    } else {
        assert(text.take(to) == text);
    }
}

/// Whether `c` is whitespace.
pub fn is_space(c: char) -> (space: bool)
    ensures
        space == is_whitespace(c),
{
    let code = c as u32;
    (0x09 <= code && code <= 0x0d) || code == 0x20 || code == 0x85 || code == 0xa0 || code
        == 0x1680 || (0x2000 <= code && code <= 0x200a) || code == 0x2028 || code == 0x2029
        || code == 0x202f || code == 0x205f || code == 0x3000
}

fn chars_of(text: &str) -> (chars: Vec<char>)
    ensures
        chars@ == text@,
{
    let mut chars: Vec<char> = Vec::new();
    for c in it: text.chars()
        invariant
            it.seq() == text@,
            chars@ == text@.take(it.index() as int),
    {
        assert(text@.take(it.index() + 1) == text@.take(it.index() as int).push(c));
        chars.push(c);
    }
    assert(text@.take(text@.len() as int) == text@);
    chars
}

/// Reads a comma-separated list of script names.
pub fn parse_targets(list: &str) -> (names: Vec<String>)
    ensures
        names.deep_view() == listed_names(list@),
{
    let chars = chars_of(list);
    let n = chars.len();
    let mut names: Vec<String> = Vec::new();
    let mut start: usize = 0;
    let mut done = false;
    assert(names.deep_view() =~= Seq::<Seq<char>>::empty());
    assert(list@.skip(0) == list@);
    while !done
        invariant
            chars@ == list@,
            n == chars@.len(),
            start <= n,
            !done ==> names.deep_view() + listed_names(list@.skip(start as int)) == listed_names(
                list@,
            ),
            done ==> names.deep_view() == listed_names(list@),
        decreases
            (if done {
                0
            } else {
                n - start + 1
            }),
    {
        let ghost rest = list@.skip(start as int);
        let mut end = start;
        while end < n && chars[end] != ','
            invariant
                chars@ == list@,
                n == chars@.len(),
                start <= end <= n,
                forall|i: int| start <= i < end ==> list@[i] != ',',
            decreases n - end,
        {
            end = end + 1;
        }
        let mut from = start;
        while from < end && is_space(chars[from])
            invariant
                chars@ == list@,
                start <= from <= end <= n,
                n == chars@.len(),
                forall|i: int| start <= i < from ==> is_whitespace(#[trigger] list@[i]),
            decreases end - from,
        {
            from = from + 1;
        }
        let mut to = end;
        while to > from && is_space(chars[to - 1])
            invariant
                chars@ == list@,
                from <= to <= end <= n,
                n == chars@.len(),
                forall|i: int| to <= i < end ==> is_whitespace(#[trigger] list@[i]),
            decreases to - from,
        {
            to = to - 1;
        }
        proof {
            lemma_first_comma(rest, end - start);
            let piece = rest.take(end - start);
            assert(piece == list@.subrange(start as int, end as int));
            lemma_trim_start(piece, from - start);
            let tail = piece.skip(from - start);
            assert(tail == list@.subrange(from as int, end as int));
            lemma_trim_end(tail, to - from);
            assert(tail.take(to - from) == list@.subrange(from as int, to as int));
            assert(trimmed(piece) == list@.subrange(from as int, to as int));
            if end < n {
                assert(rest.skip(end - start + 1) == list@.skip(end + 1));
            }
        }
        let ghost before = names.deep_view();
        if from < to {
            names.push(String::from_str(list.substring_char(from, to)));
            assert(names.deep_view() =~= before.push(list@.subrange(from as int, to as int)));
        }
        assert(names.deep_view() =~= before + (if from < to {
            seq![list@.subrange(from as int, to as int)]
        } else {
            Seq::empty()
        }));
        if end < n {
            start = end + 1;
        } else {
            done = true;
        }
    }
    names
}

/// The query of a fan-out request.
#[derive(Debug)]
pub struct RunQuery {
    /// The targets as a comma-separated list; `None` asks for every
    /// registered script.
    pub names: Option<String>,
}

/// The targets that a query names, given the registered scripts.
pub open spec fn targets_of(names: Option<Seq<char>>, scripts: Seq<Seq<char>>) -> Seq<Seq<char>> {
    match names {
        Some(list) => listed_names(list),
        None => scripts,
    }
}

/// The targets of a fan-out: the names that the query lists, or every
/// registered script where it lists none.
pub fn resolve_targets(state: &AppState, query: &RunQuery) -> (targets: Vec<String>)
    ensures
        targets.deep_view() == targets_of(
            match query.names {
                Some(list) => Some(list@),
                None => None,
            },
            state@.scripts,
        ),
{
    match &query.names {
        Some(list) => parse_targets(list.as_str()),
        None => state.list_scripts(),
    }
}

/// The body of a run request.
#[derive(Debug)]
pub struct RunRequest {
    /// The value handed to the script, as JSON, on its standard input.
    pub data: serde_json::Value,
    /// The arguments of the script; none where the field is absent.
    pub args: Option<Vec<String>>,
}

/// What every run of a request is started with.
#[derive(Debug)]
pub struct RunInput {
    pub args: Vec<String>,
    pub input: Bytes,
}

/// The arguments that a request stands for.
pub open spec fn given_args(args: Option<Vec<String>>) -> Seq<Seq<char>> {
    match args {
        Some(list) => list.deep_view(),
        None => Seq::empty(),
    }
}

/// Makes the input of a run from the arguments of the request and from
/// what encoding its payload gave: the bytes, or the text of the error.
pub fn run_input(args: Option<Vec<String>>, encoded: Result<Vec<u8>, String>) -> (made: Result<
    RunInput,
    AppError,
>)
    ensures
        match encoded {
            Ok(bytes) => made matches Ok(input) && input.args.deep_view() == given_args(args)
                && bytes_contents(input.input) == bytes@,
            Err(reason) => made matches Err(error) && error@ == AppErrorView::Json(reason@),
        },
{
    match encoded {
        Ok(bytes) => {
            let args = match args {
                Some(list) => list,
                None => {
                    let none: Vec<String> = Vec::new();
                    assert(none.deep_view() =~= Seq::<Seq<char>>::empty());
                    none
                },
            };
            Ok(RunInput { args, input: payload_from_vec(bytes) })
        },
        Err(reason) => Err(AppError::Json(reason)),
    }
}

impl RunRequest {
    /// Encodes the payload as JSON and makes the input of the runs. The
    /// only failure is that of the encoder.
    pub fn into_input(self) -> (made: Result<RunInput, AppError>)
        ensures
            match json_encoding(self.data) {
                Some(bytes) => made matches Ok(input) && input.args.deep_view() == given_args(
                    self.args,
                ) && bytes_contents(input.input) == bytes,
                None => made matches Err(error) && error@ is Json,
            },
    {
        let encoded = match json_bytes(&self.data) {
            Ok(bytes) => Ok(bytes),
            Err(error) => Err(error.to_string()),
        };
        run_input(self.args, encoded)
    }
}

/// What a fan-out is started with: its targets and, unless there is none,
/// the input that every run gets.
#[derive(Debug)]
pub struct FanOut {
    pub targets: Vec<String>,
    pub input: Option<RunInput>,
}

/// Plans a fan-out: resolves the targets, then encodes the payload. Where
/// the request names no target nothing is encoded, so nothing can fail.
pub fn plan_fan_out(state: &AppState, query: &RunQuery, payload: RunRequest) -> (plan: Result<
    FanOut,
    AppError,
>)
    ensures
        ({
            let targets = targets_of(
                match query.names {
                    Some(list) => Some(list@),
                    None => None,
                },
                state@.scripts,
            );
            if targets.len() == 0 {
                plan matches Ok(fan_out) && fan_out.targets.deep_view() == targets
                    && fan_out.input is None
            } else {
                match json_encoding(payload.data) {
                    Some(bytes) => {
                        &&& plan matches Ok(fan_out)
                        &&& fan_out.targets.deep_view() == targets
                        &&& fan_out.input matches Some(input)
                        &&& input.args.deep_view() == given_args(payload.args)
                        &&& bytes_contents(input.input) == bytes
                    },
                    None => plan matches Err(error) && error@ is Json,
                }
            }
        }),
{
    let targets = resolve_targets(state, query);
    if targets.len() == 0 {
        return Ok(FanOut { targets, input: None });
    }
    match payload.into_input() {
        Ok(input) => Ok(FanOut { targets, input: Some(input) }),
        Err(error) => Err(error),
    }
}

/// The entry that stands for a target in the response.
pub open spec fn entry_of(outcome: Result<ScriptResult, AppError>) -> ScriptResultView {
    match outcome {
        Ok(result) => result@,
        Err(error) => ScriptResultView {
            stdout: Seq::empty(),
            stderr: "Error: "@ + error@.message(),
            exit_code: NO_EXIT_CODE,
            timed_out: false,
        },
    }
}

/// The entry that stands for a target whose run failed: no output, the
/// failure in the error stream.
pub fn failure_entry(error: &AppError) -> (entry: ScriptResult)
    ensures
        entry@ == entry_of(Err(*error)),
{
    let mut stderr = String::from_str("Error: ");
    let message = error.message();
    stderr.append(message.as_str());
    ScriptResult { stdout: String::new(), stderr, exit_code: NO_EXIT_CODE, timed_out: false }
}

/// The map that a list of named entries stands for: where a name occurs
/// more than once, its last entry counts.
pub open spec fn results_map(results: Seq<(String, ScriptResult)>) -> Map<
    Seq<char>,
    ScriptResultView,
>
    decreases results.len(),
{
    if results.len() == 0 {
        Map::empty()
    } else {
        results_map(results.drop_last()).insert(results.last().0@, results.last().1@)
    }
}

/// The outcome of a fan-out: one entry per target, in the order of the
/// targets.
#[derive(Debug)]
pub struct RunResponse {
    pub results: Vec<(String, ScriptResult)>,
}

impl View for RunResponse {
    type V = Map<Seq<char>, ScriptResultView>;

    open spec fn view(&self) -> Map<Seq<char>, ScriptResultView> {
        results_map(self.results@)
    }
}

proof fn lemma_no_entry(results: Seq<(String, ScriptResult)>, name: Seq<char>)
    requires
        forall|i: int| 0 <= i < results.len() ==> (#[trigger] results[i]).0@ != name,
    ensures
        !results_map(results).contains_key(name),
    decreases results.len(),
{
    if results.len() > 0 {
        let front = results.drop_last();
        assert forall|i: int| 0 <= i < front.len() implies (#[trigger] front[i]).0@ != name by {
            assert(front[i] == results[i]);
        }
        assert(results.last() == results[results.len() - 1]);
        lemma_no_entry(front, name);
    }
}

proof fn lemma_last_entry(results: Seq<(String, ScriptResult)>, name: Seq<char>, at: int)
    requires
        0 <= at < results.len(),
        results[at].0@ == name,
        forall|i: int| at < i < results.len() ==> (#[trigger] results[i]).0@ != name,
    ensures
        results_map(results).contains_key(name),
        results_map(results)[name] == results[at].1@,
    decreases results.len(),
{
    if at < results.len() - 1 {
        let front = results.drop_last();
        assert forall|i: int| at < i < front.len() implies (#[trigger] front[i]).0@ != name by {
            assert(front[i] == results[i]);
        }
        assert(front[at] == results[at]);
        assert(results.last() == results[results.len() - 1]);
        lemma_last_entry(front, name, at);
    }
}

impl RunResponse {
    /// The entry of `name`, if the response has one.
    pub fn get(&self, name: &str) -> (entry: Option<&ScriptResult>)
        ensures
            match entry {
                Some(result) => self@.contains_key(name@) && result@ == self@[name@],
                None => !self@.contains_key(name@),
            },
    {
        let wanted = String::from_str(name);
        let mut i: usize = self.results.len();
        while i > 0
            invariant
                i <= self.results@.len(),
                wanted@ == name@,
                forall|j: int| i <= j < self.results@.len() ==> (#[trigger] self.results@[j]).0@
                    != name@,
            decreases i,
        {
            i = i - 1;
            if self.results[i].0 == wanted {
                proof {
                    lemma_last_entry(self.results@, name@, i as int);
                }
                return Some(&self.results[i].1);
            }
        }
        proof {
            lemma_no_entry(self.results@, name@);
        }
        None
    }
}

/// No later outcome in the list is for the same target as the one at `at`.
pub open spec fn is_last_of_its_name(
    outcomes: Seq<(String, Result<ScriptResult, AppError>)>,
    at: int,
) -> bool {
    forall|j: int| at < j < outcomes.len() ==> (#[trigger] outcomes[j]).0@ != outcomes[at].0@
}

/// Gathers the outcomes of a fan-out. Every target gets an entry: its
/// result where the run succeeded, and an entry that reports the failure
/// where it did not. No entry depends on another target's outcome.
pub fn collect_results(outcomes: Vec<(String, Result<ScriptResult, AppError>)>) -> (response:
    RunResponse)
    ensures
        response.results@.len() == outcomes@.len(),
        forall|i: int|
            0 <= i < outcomes@.len() ==> (#[trigger] response.results@[i]).0@ == outcomes@[i].0@
                && response.results@[i].1@ == entry_of(outcomes@[i].1),
        forall|i: int|
            0 <= i < outcomes@.len() && is_last_of_its_name(outcomes@, i) ==> response@.contains_key(
                (#[trigger] outcomes@[i]).0@,
            ) && response@[outcomes@[i].0@] == entry_of(outcomes@[i].1),
{
    let mut results: Vec<(String, ScriptResult)> = Vec::new();
    let mut i: usize = 0;
    while i < outcomes.len()
        invariant
            i <= outcomes@.len(),
            results@.len() == i,
            forall|j: int|
                0 <= j < i ==> (#[trigger] results@[j]).0@ == outcomes@[j].0@ && results@[j].1@
                    == entry_of(outcomes@[j].1),
        decreases outcomes@.len() - i,
    {
        let name = outcomes[i].0.clone();
        let entry = match &outcomes[i].1 {
            Ok(result) => result.clone(),
            Err(error) => failure_entry(error),
        };
        results.push((name, entry));
        i = i + 1;
    }
    assert forall|i: int|
        0 <= i < outcomes@.len() && is_last_of_its_name(outcomes@, i) implies results_map(
        results@,
    ).contains_key((#[trigger] outcomes@[i]).0@) && results_map(results@)[outcomes@[i].0@]
        == entry_of(outcomes@[i].1) by {
        assert(results@[i].0@ == outcomes@[i].0@);
        assert forall|j: int| i < j < results@.len() implies (#[trigger] results@[j]).0@
            != outcomes@[i].0@ by {
            assert(outcomes@[j].0@ != outcomes@[i].0@);
        }
        lemma_last_entry(results@, outcomes@[i].0@, i);
    }
    RunResponse { results }
}

} // verus!
