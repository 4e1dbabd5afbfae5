//! Keeping the compiled rules in step with their remote sources.

use std::sync::Arc;

use regex::Regex;
use vstd::hash_set::StringHashSet;
use vstd::prelude::*;
use vstd::string::*;

use crate::dynamic_regex::{DynamicRegexConfig, RemoteRegexPayload};
use crate::http::{status_line, Status};
use crate::patterns::{
    all_valid_compiles_whole, carried_patterns, compile_safe_regexes, compiled_from,
    compiled_in_order, is_valid, lemma_carried_in_order, lemma_filter_push, pattern_matches, regex_is_match, regex_matches, texts, valid_patterns,
};

verus! {

/// The rules in force: their patterns, and those that could be compiled.
#[derive(Clone)]
pub struct DynamicRegexState {
    patterns: Vec<String>,
    compiled: Arc<Vec<Regex>>,
}

/// Some expression of a list matches the text.
pub open spec fn any_matches(compiled: Seq<Regex>, text: Seq<char>) -> bool {
    exists|i: int| 0 <= i < compiled.len() && regex_matches(#[trigger] compiled[i], text)
}

/// The patterns at whose place an expression matches the text, in order.
pub open spec fn matching(compiled: Seq<Regex>, patterns: Seq<Seq<char>>, text: Seq<char>) -> Seq<
    Seq<char>,
>
    decreases patterns.len(),
{
    if compiled.len() == 0 || patterns.len() == 0 {
        seq![]
    } else {
        let rest = matching(compiled.drop_first(), patterns.drop_first(), text);
        if regex_matches(compiled[0], text) {
            seq![patterns[0]] + rest
        } else {
            rest
        }
    }
}

/// The contents of a list of borrowed texts.
pub open spec fn borrowed_texts(list: Seq<&str>) -> Seq<Seq<char>> {
    list.map_values(|s: &str| s@)
}

impl DynamicRegexState {
    /// The patterns of the rules.
    pub closed spec fn spec_patterns(self) -> Seq<Seq<char>> {
        texts(self.patterns@)
    }

    /// The compiled expressions.
    pub closed spec fn spec_compiled(self) -> Seq<Regex> {
        self.compiled@
    }

    /// The state holds these patterns, and the expressions of those among
    /// them that compile.
    pub open spec fn holds(self, patterns: Seq<Seq<char>>) -> bool {
        &&& self.spec_patterns() == patterns
        &&& compiled_in_order(self.spec_compiled(), valid_patterns(patterns))
    }

    /// A state of given patterns and expressions.
    pub fn new(patterns: Vec<String>, compiled: Vec<Regex>) -> (r: DynamicRegexState)
        ensures
            r.spec_patterns() == texts(patterns@),
            r.spec_compiled() == compiled@,
    {
        DynamicRegexState { patterns, compiled: Arc::new(compiled) }
    }

    /// The patterns of the rules.
    pub fn patterns(&self) -> (r: &[String])
        ensures
            texts(r@) == self.spec_patterns(),
    {
        self.patterns.as_slice()
    }

    /// The compiled expressions.
    pub fn compiled(&self) -> (r: &[Regex])
        ensures
            r@ == self.spec_compiled(),
    {
        self.compiled.as_slice()
    }

    /// Whether some expression matches the text.
    pub fn is_match(&self, text: &str) -> (r: bool)
        ensures
            r == any_matches(self.spec_compiled(), text@),
    {
        let compiled = self.compiled();
        let mut i: usize = 0;
        while i < compiled.len()
            invariant
                i <= compiled.len(),
                compiled@ == self.spec_compiled(),
                forall|j: int| 0 <= j < i ==> !regex_matches(#[trigger] compiled@[j], text@),
            decreases compiled.len() - i,
        {
            if regex_is_match(&compiled[i], text) {
                return true;
            }
            i += 1;
        }
        false
    }

    /// The patterns at whose place an expression matches the text.
    pub fn matching_patterns<'a>(&'a self, text: &'a str) -> (r: Vec<&'a str>)
        ensures
            borrowed_texts(r@) == matching(self.spec_compiled(), self.spec_patterns(), text@),
    {
        let compiled = self.compiled();
        let patterns = self.patterns();
        let ghost all = texts(patterns@);
        let mut found: Vec<&'a str> = Vec::new();
        let mut i: usize = 0;
        proof {
            assert(compiled@.skip(0) =~= compiled@);
            assert(all.skip(0) =~= all);
            let rest = matching(compiled@, all, text@);
            assert(borrowed_texts(found@) + rest =~= rest);
        }
        while i < compiled.len() && i < patterns.len()
            invariant
                i <= compiled.len(),
                i <= patterns.len(),
                all == texts(patterns@),
                matching(compiled@, all, text@) == borrowed_texts(found@) + matching(
                    compiled@.skip(i as int),
                    all.skip(i as int),
                    text@,
                ),
            decreases compiled.len() - i,
        {
            let ghost before = borrowed_texts(found@);
            let ghost rest = matching(compiled@.skip(i + 1), all.skip(i + 1), text@);
            proof {
                assert(compiled@.skip(i as int).drop_first() =~= compiled@.skip(i + 1));
                assert(all.skip(i as int).drop_first() =~= all.skip(i + 1));
            }
            if regex_is_match(&compiled[i], text) {
                let pattern: &'a str = patterns[i].as_str();
                found.push(pattern);
                proof {
                    assert(borrowed_texts(found@) =~= before.push(pattern@));
                    assert(before + (seq![pattern@] + rest) =~= before.push(pattern@) + rest);
                }
            }
            i += 1;
        }
        proof {
            let rest = matching(compiled@.skip(i as int), all.skip(i as int), text@);
            assert(rest.len() == 0);
            assert(borrowed_texts(found@) + rest =~= borrowed_texts(found@));
        }
        found
    }
}

impl Default for DynamicRegexState {
    fn default() -> (r: Self)
        ensures
            r.spec_patterns() == Seq::<Seq<char>>::empty(),
            r.spec_compiled() == Seq::<Regex>::empty(),
    {
        let patterns: Vec<String> = Vec::new();
        let compiled: Vec<Regex> = Vec::new();
        let r = DynamicRegexState::new(patterns, compiled);
        assert(r.spec_patterns() =~= Seq::<Seq<char>>::empty());
        r
    }
}

/// A list without the repetitions of earlier elements.
pub open spec fn deduplicated(list: Seq<Seq<char>>) -> Seq<Seq<char>>
    decreases list.len(),
{
    if list.len() == 0 {
        seq![]
    } else {
        let rest = deduplicated(list.drop_last());
        if list.drop_last().contains(list.last()) {
            rest
        } else {
            rest.push(list.last())
        }
    }
}

/// Drops the repetitions of earlier elements from a list.
pub fn dedup_patterns(list: Vec<String>) -> (r: Vec<String>)
    ensures
        texts(r@) == deduplicated(texts(list@)),
{
    let mut seen = StringHashSet::new();
    let mut kept: Vec<String> = Vec::new();
    let ghost all = texts(list@);
    let mut i: usize = 0;
    proof {
        assert(all.take(0) =~= seq![]);
        assert(texts(kept@) =~= deduplicated(all.take(0)));
    }
    while i < list.len()
        invariant
            i <= list.len(),
            all == texts(list@),
            forall|p: Seq<char>| seen@.contains(p) <==> all.take(i as int).contains(p),
            texts(kept@) == deduplicated(all.take(i as int)),
        decreases list.len() - i,
    {
        let ghost before = all.take(i as int);
        let ghost kept_before = kept@;
        let pattern = list[i].clone();
        proof {
            assert(all.take(i + 1).drop_last() =~= before);
            assert(all.take(i + 1).last() == pattern@);
            assert forall|p: Seq<char>|
                before.contains(p) || p == pattern@ <==> all.take(i + 1).contains(p) by {
                if before.contains(p) {
                    let j = choose|j: int| 0 <= j < before.len() && before[j] == p;
                    assert(all.take(i + 1)[j] == p);
                }
                if p == pattern@ {
                    assert(all.take(i + 1)[i as int] == p);
                }
                if all.take(i + 1).contains(p) {
                    let j = choose|j: int| 0 <= j < i + 1 && #[trigger] all.take(i + 1)[j] == p;
                    if j < i {
                        assert(before[j] == p);
                    }
                }
            }
        }
        if seen.insert(pattern.clone()) {
            kept.push(pattern);
            proof {
                assert(texts(kept@) =~= texts(kept_before).push(pattern@));
            }
        }
        i += 1;
    }
    proof {
        assert(all.take(list@.len() as int) =~= all);
    }
    kept
}

/// What came back from a source.
#[derive(Debug)]
pub enum SourceReply {
    /// Nothing.
    Unreachable,
    /// A status, with a body that could not be read.
    Unreadable { status: Status },
    /// A status, with the rules in the body where there are some.
    Answered { status: Status, payload: Option<RemoteRegexPayload> },
}

/// Why a source gave no rules, going by the status of its reply.
pub open spec fn fetch_refusal(status: Status, url: Seq<char>) -> Option<Seq<char>> {
    if status.spec_code() == 403 {
        Some("forbidden (403) from "@ + url)
    } else if !status.spec_success() {
        Some("HTTP status "@ + status_line(status.spec_code()) + " from "@ + url)
    } else {
        None
    }
}

/// The patterns that a source gave, or why it gave none.
pub open spec fn source_outcome(reply: SourceReply, url: Seq<char>) -> Result<
    Seq<Seq<char>>,
    Seq<char>,
> {
    match reply {
        SourceReply::Unreachable => Err("HTTP request failed for "@ + url),
        SourceReply::Unreadable { status } => match fetch_refusal(status, url) {
            Some(message) => Err(message),
            None => Err("failed to read response body from "@ + url),
        },
        SourceReply::Answered { status, payload } => match fetch_refusal(status, url) {
            Some(message) => Err(message),
            None => match payload {
                Some(payload) => Ok(payload.spec_patterns()),
                None => Err("failed to deserialize remote regex payload from "@ + url),
            },
        },
    }
}

/// The patterns of the sources that answered, one after the other.
pub open spec fn fetched_patterns(fetched: Seq<Option<Vec<String>>>) -> Seq<Seq<char>>
    decreases fetched.len(),
{
    if fetched.len() == 0 {
        seq![]
    } else {
        fetched_patterns(fetched.drop_last()) + match fetched.last() {
            Some(patterns) => texts(patterns@),
            None => seq![],
        }
    }
}

/// Some source answered.
pub open spec fn any_fetched(fetched: Seq<Option<Vec<String>>>) -> bool {
    exists|i: int| 0 <= i < fetched.len() && (#[trigger] fetched[i]) is Some
}

/// What is left to do after the sources were asked.
#[derive(Debug, PartialEq, Eq)]
pub enum SyncStep {
    /// The rules were replaced; write this payload to the cache, if any.
    Replaced(Option<RemoteRegexPayload>),
    /// No source answered: read the cache.
    ReadCache,
    /// Nothing is configured: stay as is.
    Idle,
    /// No source answered and there is no cache: stay as is.
    Unavailable,
}

/// `payload` is what is written to the cache for a list of patterns.
pub open spec fn saves(patterns: Seq<Seq<char>>, payload: RemoteRegexPayload) -> bool {
    payload is Patterns && payload.spec_patterns() == patterns
}

/// `state` holds the rules of a cache, if it could be read.
pub open spec fn loads(
    payload: Option<RemoteRegexPayload>,
    state: Option<DynamicRegexState>,
) -> bool {
    match payload {
        Some(p) => state matches Some(state) && state.holds(p.spec_patterns()),
        None => state is None,
    }
}

/// The name of the cache in a directory.
pub const CACHE_FILE_NAME: &'static str = "regex_cache.json";

fn about(what: &str, whom: &str) -> (r: String)
    ensures
        r@ == what@ + whom@,
{
    let mut message = what.to_string();
    message.append(whom);
    message
}

/// Synchronises the rules with their sources.
pub struct RegexSyncService {
    config: DynamicRegexConfig,
    state: DynamicRegexState,
}

impl RegexSyncService {
    /// Where rules come from.
    pub closed spec fn spec_config(self) -> DynamicRegexConfig {
        self.config
    }

    /// The rules in force.
    pub closed spec fn spec_state(self) -> DynamicRegexState {
        self.state
    }

    /// A service without rules.
    pub fn new(config: DynamicRegexConfig) -> (r: RegexSyncService)
        ensures
            r.spec_config() == config,
            r.spec_state().spec_patterns() == Seq::<Seq<char>>::empty(),
            r.spec_state().spec_compiled() == Seq::<Regex>::empty(),
    {
        RegexSyncService { config, state: DynamicRegexState::default() }
    }

    /// Where rules come from.
    pub fn config(&self) -> (r: &DynamicRegexConfig)
        ensures
            *r == self.spec_config(),
    {
        &self.config
    }

    /// The rules in force.
    pub fn state(&self) -> (r: &DynamicRegexState)
        ensures
            *r == self.spec_state(),
    {
        &self.state
    }

    /// The seconds between two synchronisations; one at least.
    pub fn sync_interval_secs(&self) -> (r: u64)
        ensures
            r == if self.spec_config().sync_interval_secs >= 1 {
                self.spec_config().sync_interval_secs
            } else {
                1
            },
    {
        if self.config.sync_interval_secs >= 1 {
            self.config.sync_interval_secs
        } else {
            1
        }
    }

    /// The file that holds the cache, given whether the configured path is a
    /// directory: the file of this name within it, or the path itself.
    pub fn resolve_cache_file_path(is_dir: bool) -> (r: Option<&'static str>)
        ensures
            match r {
                Some(name) => is_dir && name@ == CACHE_FILE_NAME@,
                None => !is_dir,
            },
    {
        if is_dir {
            Some(CACHE_FILE_NAME)
        } else {
            None
        }
    }

    fn refusal_of(status: Status, url: &str) -> (r: Option<String>)
        ensures
            match r {
                Some(message) => fetch_refusal(status, url@) == Some(message@),
                None => fetch_refusal(status, url@) is None,
            },
    {
        if status.as_u16() == 403 {
            Some(about("forbidden (403) from ", url))
        } else if !status.is_success() {
            let mut message = about("HTTP status ", status.line().as_str());
            message.append(" from ");
            message.append(url);
            Some(message)
        } else {
            None
        }
    }

    /// The patterns that a source gave, or why it gave none.
    pub fn fetch_single_url(url: &str, reply: SourceReply) -> (r: Result<Vec<String>, String>)
        ensures
            match r {
                Ok(patterns) => source_outcome(reply, url@) == Ok::<Seq<Seq<char>>, Seq<char>>(
                    texts(patterns@),
                ),
                Err(message) => source_outcome(reply, url@) == Err::<Seq<Seq<char>>, Seq<char>>(
                    message@,
                ),
            },
    {
        match reply {
            SourceReply::Unreachable => Err(about("HTTP request failed for ", url)),
            SourceReply::Unreadable { status } => match Self::refusal_of(status, url) {
                Some(message) => Err(message),
                None => Err(about("failed to read response body from ", url)),
            },
            SourceReply::Answered { status, payload } => match Self::refusal_of(status, url) {
                Some(message) => Err(message),
                None => match payload {
                    Some(payload) => Ok(payload.into_patterns()),
                    None => Err(about("failed to deserialize remote regex payload from ", url)),
                },
            },
        }
    }

    /// The rules of a cache that could be read.
    pub fn load_from_cache(payload: Option<RemoteRegexPayload>) -> (r: Option<DynamicRegexState>)
        ensures
            loads(payload, r),
    {
        match payload {
            Some(payload) => {
                let patterns = payload.into_patterns();
                let (compiled, _invalid) = compile_safe_regexes(patterns.as_slice());
                Some(DynamicRegexState::new(patterns, compiled))
            },
            None => None,
        }
    }

    /// What is written to the cache for a list of patterns.
    pub fn save_to_cache(patterns: &[String]) -> (r: RemoteRegexPayload)
        ensures
            saves(texts(patterns@), r),
    {
        let mut copy: Vec<String> = Vec::new();
        let mut i: usize = 0;
        while i < patterns.len()
            invariant
                i <= patterns.len(),
                copy@.len() == i,
                forall|j: int| 0 <= j < i ==> (#[trigger] copy@[j])@ == patterns@[j]@,
            decreases patterns.len() - i,
        {
            copy.push(patterns[i].clone());
            i += 1;
        }
        assert(texts(copy@) =~= texts(patterns@));
        RemoteRegexPayload::Patterns { patterns: copy }
    }

    /// Takes in what the sources gave, in the order of the configuration. If
    /// some source answered, the rules are replaced by the patterns of all
    /// that did, without repetitions; patterns that do not compile are kept
    /// in the list but match nothing.
    pub fn sync(&mut self, fetched: Vec<Option<Vec<String>>>) -> (r: SyncStep)
        ensures
            final(self).spec_config() == old(self).spec_config(),
            any_fetched(fetched@) ==> {
                let patterns = deduplicated(fetched_patterns(fetched@));
                &&& final(self).spec_state().holds(patterns)
                &&& r matches SyncStep::Replaced(save)
                &&& save is Some <==> old(self).spec_config().fallback_cache_path@.len() > 0
                &&& save matches Some(payload) ==> saves(patterns, payload)
            },
            !any_fetched(fetched@) ==> {
                &&& final(self).spec_state() == old(self).spec_state()
                &&& r == if old(self).spec_config().fallback_cache_path@.len() > 0 {
                    SyncStep::ReadCache
                } else if old(self).spec_config().urls@.len() == 0 {
                    SyncStep::Idle
                } else {
                    SyncStep::Unavailable
                }
            },
    {
        let mut all: Vec<String> = Vec::new();
        let mut any_fetch_succeeded = false;
        let mut i: usize = 0;
        proof {
            assert(fetched@.take(0) =~= seq![]);
            assert(texts(all@) =~= fetched_patterns(fetched@.take(0)));
        }
        while i < fetched.len()
            invariant
                i <= fetched.len(),
                texts(all@) == fetched_patterns(fetched@.take(i as int)),
                any_fetch_succeeded == any_fetched(fetched@.take(i as int)),
            decreases fetched.len() - i,
        {
            proof {
                assert(fetched@.take(i + 1).drop_last() =~= fetched@.take(i as int));
                assert(any_fetched(fetched@.take(i + 1)) == (any_fetched(fetched@.take(i as int))
                    || fetched@[i as int] is Some)) by {
                    if any_fetched(fetched@.take(i as int)) {
                        let j = choose|j: int|
                            0 <= j < i && (#[trigger] fetched@.take(i as int)[j]) is Some;
                        assert(fetched@.take(i + 1)[j] is Some);
                    }
                    if fetched@[i as int] is Some {
                        assert(fetched@.take(i + 1)[i as int] is Some);
                    }
                    if any_fetched(fetched@.take(i + 1)) {
                        let j = choose|j: int|
                            0 <= j < i + 1 && (#[trigger] fetched@.take(i + 1)[j]) is Some;
                        if j < i {
                            assert(fetched@.take(i as int)[j] is Some);
                        }
                    }
                }
            }
            match &fetched[i] {
                Some(patterns) => {
                    any_fetch_succeeded = true;
                    append_all(&mut all, patterns);
                },
                None => {
                    proof {
                        let now = fetched_patterns(fetched@.take(i as int));
                        assert(now + Seq::<Seq<char>>::empty() =~= now);
                    }
                },
            }
            i += 1;
        }
        proof {
            assert(fetched@.take(fetched@.len() as int) =~= fetched@);
        }
        if any_fetch_succeeded {
            let deduped = dedup_patterns(all);
            let (compiled, _invalid) = compile_safe_regexes(deduped.as_slice());
            let save = if self.config.fallback_cache_path.as_str().is_empty() {
                None
            } else {
                Some(Self::save_to_cache(deduped.as_slice()))
            };
            self.state = DynamicRegexState::new(deduped, compiled);
            SyncStep::Replaced(save)
        } else if !self.config.fallback_cache_path.as_str().is_empty() {
            SyncStep::ReadCache
        } else {
            self.without_cache()
        }
    }

    /// Takes in the cache, if it could be read: its rules replace those in
    /// force. Else nothing changes.
    pub fn restore(&mut self, cached: Option<RemoteRegexPayload>) -> (r: SyncStep)
        ensures
            final(self).spec_config() == old(self).spec_config(),
            match cached {
                Some(payload) => r == SyncStep::Replaced(None) && final(self).spec_state().holds(
                    payload.spec_patterns(),
                ),
                None => {
                    &&& final(self).spec_state() == old(self).spec_state()
                    &&& r == if old(self).spec_config().urls@.len() == 0 {
                        SyncStep::Idle
                    } else {
                        SyncStep::Unavailable
                    }
                },
            },
    {
        match Self::load_from_cache(cached) {
            Some(state) => {
                self.state = state;
                SyncStep::Replaced(None)
            },
            None => self.without_cache(),
        }
    }

    fn without_cache(&self) -> (r: SyncStep)
        ensures
            r == if self.spec_config().urls@.len() == 0 {
                SyncStep::Idle
            } else {
                SyncStep::Unavailable
            },
    {
        if self.config.urls.is_empty() {
            SyncStep::Idle
        } else {
            SyncStep::Unavailable
        }
    }
}

fn append_all(list: &mut Vec<String>, more: &Vec<String>)
    ensures
        texts(final(list)@) == texts(old(list)@) + texts(more@),
{
    let ghost start = list@;
    let mut i: usize = 0;
    proof {
        assert(texts(more@.take(0)) =~= seq![]);
        assert(texts(list@) + texts(more@.take(0)) =~= texts(list@));
    }
    while i < more.len()
        invariant
            i <= more.len(),
            texts(list@) == texts(start) + texts(more@.take(i as int)),
        decreases more.len() - i,
    {
        let ghost before = list@;
        list.push(more[i].clone());
        proof {
            assert(texts(list@) =~= texts(before).push(more@[i as int]@));
            assert(texts(more@.take(i + 1)) =~= texts(more@.take(i as int)).push(
                more@[i as int]@,
            ));
            assert(texts(list@) =~= texts(start) + texts(more@.take(i + 1)));
        }
        i += 1;
    }
    proof {
        assert(more@.take(more@.len() as int) =~= more@);
    }
}

/// Place `i` is the first one in `list` that holds `p`.
pub open spec fn first_at(list: Seq<Seq<char>>, p: Seq<char>, i: int) -> bool {
    &&& 0 <= i < list.len()
    &&& list[i] == p
    &&& forall|j: int| 0 <= j < i ==> #[trigger] list[j] != p
}

/// Dropping repetitions loses no pattern and keeps none twice.
pub proof fn dedup_keeps_each_once(list: Seq<Seq<char>>)
    ensures
        forall|p: Seq<char>| #[trigger] deduplicated(list).contains(p) <==> list.contains(p),
        deduplicated(list).no_duplicates(),
    decreases list.len(),
{
    if list.len() > 0 {
        let rest = list.drop_last();
        let last = list.last();
        dedup_keeps_each_once(rest);
        assert forall|p: Seq<char>| #[trigger] deduplicated(list).contains(p) <==> list.contains(
            p,
        ) by {
            assert(list =~= rest.push(last));
            if list.contains(p) {
                let i = choose|i: int| 0 <= i < list.len() && list[i] == p;
                if i < rest.len() {
                    assert(rest[i] == p);
                    assert(deduplicated(rest).contains(p));
                    let k = choose|k: int|
                        0 <= k < deduplicated(rest).len() && deduplicated(rest)[k] == p;
                    assert(deduplicated(list)[k] == p);
                } else if rest.contains(last) {
                    assert(deduplicated(rest).contains(p));
                } else {
                    assert(deduplicated(list).last() == p);
                }
            }
            if deduplicated(list).contains(p) {
                let k = choose|k: int|
                    0 <= k < deduplicated(list).len() && deduplicated(list)[k] == p;
                if k < deduplicated(rest).len() {
                    assert(deduplicated(rest)[k] == p);
                    assert(deduplicated(rest).contains(p));
                    let i = choose|i: int| 0 <= i < rest.len() && rest[i] == p;
                    assert(list[i] == p);
                } else {
                    assert(list[list.len() - 1] == p);
                }
            }
        }
        if !rest.contains(last) {
            assert(!deduplicated(rest).contains(last));
            assert(deduplicated(rest).push(last).no_duplicates());
        }
    }
}

/// Dropping repetitions keeps the order of first occurrence.
pub proof fn dedup_keeps_order(list: Seq<Seq<char>>, a: int, b: int)
    requires
        0 <= a < b < deduplicated(list).len(),
    ensures
        exists|i: int, j: int|
            i < j && #[trigger] first_at(list, deduplicated(list)[a], i) && #[trigger] first_at(
                list,
                deduplicated(list)[b],
                j,
            ),
    decreases list.len(),
{
    let rest = list.drop_last();
    let kept = deduplicated(rest);
    assert(deduplicated(list)[a] == kept[a]);
    if b < kept.len() {
        assert(deduplicated(list)[b] == kept[b]);
        dedup_keeps_order(rest, a, b);
        let (i, j) = choose|i: int, j: int|
            i < j && #[trigger] first_at(rest, kept[a], i) && #[trigger] first_at(rest, kept[b], j);
        lemma_first_at_extends(list, kept[a], i);
        lemma_first_at_extends(list, kept[b], j);
    } else {
        let last = list.last();
        let j = list.len() - 1;
        assert forall|k: int| 0 <= k < j implies #[trigger] list[k] != last by {
            assert(rest[k] == list[k]);
        }
        assert(first_at(list, deduplicated(list)[b], j));
        dedup_keeps_each_once(rest);
        assert(kept.contains(kept[a]));
        let i = lemma_first_exists(rest, kept[a]);
        lemma_first_at_extends(list, kept[a], i);
        assert(first_at(list, deduplicated(list)[a], i));
    }
}

proof fn lemma_first_at_extends(list: Seq<Seq<char>>, p: Seq<char>, i: int)
    requires
        list.len() > 0,
        first_at(list.drop_last(), p, i),
    ensures
        first_at(list, p, i),
{
    assert forall|j: int| 0 <= j < i implies #[trigger] list[j] != p by {
        assert(list.drop_last()[j] == list[j]);
    }
}

proof fn lemma_first_exists(list: Seq<Seq<char>>, p: Seq<char>) -> (i: int)
    requires
        list.contains(p),
    ensures
        first_at(list, p, i),
    decreases list.len(),
{
    let rest = list.drop_last();
    if rest.contains(p) {
        let i = lemma_first_exists(rest, p);
        lemma_first_at_extends(list, p, i);
        i
    } else {
        let k = choose|k: int| 0 <= k < list.len() && list[k] == p;
        if k < rest.len() {
            assert(rest[k] == p);
        }
        assert forall|j: int| 0 <= j < list.len() - 1 implies #[trigger] list[j] != p by {
            assert(rest[j] == list[j]);
        }
        list.len() - 1
    }
}

/// A list without repetitions stays as it is: synchronising the same patterns
/// again changes nothing.
pub proof fn dedup_is_stable(list: Seq<Seq<char>>)
    ensures
        deduplicated(deduplicated(list)) == deduplicated(list),
{
    dedup_keeps_each_once(list);
    lemma_dedup_of_distinct(deduplicated(list));
}

proof fn lemma_dedup_of_distinct(list: Seq<Seq<char>>)
    requires
        list.no_duplicates(),
    ensures
        deduplicated(list) == list,
    decreases list.len(),
{
    if list.len() > 0 {
        let rest = list.drop_last();
        lemma_dedup_of_distinct(rest);
        assert(!rest.contains(list.last())) by {
            if rest.contains(list.last()) {
                let i = choose|i: int| 0 <= i < rest.len() && rest[i] == list.last();
                assert(list[i] == list[list.len() - 1]);
            }
        }
        assert(list =~= rest.push(list.last()));
    } else {
        assert(list =~= seq![]);
    }
}

/// A state matches a text exactly if one of its patterns compiles and matches
/// it: patterns that do not compile do no harm.
pub proof fn match_means_a_valid_pattern(
    state: DynamicRegexState,
    patterns: Seq<Seq<char>>,
    text: Seq<char>,
)
    requires
        state.holds(patterns),
    ensures
        any_matches(state.spec_compiled(), text) <==> exists|i: int|
            0 <= i < patterns.len() && is_valid(#[trigger] patterns[i]) && pattern_matches(
                patterns[i],
                text,
            ),
{
    let compiled = state.spec_compiled();
    let valid = valid_patterns(patterns);
    if any_matches(compiled, text) {
        let k = choose|k: int| 0 <= k < compiled.len() && regex_matches(#[trigger] compiled[k], text);
        assert(compiled_from(compiled[k], valid[k]));
        lemma_filter_member(patterns, |p: Seq<char>| is_valid(p));
        assert(valid.contains(valid[k]));
        let i = choose|i: int| 0 <= i < patterns.len() && patterns[i] == valid[k];
        assert(is_valid(patterns[i]));
    }
    if exists|i: int|
        0 <= i < patterns.len() && is_valid(#[trigger] patterns[i]) && pattern_matches(
            patterns[i],
            text,
        ) {
        let i = choose|i: int|
            0 <= i < patterns.len() && is_valid(#[trigger] patterns[i]) && pattern_matches(
                patterns[i],
                text,
            );
        lemma_filter_member(patterns, |p: Seq<char>| is_valid(p));
        assert(patterns.contains(patterns[i]));
        assert(valid.contains(patterns[i]));
        let k = choose|k: int| 0 <= k < valid.len() && valid[k] == patterns[i];
        assert(compiled_from(compiled[k], valid[k]));
        assert(regex_matches(compiled[k], text));
    }
}

proof fn lemma_filter_member(list: Seq<Seq<char>>, pred: spec_fn(Seq<char>) -> bool)
    ensures
        forall|p: Seq<char>| #[trigger]
            list.filter(pred).contains(p) <==> list.contains(p) && pred(p),
    decreases list.len(),
{
    if list.len() > 0 {
        let rest = list.drop_last();
        let last = list.last();
        lemma_filter_member(rest, pred);
        assert(list =~= rest.push(last));
        lemma_filter_push(rest, last, pred);
        assert forall|p: Seq<char>| #[trigger] list.filter(pred).contains(p) <==> list.contains(p)
            && pred(p) by {
            lemma_push_member(rest, last, p);
            lemma_push_member(rest.filter(pred), last, p);
        }
    } else {
        reveal(Seq::filter);
    }
}

proof fn lemma_push_member(list: Seq<Seq<char>>, x: Seq<char>, p: Seq<char>)
    ensures
        list.push(x).contains(p) <==> list.contains(p) || p == x,
{
    if list.contains(p) {
        let i = choose|i: int| 0 <= i < list.len() && list[i] == p;
        assert(list.push(x)[i] == p);
    }
    if p == x {
        assert(list.push(x)[list.len() as int] == p);
    }
    if list.push(x).contains(p) {
        let i = choose|i: int| 0 <= i < list.push(x).len() && list.push(x)[i] == p;
        if i < list.len() {
            assert(list[i] == p);
        }
    }
}

/// Where every pattern compiles, the matching patterns of a text are exactly
/// the patterns that match it, in order.
pub proof fn matching_names_the_patterns(
    state: DynamicRegexState,
    patterns: Seq<Seq<char>>,
    text: Seq<char>,
)
    requires
        state.holds(patterns),
        forall|i: int| 0 <= i < patterns.len() ==> is_valid(#[trigger] patterns[i]),
    ensures
        matching(state.spec_compiled(), patterns, text) == patterns.filter(
            |p: Seq<char>| pattern_matches(p, text),
        ),
{
    all_valid_compiles_whole(patterns);
    lemma_matching_is_filter(state.spec_compiled(), patterns, text);
}

proof fn lemma_matching_is_filter(compiled: Seq<Regex>, patterns: Seq<Seq<char>>, text: Seq<char>)
    requires
        compiled_in_order(compiled, patterns),
    ensures
        matching(compiled, patterns, text) == patterns.filter(
            |p: Seq<char>| pattern_matches(p, text),
        ),
    decreases patterns.len(),
{
    let pred = |p: Seq<char>| pattern_matches(p, text);
    if patterns.len() == 0 {
        reveal(Seq::filter);
        assert(matching(compiled, patterns, text) =~= patterns.filter(pred));
    } else {
        let head = seq![patterns[0]];
        let tail = patterns.drop_first();
        assert(compiled_in_order(compiled.drop_first(), tail)) by {
            assert forall|i: int| 0 <= i < compiled.drop_first().len() implies compiled_from(
                #[trigger] compiled.drop_first()[i],
                tail[i],
            ) by {
                assert(compiled_from(compiled[i + 1], patterns[i + 1]));
            }
        }
        lemma_matching_is_filter(compiled.drop_first(), tail, text);
        assert(patterns =~= head + tail);
        Seq::filter_distributes_over_add(head, tail, pred);
        assert(head =~= Seq::<Seq<char>>::empty().push(patterns[0]));
        lemma_filter_push(Seq::<Seq<char>>::empty(), patterns[0], pred);
        assert(Seq::<Seq<char>>::empty().filter(pred) =~= Seq::<Seq<char>>::empty()) by {
            reveal(Seq::filter);
        }
        assert(compiled_from(compiled[0], patterns[0]));
        assert(matching(compiled, patterns, text) =~= patterns.filter(pred));
    }
}

/// A pattern is named as matching only for a text that matches and, where
/// there are no more expressions than patterns, for every such text.
pub proof fn matching_implies_match(
    compiled: Seq<Regex>,
    patterns: Seq<Seq<char>>,
    text: Seq<char>,
)
    ensures
        matching(compiled, patterns, text).len() > 0 ==> any_matches(compiled, text),
        compiled.len() <= patterns.len() ==> (matching(compiled, patterns, text).len() == 0
            <==> !any_matches(compiled, text)),
        matching(compiled, patterns, text).len() <= patterns.len(),
    decreases patterns.len(),
{
    if compiled.len() > 0 && patterns.len() > 0 {
        matching_implies_match(compiled.drop_first(), patterns.drop_first(), text);
        if any_matches(compiled.drop_first(), text) {
            let i = choose|i: int|
                0 <= i < compiled.drop_first().len() && regex_matches(
                    #[trigger] compiled.drop_first()[i],
                    text,
                );
            assert(regex_matches(compiled[i + 1], text));
        }
        if any_matches(compiled, text) && !regex_matches(compiled[0], text) {
            let i = choose|i: int|
                0 <= i < compiled.len() && regex_matches(#[trigger] compiled[i], text);
            assert(regex_matches(compiled.drop_first()[i - 1], text));
        }
    }
}

/// A cache that was saved loads back: the patterns as they were, in order and
/// with repetitions and those that do not compile, and the expressions of
/// those that do.
pub proof fn cache_loads_back(
    patterns: Seq<Seq<char>>,
    saved: RemoteRegexPayload,
    loaded: Option<DynamicRegexState>,
)
    requires
        saves(patterns, saved),
        loads(Some(saved), loaded),
    ensures
        loaded matches Some(state) && {
            &&& state.spec_patterns() == patterns
            &&& compiled_in_order(state.spec_compiled(), valid_patterns(patterns))
            &&& carried_patterns(state.spec_compiled()) == valid_patterns(patterns)
        },
{
    lemma_carried_in_order(loaded->0.spec_compiled(), valid_patterns(patterns));
}

/// Rules that were restored from the cache match as the rules did from which
/// the cache was written.
pub proof fn restored_rules_match_alike(
    synced: DynamicRegexState,
    saved: RemoteRegexPayload,
    restored: DynamicRegexState,
    text: Seq<char>,
)
    requires
        synced.holds(saved.spec_patterns()),
        restored.holds(saved.spec_patterns()),
    ensures
        restored.spec_patterns() == synced.spec_patterns(),
        carried_patterns(restored.spec_compiled()) == carried_patterns(synced.spec_compiled()),
        any_matches(restored.spec_compiled(), text) == any_matches(synced.spec_compiled(), text),
        matching(restored.spec_compiled(), restored.spec_patterns(), text) == matching(
            synced.spec_compiled(),
            synced.spec_patterns(),
            text,
        ),
{
    let valid = valid_patterns(saved.spec_patterns());
    lemma_carried_in_order(synced.spec_compiled(), valid);
    lemma_carried_in_order(restored.spec_compiled(), valid);
    lemma_matching_alike(
        restored.spec_compiled(),
        synced.spec_compiled(),
        valid,
        saved.spec_patterns(),
        text,
    );
    match_means_a_valid_pattern(synced, saved.spec_patterns(), text);
    match_means_a_valid_pattern(restored, saved.spec_patterns(), text);
}

proof fn lemma_matching_alike(
    a: Seq<Regex>,
    b: Seq<Regex>,
    valid: Seq<Seq<char>>,
    patterns: Seq<Seq<char>>,
    text: Seq<char>,
)
    requires
        compiled_in_order(a, valid),
        compiled_in_order(b, valid),
    ensures
        matching(a, patterns, text) == matching(b, patterns, text),
    decreases patterns.len(),
{
    if a.len() > 0 && patterns.len() > 0 {
        assert(compiled_from(a[0], valid[0]) && compiled_from(b[0], valid[0]));
        let rest = valid.drop_first();
        assert forall|i: int| 0 <= i < a.drop_first().len() implies compiled_from(
            #[trigger] a.drop_first()[i],
            rest[i],
        ) by {
            assert(compiled_from(a[i + 1], valid[i + 1]));
        }
        assert forall|i: int| 0 <= i < b.drop_first().len() implies compiled_from(
            #[trigger] b.drop_first()[i],
            rest[i],
        ) by {
            assert(compiled_from(b[i + 1], valid[i + 1]));
        }
        lemma_matching_alike(a.drop_first(), b.drop_first(), rest, patterns.drop_first(), text);
    }
}

} // verus!
