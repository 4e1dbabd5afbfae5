//! Laws of the regex rules and their synchronisation.

use vstd::prelude::*;

use regex::Regex;

use crate::dynamic_regex::{
    default_sync_interval_secs, DynamicRegexConfig, DynamicRegexRule, RemoteRegexPayload,
};
use crate::http::{status_line, Status};
use crate::patterns::{
    carried_patterns, compiled_from, is_valid, pattern_of, regex_matches, texts, valid_patterns,
};
use crate::regex_sync::{
    any_fetched, cache_loads_back, dedup_keeps_each_once, dedup_keeps_order, dedup_patterns,
    deduplicated, fetched_patterns, first_at, matching, DynamicRegexState, RegexSyncService,
    SourceReply, SyncStep,
};

verus! {

/// A payload of rules yields one pattern for each rule, in place; descriptions
/// do not matter.
pub proof fn rules_yield_their_patterns(rules: Vec<DynamicRegexRule>, r: Vec<String>)
    requires
        call_ensures(
            RemoteRegexPayload::into_patterns,
            (RemoteRegexPayload::Rules { rules },),
            r,
        ),
    ensures
        r@.len() == rules@.len(),
        forall|i: int| 0 <= i < rules@.len() ==> (#[trigger] r@[i])@ == rules@[i].pattern@,
{
    let payload = RemoteRegexPayload::Rules { rules };
    assert(texts(r@).len() == r@.len());
    assert forall|i: int| 0 <= i < rules@.len() implies (#[trigger] r@[i])@
        == rules@[i].pattern@ by {
        assert(texts(r@)[i] == r@[i]@);
        assert(payload.spec_patterns()[i] == rules@[i].pattern@);
    }
}

/// A payload of patterns yields them as they are, under a name or bare.
pub proof fn lists_yield_themselves(list: Vec<String>, named: Vec<String>, bare: Vec<String>)
    requires
        call_ensures(
            RemoteRegexPayload::into_patterns,
            (RemoteRegexPayload::Patterns { patterns: list },),
            named,
        ),
        call_ensures(
            RemoteRegexPayload::into_patterns,
            (RemoteRegexPayload::List(list),),
            bare,
        ),
    ensures
        named@.len() == list@.len() && bare@.len() == list@.len(),
        forall|i: int| 0 <= i < list@.len() ==> (#[trigger] named@[i])@ == list@[i]@,
        forall|i: int| 0 <= i < list@.len() ==> (#[trigger] bare@[i])@ == list@[i]@,
{
    assert(texts(named@).len() == named@.len());
    assert(texts(bare@).len() == bare@.len());
    assert forall|i: int| 0 <= i < list@.len() implies (#[trigger] named@[i])@ == list@[i]@ by {
        assert(texts(named@)[i] == named@[i]@);
        assert(texts(list@)[i] == list@[i]@);
    }
    assert forall|i: int| 0 <= i < list@.len() implies (#[trigger] bare@[i])@ == list@[i]@ by {
        assert(texts(bare@)[i] == bare@[i]@);
        assert(texts(list@)[i] == list@[i]@);
    }
}

/// The three shapes of a payload that hold the same patterns yield the same.
pub proof fn shapes_yield_the_same(
    rules: Vec<DynamicRegexRule>,
    list: Vec<String>,
    of_rules: Vec<String>,
    of_list: Vec<String>,
)
    requires
        call_ensures(
            RemoteRegexPayload::into_patterns,
            (RemoteRegexPayload::Rules { rules },),
            of_rules,
        ),
        call_ensures(
            RemoteRegexPayload::into_patterns,
            (RemoteRegexPayload::List(list),),
            of_list,
        ),
        rules@.len() == list@.len(),
        forall|i: int| 0 <= i < list@.len() ==> (#[trigger] rules@[i]).pattern@ == list@[i]@,
    ensures
        of_rules@.len() == of_list@.len(),
        forall|i: int| 0 <= i < list@.len() ==> (#[trigger] of_rules@[i])@ == of_list@[i]@,
{
    rules_yield_their_patterns(rules, of_rules);
    assert(texts(of_list@).len() == of_list@.len());
    assert forall|i: int| 0 <= i < list@.len() implies (#[trigger] of_rules@[i])@
        == of_list@[i]@ by {
        assert(texts(of_list@)[i] == of_list@[i]@);
        assert(texts(list@)[i] == list@[i]@);
        assert(rules@[i].pattern@ == list@[i]@);
    }
}

/// A state shows the patterns and expressions it was made of.
pub proof fn states_show_what_they_hold(
    patterns: Vec<String>,
    compiled: Vec<Regex>,
    state: DynamicRegexState,
    shown: &[String],
    expressions: &[Regex],
)
    requires
        call_ensures(DynamicRegexState::new, (patterns, compiled), state),
        call_ensures(DynamicRegexState::patterns, (&state,), shown),
        call_ensures(DynamicRegexState::compiled, (&state,), expressions),
    ensures
        shown@.len() == patterns@.len(),
        forall|i: int| 0 <= i < shown@.len() ==> (#[trigger] shown@[i])@ == patterns@[i]@,
        expressions@ == compiled@,
{
    assert(texts(shown@).len() == shown@.len());
    assert(texts(patterns@).len() == patterns@.len());
    assert forall|i: int| 0 <= i < shown@.len() implies (#[trigger] shown@[i])@
        == patterns@[i]@ by {
        assert(texts(shown@)[i] == shown@[i]@);
        assert(texts(patterns@)[i] == patterns@[i]@);
    }
}

/// A text matches exactly if one of the expressions matches it.
pub proof fn a_match_is_a_match_of_one(
    state: &DynamicRegexState,
    expressions: &[Regex],
    text: &str,
    r: bool,
)
    requires
        call_ensures(DynamicRegexState::compiled, (state,), expressions),
        call_ensures(DynamicRegexState::is_match, (state, text), r),
    ensures
        r <==> exists|i: int|
            0 <= i < expressions@.len() && regex_matches(#[trigger] expressions@[i], text@),
{
}

/// `places` are, in order, the places at which an expression matches the text
/// and a pattern stands.
pub open spec fn are_matching_places(
    places: Seq<int>,
    compiled: Seq<Regex>,
    patterns: int,
    text: Seq<char>,
) -> bool {
    &&& forall|k: int|
        0 <= k < places.len() ==> 0 <= #[trigger] places[k] < compiled.len() && places[k] < patterns
            && regex_matches(compiled[places[k]], text)
    &&& forall|j: int, k: int|
        0 <= j < k < places.len() ==> #[trigger] places[j] < #[trigger] places[k]
    &&& forall|i: int|
        0 <= i < compiled.len() && i < patterns && regex_matches(#[trigger] compiled[i], text)
            ==> places.contains(i)
}

proof fn lemma_matching_places(
    compiled: Seq<Regex>,
    patterns: Seq<Seq<char>>,
    text: Seq<char>,
) -> (places: Seq<int>)
    ensures
        are_matching_places(places, compiled, patterns.len() as int, text),
        matching(compiled, patterns, text).len() == places.len(),
        forall|k: int| 0 <= k < places.len() ==> matching(compiled, patterns, text)[k]
            == patterns[#[trigger] places[k]],
    decreases patterns.len(),
{
    if compiled.len() == 0 || patterns.len() == 0 {
        Seq::empty()
    } else {
        let c = compiled.drop_first();
        let p = patterns.drop_first();
        let later = lemma_matching_places(c, p, text);
        let shifted = Seq::new(later.len(), |k: int| later[k] + 1);
        let places = if regex_matches(compiled[0], text) {
            seq![0int] + shifted
        } else {
            shifted
        };
        let lead: int = if regex_matches(compiled[0], text) {
            1
        } else {
            0
        };
        assert forall|k: int| 0 <= k < places.len() implies 0 <= #[trigger] places[k]
            < compiled.len() && places[k] < patterns.len() && regex_matches(
            compiled[places[k]],
            text,
        ) && matching(compiled, patterns, text)[k] == patterns[places[k]] by {
            if k >= lead {
                assert(places[k] == later[k - lead] + 1);
                assert(c[later[k - lead]] == compiled[places[k]]);
                assert(p[later[k - lead]] == patterns[places[k]]);
            }
        }
        assert forall|j: int, k: int| 0 <= j < k < places.len() implies #[trigger] places[j]
            < #[trigger] places[k] by {
            assert(places[k] == later[k - lead] + 1);
            if j >= lead {
                assert(places[j] == later[j - lead] + 1);
            }
        }
        assert forall|i: int|
            0 <= i < compiled.len() && i < patterns.len() && regex_matches(
                #[trigger] compiled[i],
                text,
            ) implies places.contains(i) by {
            if i > 0 {
                assert(c[i - 1] == compiled[i]);
                assert(later.contains(i - 1));
                let k = choose|k: int| 0 <= k < later.len() && later[k] == i - 1;
                assert(places[k + lead] == i);
            } else {
                assert(places[0] == 0);
            }
        }
        places
    }
}

/// The patterns that are named for a text are those that stand where an
/// expression matches it: each of them, in order, and no other.
pub proof fn named_patterns_stand_where_expressions_match(
    state: &DynamicRegexState,
    patterns: &[String],
    expressions: &[Regex],
    text: &str,
    r: Vec<&str>,
) -> (places: Seq<int>)
    requires
        call_ensures(DynamicRegexState::patterns, (state,), patterns),
        call_ensures(DynamicRegexState::compiled, (state,), expressions),
        call_ensures(DynamicRegexState::matching_patterns, (state, text), r),
    ensures
        are_matching_places(places, expressions@, patterns@.len() as int, text@),
        r@.len() == places.len(),
        forall|k: int| 0 <= k < places.len() ==> r@[k]@ == patterns@[#[trigger] places[k]]@,
{
    let all = texts(patterns@);
    let places = lemma_matching_places(expressions@, all, text@);
    let found = crate::regex_sync::borrowed_texts(r@);
    assert(found.len() == r@.len());
    assert(all.len() == patterns@.len());
    assert forall|k: int| 0 <= k < places.len() implies r@[k]@
        == patterns@[#[trigger] places[k]]@ by {
        assert(found[k] == r@[k]@);
        assert(all[places[k]] == patterns@[places[k]]@);
    }
    places
}

/// `p` stands in the list before `q` does.
pub open spec fn stands_before(list: Seq<Seq<char>>, p: Seq<char>, q: Seq<char>) -> bool {
    exists|i: int, j: int| i < j && #[trigger] first_at(list, p, i) && #[trigger] first_at(list, q, j)
}

/// Dropping repetitions keeps every pattern once, where it first stood.
pub proof fn repetitions_are_dropped(list: Vec<String>, r: Vec<String>)
    requires
        call_ensures(dedup_patterns, (list,), r),
    ensures
        forall|p: Seq<char>|
            texts(r@).contains(p) <==> #[trigger] texts(list@).contains(p),
        forall|a: int, b: int|
            0 <= a < b < r@.len() ==> (#[trigger] r@[a])@ != (#[trigger] r@[b])@,
        forall|a: int, b: int|
            0 <= a < b < r@.len() ==> stands_before(
                texts(list@),
                (#[trigger] r@[a])@,
                (#[trigger] r@[b])@,
            ),
{
    let all = texts(list@);
    let kept = texts(r@);
    dedup_keeps_each_once(all);
    assert(kept.len() == r@.len());
    assert forall|p: Seq<char>| kept.contains(p) <==> #[trigger] all.contains(p) by {
        assert(deduplicated(all).contains(p) <==> all.contains(p));
    }
    assert forall|a: int, b: int| 0 <= a < b < r@.len() implies (#[trigger] r@[a])@ != (
    #[trigger] r@[b])@ by {
        assert(kept[a] == r@[a]@ && kept[b] == r@[b]@);
    }
    assert forall|a: int, b: int| 0 <= a < b < r@.len() implies stands_before(
        all,
        (#[trigger] r@[a])@,
        (#[trigger] r@[b])@,
    ) by {
        assert(kept[a] == r@[a]@ && kept[b] == r@[b]@);
        dedup_keeps_order(all, a, b);
    }
}

/// What a source gave is what its payload holds, if the status means success;
/// any other status is a failure, whatever came with it, and every failure
/// names the source.
pub proof fn sources_give_their_payload(
    url: &str,
    reply: SourceReply,
    r: Result<Vec<String>, String>,
)
    requires
        call_ensures(RegexSyncService::fetch_single_url, (url, reply), r),
    ensures
        reply is Unreachable ==> r is Err && r->Err_0@ == "HTTP request failed for "@ + url@,
        reply matches SourceReply::Unreadable { status } ==> {
            &&& r is Err
            &&& status.spec_code() == 403 ==> r->Err_0@ == "forbidden (403) from "@ + url@
            &&& 200 <= status.spec_code() < 300 ==> r->Err_0@
                == "failed to read response body from "@ + url@
            &&& status.spec_code() != 403 && !(200 <= status.spec_code() < 300) ==> r->Err_0@
                == "HTTP status "@ + status_line(status.spec_code()) + " from "@ + url@
        },
        reply matches SourceReply::Answered { status, payload } ==> {
            &&& r is Ok <==> 200 <= status.spec_code() < 300 && payload is Some
            &&& status.spec_code() == 403 ==> r->Err_0@ == "forbidden (403) from "@ + url@
            &&& 200 <= status.spec_code() < 300 && payload is None ==> r->Err_0@
                == "failed to deserialize remote regex payload from "@ + url@
            &&& status.spec_code() != 403 && !(200 <= status.spec_code() < 300) ==> r->Err_0@
                == "HTTP status "@ + status_line(status.spec_code()) + " from "@ + url@
        },
{
}

/// The patterns of a source are those that its payload yields.
pub proof fn sources_yield_as_their_payload(
    url: &str,
    status: Status,
    payload: RemoteRegexPayload,
    r: Result<Vec<String>, String>,
    yielded: Vec<String>,
)
    requires
        call_ensures(
            RegexSyncService::fetch_single_url,
            (url, SourceReply::Answered { status, payload: Some(payload) }),
            r,
        ),
        call_ensures(RemoteRegexPayload::into_patterns, (payload,), yielded),
        200 <= status.spec_code() < 300,
    ensures
        r matches Ok(patterns) && patterns@.len() == yielded@.len() && forall|i: int|
            0 <= i < yielded@.len() ==> (#[trigger] patterns@[i])@ == yielded@[i]@,
{
    let patterns = r->Ok_0;
    assert(texts(patterns@).len() == patterns@.len());
    assert(texts(yielded@).len() == yielded@.len());
    assert forall|i: int| 0 <= i < yielded@.len() implies (#[trigger] patterns@[i])@
        == yielded@[i]@ by {
        assert(texts(patterns@)[i] == patterns@[i]@);
        assert(texts(yielded@)[i] == yielded@[i]@);
    }
}

/// A cache that was saved loads back with the same patterns, and with the
/// expressions of those that the builder accepts.
pub proof fn saved_patterns_load_back(
    patterns: &[String],
    saved: RemoteRegexPayload,
    loaded: Option<DynamicRegexState>,
    shown: &[String],
    expressions: &[Regex],
)
    requires
        call_ensures(RegexSyncService::save_to_cache, (patterns,), saved),
        call_ensures(RegexSyncService::load_from_cache, (Some(saved),), loaded),
        loaded matches Some(s) ==> call_ensures(DynamicRegexState::patterns, (&s,), shown),
        loaded matches Some(s) ==> call_ensures(DynamicRegexState::compiled, (&s,), expressions),
    ensures
        loaded is Some,
        saved is Patterns,
        shown@.len() == patterns@.len(),
        forall|i: int| 0 <= i < shown@.len() ==> (#[trigger] shown@[i])@ == patterns@[i]@,
        expressions@.map_values(|re: Regex| pattern_of(re)) == texts(patterns@).filter(
            |p: Seq<char>| is_valid(p),
        ),
{
    cache_loads_back(texts(patterns@), saved, loaded);
    assert(texts(shown@).len() == shown@.len());
    assert(texts(patterns@).len() == patterns@.len());
    assert forall|i: int| 0 <= i < shown@.len() implies (#[trigger] shown@[i])@
        == patterns@[i]@ by {
        assert(texts(shown@)[i] == shown@[i]@);
        assert(texts(patterns@)[i] == patterns@[i]@);
    }
    assert(expressions@.map_values(|re: Regex| pattern_of(re)) =~= carried_patterns(expressions@));
}

/// No cache, no rules.
pub proof fn nothing_loads_from_no_cache(loaded: Option<DynamicRegexState>)
    requires
        call_ensures(RegexSyncService::load_from_cache, (None,), loaded),
    ensures
        loaded is None,
{
}

/// The cache is a file of a fixed name in a directory, and else the path
/// itself.
pub proof fn cache_path_depends_on_the_directory(is_dir: bool, r: Option<&'static str>)
    requires
        call_ensures(RegexSyncService::resolve_cache_file_path, (is_dir,), r),
    ensures
        is_dir ==> r is Some && r->0@ == "regex_cache.json"@,
        !is_dir ==> r is None,
{
}

/// The interval between two passes is the configured one, but never none.
pub proof fn interval_is_never_none(service: &RegexSyncService, r: u64)
    requires
        call_ensures(RegexSyncService::sync_interval_secs, (service,), r),
    ensures
        r >= 1,
        service.spec_config().sync_interval_secs >= 1 ==> r
            == service.spec_config().sync_interval_secs,
        service.spec_config().sync_interval_secs == 0 ==> r == 1,
{
}

/// A service begins with its configuration and without rules, and shows both.
pub proof fn services_begin_without_rules(
    config: DynamicRegexConfig,
    service: RegexSyncService,
    shown: &DynamicRegexConfig,
    state: &DynamicRegexState,
)
    requires
        call_ensures(RegexSyncService::new, (config,), service),
        call_ensures(RegexSyncService::config, (&service,), shown),
        call_ensures(RegexSyncService::state, (&service,), state),
    ensures
        *shown == config,
        state.spec_patterns().len() == 0,
        state.spec_compiled().len() == 0,
{
}

/// A service shows the rules in force.
pub proof fn services_show_their_rules(service: &RegexSyncService, state: &DynamicRegexState)
    requires
        call_ensures(RegexSyncService::state, (service,), state),
    ensures
        *state == service.spec_state(),
{
}

/// Source `i` gave the pattern `p` at place `j`.
pub open spec fn gave(fetched: Seq<Option<Vec<String>>>, i: int, j: int, p: Seq<char>) -> bool {
    &&& 0 <= i < fetched.len()
    &&& fetched[i] is Some
    &&& 0 <= j < fetched[i]->0@.len()
    &&& fetched[i]->0@[j]@ == p
}

/// Source `i` gave `p` at place `j`, and nobody gave it before.
pub open spec fn gave_first(
    fetched: Seq<Option<Vec<String>>>,
    i: int,
    j: int,
    p: Seq<char>,
) -> bool {
    &&& gave(fetched, i, j, p)
    &&& forall|a: int, b: int| #[trigger]
        gave(fetched, a, b, p) ==> i < a || (i == a && j <= b)
}

/// `p` was given before `q`: by an earlier source, or earlier by the same.
pub open spec fn given_before(
    fetched: Seq<Option<Vec<String>>>,
    p: Seq<char>,
    q: Seq<char>,
) -> bool {
    exists|i: int, j: int, m: int, n: int|
        (i < m || (i == m && j < n)) && #[trigger] gave_first(fetched, i, j, p)
            && #[trigger] gave_first(fetched, m, n, q)
}

/// How many patterns the first `i` sources gave.
spec fn offset(fetched: Seq<Option<Vec<String>>>, i: int) -> int {
    fetched_patterns(fetched.take(i)).len() as int
}

spec fn given_by(source: Option<Vec<String>>) -> Seq<Seq<char>> {
    match source {
        Some(patterns) => texts(patterns@),
        None => seq![],
    }
}

proof fn lemma_offset_step(fetched: Seq<Option<Vec<String>>>, i: int)
    requires
        0 <= i < fetched.len(),
    ensures
        offset(fetched, i + 1) == offset(fetched, i) + given_by(fetched[i]).len(),
        fetched_patterns(fetched.take(i + 1)) == fetched_patterns(fetched.take(i)) + given_by(
            fetched[i],
        ),
{
    assert(fetched.take(i + 1).drop_last() =~= fetched.take(i));
}

proof fn lemma_offset_increases(fetched: Seq<Option<Vec<String>>>, i: int, j: int)
    requires
        0 <= i <= j <= fetched.len(),
    ensures
        offset(fetched, i) <= offset(fetched, j),
        fetched_patterns(fetched.take(i)) == fetched_patterns(fetched.take(j)).take(
            offset(fetched, i),
        ),
    decreases j - i,
{
    if i < j {
        lemma_offset_increases(fetched, i, j - 1);
        lemma_offset_step(fetched, j - 1);
        let n = offset(fetched, i);
        assert(fetched_patterns(fetched.take(j)).take(n) =~= fetched_patterns(
            fetched.take(j - 1),
        ).take(n));
    } else {
        let all = fetched_patterns(fetched.take(j));
        assert(all.take(all.len() as int) =~= all);
    }
}

proof fn lemma_given_stands(fetched: Seq<Option<Vec<String>>>, i: int, j: int, p: Seq<char>)
    requires
        gave(fetched, i, j, p),
    ensures
        0 <= offset(fetched, i) + j < fetched_patterns(fetched).len(),
        offset(fetched, i) + j < offset(fetched, i + 1),
        fetched_patterns(fetched)[offset(fetched, i) + j] == p,
{
    let n = fetched.len() as int;
    assert(fetched.take(n) =~= fetched);
    lemma_offset_step(fetched, i);
    lemma_offset_increases(fetched, i + 1, n);
    let k = offset(fetched, i) + j;
    let upto = fetched_patterns(fetched.take(i + 1));
    assert(given_by(fetched[i])[j] == p);
    assert(upto[k] == p);
    assert(fetched_patterns(fetched.take(n)).take(offset(fetched, i + 1))[k] == upto[k]);
}

proof fn lemma_standing_is_given(fetched: Seq<Option<Vec<String>>>, n: int, k: int) -> (at: (
    int,
    int,
))
    requires
        0 <= n <= fetched.len(),
        0 <= k < fetched_patterns(fetched.take(n)).len(),
    ensures
        gave(fetched, at.0, at.1, fetched_patterns(fetched.take(n))[k]),
        at.0 < n,
        k == offset(fetched, at.0) + at.1,
    decreases n,
{
    if n == 0 {
        assert(fetched.take(0) =~= seq![]);
        (0, 0)
    } else {
        lemma_offset_step(fetched, n - 1);
        let before = offset(fetched, n - 1);
        if k < before {
            lemma_standing_is_given(fetched, n - 1, k)
        } else {
            let j = k - before;
            assert(given_by(fetched[n - 1])[j] == fetched_patterns(fetched.take(n))[k]);
            (n - 1, j)
        }
    }
}

proof fn lemma_first_is_given_first(
    fetched: Seq<Option<Vec<String>>>,
    p: Seq<char>,
    k: int,
) -> (at: (int, int))
    requires
        first_at(fetched_patterns(fetched), p, k),
    ensures
        gave_first(fetched, at.0, at.1, p),
        k == offset(fetched, at.0) + at.1,
{
    let n = fetched.len() as int;
    assert(fetched.take(n) =~= fetched);
    let at = lemma_standing_is_given(fetched, n, k);
    assert forall|a: int, b: int| #[trigger] gave(fetched, a, b, p) implies at.0 < a || (at.0 == a
        && at.1 <= b) by {
        lemma_given_stands(fetched, a, b, p);
        lemma_given_stands(fetched, at.0, at.1, p);
        let k2 = offset(fetched, a) + b;
        assert(fetched_patterns(fetched)[k2] == p);
        assert(k <= k2);
        if a < at.0 {
            lemma_offset_increases(fetched, a + 1, at.0);
        }
    }
    at
}

/// Some source answered.
pub open spec fn some_answered(fetched: Seq<Option<Vec<String>>>) -> bool {
    exists|i: int| 0 <= i < fetched.len() && (#[trigger] fetched[i]) is Some
}

/// Once some source answered, the rules are exactly the patterns that the
/// sources gave: each of them, once, in the order in which they were first
/// given.
pub proof fn rules_are_what_the_sources_gave(
    service: &mut RegexSyncService,
    fetched: Vec<Option<Vec<String>>>,
    step: SyncStep,
)
    requires
        call_ensures(RegexSyncService::sync, (service, fetched), step),
        some_answered(fetched@),
    ensures
        ({
            let rules = final(service).spec_state().spec_patterns();
            &&& forall|p: Seq<char>| #[trigger]
                rules.contains(p) <==> exists|i: int, j: int| gave(fetched@, i, j, p)
            &&& forall|a: int, b: int|
                0 <= a < b < rules.len() ==> #[trigger] rules[a] != #[trigger] rules[b]
            &&& forall|a: int, b: int|
                0 <= a < b < rules.len() ==> given_before(
                    fetched@,
                    #[trigger] rules[a],
                    #[trigger] rules[b],
                )
        }),
{
    assert(any_fetched(fetched@));
    let flat = fetched_patterns(fetched@);
    let rules = final(service).spec_state().spec_patterns();
    let count = fetched@.len() as int;
    assert(fetched@.take(count) =~= fetched@);
    assert(rules == deduplicated(flat));
    dedup_keeps_each_once(flat);
    assert forall|p: Seq<char>| #[trigger] rules.contains(p) <==> exists|i: int, j: int|
        gave(fetched@, i, j, p) by {
        if rules.contains(p) {
            assert(flat.contains(p));
            let k = choose|k: int| 0 <= k < flat.len() && flat[k] == p;
            let at = lemma_standing_is_given(fetched@, count, k);
            assert(gave(fetched@, at.0, at.1, p));
        }
        if exists|i: int, j: int| gave(fetched@, i, j, p) {
            let (i, j) = choose|i: int, j: int| gave(fetched@, i, j, p);
            lemma_given_stands(fetched@, i, j, p);
            assert(flat.contains(p));
        }
    }
    assert forall|a: int, b: int| 0 <= a < b < rules.len() implies given_before(
        fetched@,
        #[trigger] rules[a],
        #[trigger] rules[b],
    ) by {
        dedup_keeps_order(flat, a, b);
        let (k, l) = choose|k: int, l: int|
            k < l && #[trigger] first_at(flat, rules[a], k) && #[trigger] first_at(
                flat,
                rules[b],
                l,
            );
        let x = lemma_first_is_given_first(fetched@, rules[a], k);
        let y = lemma_first_is_given_first(fetched@, rules[b], l);
        if y.0 < x.0 {
            lemma_given_stands(fetched@, y.0, y.1, rules[b]);
            lemma_offset_increases(fetched@, y.0 + 1, x.0);
        }
        assert(gave_first(fetched@, x.0, x.1, rules[a]));
        assert(gave_first(fetched@, y.0, y.1, rules[b]));
    }
}

/// After a pass the expressions are those of the rules that the builder
/// accepts, in order; the rules are written to the cache exactly where one is
/// configured; and the configuration stays.
pub proof fn synchronised_rules_are_compiled_and_cached(
    service: &mut RegexSyncService,
    fetched: Vec<Option<Vec<String>>>,
    step: SyncStep,
)
    requires
        call_ensures(RegexSyncService::sync, (service, fetched), step),
        some_answered(fetched@),
    ensures
        ({
            let state = final(service).spec_state();
            &&& state.spec_compiled().map_values(|re: Regex| pattern_of(re))
                == state.spec_patterns().filter(|p: Seq<char>| is_valid(p))
            &&& step is Replaced
            &&& step->Replaced_0 is Some <==> old(service).spec_config().fallback_cache_path@.len() > 0
            &&& step->Replaced_0 matches Some(RemoteRegexPayload::Patterns { patterns })
                ==> patterns@.map_values(|s: String| s@) == state.spec_patterns()
            &&& step->Replaced_0 matches Some(payload) ==> payload is Patterns
            &&& final(service).spec_config() == old(service).spec_config()
        }),
{
    assert(any_fetched(fetched@));
    let state = final(service).spec_state();
    let valid = valid_patterns(state.spec_patterns());
    let carried = state.spec_compiled().map_values(|re: Regex| pattern_of(re));
    assert forall|i: int| 0 <= i < valid.len() implies #[trigger] carried[i] == valid[i] by {
        assert(compiled_from(state.spec_compiled()[i], valid[i]));
    }
    assert(carried =~= valid);
    if let Some(RemoteRegexPayload::Patterns { patterns }) = step->Replaced_0 {
        assert(patterns@.map_values(|s: String| s@) =~= texts(patterns@));
    }
}

/// Where no source answered the rules stay, until a cache that can be read
/// replaces them; without one the pass is idle or in vain.
pub proof fn rules_stay_without_an_answer(
    service: &mut RegexSyncService,
    fetched: Vec<Option<Vec<String>>>,
    step: SyncStep,
)
    requires
        call_ensures(RegexSyncService::sync, (service, fetched), step),
        !some_answered(fetched@),
    ensures
        final(service).spec_state() == old(service).spec_state(),
        final(service).spec_config() == old(service).spec_config(),
        step is ReadCache <==> old(service).spec_config().fallback_cache_path@.len() > 0,
        step is Idle <==> old(service).spec_config().fallback_cache_path@.len() == 0 && old(service).spec_config().urls@.len() == 0,
        step is Unavailable <==> old(service).spec_config().fallback_cache_path@.len() == 0 && old(service).spec_config().urls@.len() > 0,
{
    assert(!any_fetched(fetched@));
}

/// The rules of the cache take the place of those in force; without a cache
/// those stay.
pub proof fn restoring_takes_the_cache(
    service: &mut RegexSyncService,
    cached: Option<RemoteRegexPayload>,
    yielded: Vec<String>,
    step: SyncStep,
)
    requires
        call_ensures(RegexSyncService::restore, (service, cached), step),
        cached matches Some(payload) ==> call_ensures(
            RemoteRegexPayload::into_patterns,
            (payload,),
            yielded,
        ),
    ensures
        final(service).spec_config() == old(service).spec_config(),
        cached is Some ==> {
            let state = final(service).spec_state();
            &&& step == SyncStep::Replaced(None)
            &&& state.spec_patterns() == yielded@.map_values(|s: String| s@)
            &&& state.spec_compiled().map_values(|re: Regex| pattern_of(re))
                == state.spec_patterns().filter(|p: Seq<char>| is_valid(p))
        },
        cached is None ==> {
            &&& final(service).spec_state() == old(service).spec_state()
            &&& step is Idle <==> old(service).spec_config().urls@.len() == 0
            &&& step is Unavailable <==> old(service).spec_config().urls@.len() > 0
        },
{
    if cached is Some {
        let state = final(service).spec_state();
        let valid = valid_patterns(state.spec_patterns());
        let carried = state.spec_compiled().map_values(|re: Regex| pattern_of(re));
        assert forall|i: int| 0 <= i < valid.len() implies #[trigger] carried[i] == valid[i] by {
            assert(compiled_from(state.spec_compiled()[i], valid[i]));
        }
        assert(carried =~= valid);
        assert(yielded@.map_values(|s: String| s@) =~= texts(yielded@));
    }
}

/// Without a configuration there are no sources and no cache, and an hour
/// passes between two passes.
pub proof fn default_configuration_is_idle(r: DynamicRegexConfig, interval: u64)
    requires
        call_ensures(DynamicRegexConfig::default, (), r),
        call_ensures(default_sync_interval_secs, (), interval),
    ensures
        r.urls@.len() == 0,
        r.fallback_cache_path@.len() == 0,
        r.sync_interval_secs == 60 * 60,
        interval == 60 * 60,
{
}

} // verus!
