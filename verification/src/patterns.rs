//! Compiling patterns with the regex crate without ever failing as a whole.

use regex::Regex;
use vstd::prelude::*;

verus! {

/// A compiled regular expression of the regex crate.
#[verifier::external_type_specification]
#[verifier::external_body]
pub struct ExRegex(regex::Regex);

/// Why a pattern does not compile.
#[derive(Debug)]
pub enum PatternError {
    /// The pattern is malformed; the text explains where.
    Syntax(String),
    /// The compiled program would exceed this many bytes.
    CompiledTooBig(usize),
    /// Another reason.
    Other,
}

/// The mathematical content of a pattern error.
pub enum PatternErrorView {
    Syntax(Seq<char>),
    CompiledTooBig(usize),
    Other,
}

impl View for PatternError {
    type V = PatternErrorView;

    open spec fn view(&self) -> PatternErrorView {
        match self {
            PatternError::Syntax(s) => PatternErrorView::Syntax(s@),
            PatternError::CompiledTooBig(n) => PatternErrorView::CompiledTooBig(*n),
            PatternError::Other => PatternErrorView::Other,
        }
    }
}

/// Why `regex::RegexBuilder::build` refuses a pattern under its default
/// settings; nothing where it compiles. The limit on the size of the compiled
/// program counts bytes in memory, so the width of a machine word matters.
pub uninterp spec fn build_failure(pattern: Seq<char>, word_bits: u32) -> Option<PatternErrorView>;

/// Why a pattern does not compile on this machine, if it does not.
pub open spec fn refusal(pattern: Seq<char>) -> Option<PatternErrorView> {
    build_failure(pattern, usize::BITS)
}

/// What `regex::Regex::is_match` answers for an expression and a text.
pub uninterp spec fn regex_matches(re: regex::Regex, text: Seq<char>) -> bool;

/// Whether the expression that `regex::RegexBuilder` builds from a pattern
/// under its default settings matches somewhere in a text.
pub uninterp spec fn pattern_matches(pattern: Seq<char>, text: Seq<char>) -> bool;

/// The pattern that an expression carries, as `regex::Regex::as_str` gives it.
pub uninterp spec fn pattern_of(re: regex::Regex) -> Seq<char>;

/// `re` carries `pattern`, and matches the texts that it describes.
pub open spec fn compiled_from(re: regex::Regex, pattern: Seq<char>) -> bool {
    &&& pattern_of(re) == pattern
    &&& forall|text: Seq<char>| #[trigger] regex_matches(re, text) == pattern_matches(pattern, text)
}

/// The pattern compiles.
pub open spec fn is_valid(pattern: Seq<char>) -> bool {
    refusal(pattern) is None
}

/// Calls `regex::RegexBuilder::build` with the default settings: whether a
/// pattern compiles depends on the pattern and the width of a machine word,
/// and what the result matches on the pattern alone. The result carries the
/// pattern as `Regex::as_str` hands it back. The syntax and the meaning of
/// patterns are left unsaid.
#[verifier::external_body]
pub(crate) fn build_regex(pattern: &str) -> (r: Result<Regex, PatternError>)
    ensures
        match r {
            Ok(re) => {
                &&& build_failure(pattern@, usize::BITS) is None
                &&& pattern_of(re) == pattern@
                &&& forall|text: Seq<char>| #[trigger]
                    regex_matches(re, text) == pattern_matches(pattern@, text)
            },
            Err(e) => build_failure(pattern@, usize::BITS) == Some(e@),
        },
{
    match regex::RegexBuilder::new(pattern).build() {
        Ok(re) => Ok(re),
        Err(regex::Error::Syntax(text)) => Err(PatternError::Syntax(text)),
        Err(regex::Error::CompiledTooBig(size)) => Err(PatternError::CompiledTooBig(size)),
        Err(_) => Err(PatternError::Other),
    }
}

/// Calls `regex::Regex::is_match`, whose answer depends on the expression and
/// the text alone.
#[verifier::external_body]
pub(crate) fn regex_is_match(re: &Regex, text: &str) -> (r: bool)
    ensures
        r == regex_matches(*re, text@),
{
    re.is_match(text)
}

/// Tells whether a pattern compiles, and why not.
pub fn validate_regex_pattern(pattern: &str) -> (r: Result<(), PatternError>)
    ensures
        match r {
            Ok(()) => refusal(pattern@) is None,
            Err(e) => refusal(pattern@) == Some(e@),
        },
{
    match build_regex(pattern) {
        Ok(_) => Ok(()),
        Err(e) => Err(e),
    }
}

/// Compiles one pattern; `None` where it does not compile.
pub fn compile_safe_regex(pattern: &str) -> (r: Option<Regex>)
    ensures
        r is Some <==> is_valid(pattern@),
        r matches Some(re) ==> pattern_of(re) == pattern@ && compiled_from(re, pattern@),
{
    match build_regex(pattern) {
        Ok(re) => Some(re),
        Err(_) => None,
    }
}

/// The contents of a list of texts.
pub open spec fn texts(list: Seq<String>) -> Seq<Seq<char>> {
    list.map_values(|s: String| s@)
}

/// The patterns of a list that compile, in order.
pub open spec fn valid_patterns(list: Seq<Seq<char>>) -> Seq<Seq<char>> {
    list.filter(|p: Seq<char>| is_valid(p))
}

/// The patterns of a list that do not compile, in order.
pub open spec fn invalid_patterns(list: Seq<Seq<char>>) -> Seq<Seq<char>> {
    list.filter(|p: Seq<char>| !is_valid(p))
}

/// Each expression is compiled from the pattern at its place.
pub open spec fn compiled_in_order(compiled: Seq<regex::Regex>, list: Seq<Seq<char>>) -> bool {
    &&& compiled.len() == list.len()
    &&& forall|i: int| 0 <= i < compiled.len() ==> compiled_from(#[trigger] compiled[i], list[i])
}

/// The patterns that the expressions of a list carry.
pub open spec fn carried_patterns(compiled: Seq<regex::Regex>) -> Seq<Seq<char>> {
    compiled.map_values(|re: regex::Regex| pattern_of(re))
}

/// Compiles the patterns of a list that can be compiled, and hands back the
/// others, both in the order of the list.
pub fn compile_safe_regexes(patterns: &[String]) -> (r: (Vec<Regex>, Vec<String>))
    ensures
        compiled_in_order(r.0@, valid_patterns(texts(patterns@))),
        carried_patterns(r.0@) == valid_patterns(texts(patterns@)),
        texts(r.1@) == invalid_patterns(texts(patterns@)),
{
    let mut compiled: Vec<Regex> = Vec::new();
    let mut invalid: Vec<String> = Vec::new();
    let ghost all = texts(patterns@);
    let mut i: usize = 0;
    proof {
        assert(all.take(0) =~= seq![]);
        reveal(Seq::filter);
        assert(texts(invalid@) =~= invalid_patterns(all.take(0)));
    }
    while i < patterns.len()
        invariant
            i <= patterns.len(),
            all == texts(patterns@),
            compiled_in_order(compiled@, valid_patterns(all.take(i as int))),
            texts(invalid@) == invalid_patterns(all.take(i as int)),
        decreases patterns.len() - i,
    {
        let pattern = patterns[i].as_str();
        let ghost before = all.take(i as int);
        let ghost compiled_before = compiled@;
        let ghost invalid_before = invalid@;
        proof {
            assert(all.take(i + 1) =~= before.push(pattern@));
            lemma_filter_push(before, pattern@, |p: Seq<char>| is_valid(p));
            lemma_filter_push(before, pattern@, |p: Seq<char>| !is_valid(p));
        }
        match build_regex(pattern) {
            Ok(re) => {
                compiled.push(re);
                proof {
                    let now = valid_patterns(all.take(i + 1));
                    assert forall|j: int| 0 <= j < compiled@.len() implies compiled_from(
                        #[trigger] compiled@[j],
                        now[j],
                    ) by {
                        if j < compiled_before.len() {
                            assert(compiled@[j] == compiled_before[j]);
                        }
                    }
                }
            },
            Err(_) => {
                invalid.push(pattern.to_string());
                proof {
                    assert(texts(invalid@) =~= texts(invalid_before).push(pattern@));
                }
            },
        }
        i += 1;
    }
    proof {
        assert(all.take(patterns@.len() as int) =~= all);
        lemma_carried_in_order(compiled@, valid_patterns(all));
    }
    (compiled, invalid)
}

/// Expressions compiled from the patterns of a list carry those patterns.
pub(crate) proof fn lemma_carried_in_order(compiled: Seq<regex::Regex>, list: Seq<Seq<char>>)
    requires
        compiled_in_order(compiled, list),
    ensures
        carried_patterns(compiled) == list,
{
    assert forall|i: int| 0 <= i < list.len() implies #[trigger] carried_patterns(compiled)[i]
        == list[i] by {
        assert(compiled_from(compiled[i], list[i]));
    }
    assert(carried_patterns(compiled) =~= list);
}

/// Filtering a list with one more element.
pub(crate) proof fn lemma_filter_push<A>(s: Seq<A>, x: A, pred: spec_fn(A) -> bool)
    ensures
        s.push(x).filter(pred) == if pred(x) {
            s.filter(pred).push(x)
        } else {
            s.filter(pred)
        },
{
    reveal(Seq::filter);
    assert(s.push(x).drop_last() =~= s);
}

/// Compiling loses no pattern: each ends up compiled or handed back.
pub proof fn compilation_covers(list: Seq<Seq<char>>)
    ensures
        valid_patterns(list).len() + invalid_patterns(list).len() == list.len(),
    decreases list.len(),
{
    reveal(Seq::filter);
    if list.len() > 0 {
        compilation_covers(list.drop_last());
        let x = list.last();
        assert(list =~= list.drop_last().push(x));
        lemma_filter_push(list.drop_last(), x, |p: Seq<char>| is_valid(p));
        lemma_filter_push(list.drop_last(), x, |p: Seq<char>| !is_valid(p));
    }
}

/// A list of patterns that all compile is compiled whole, each pattern at its
/// place, and nothing is handed back.
pub proof fn all_valid_compiles_whole(list: Seq<Seq<char>>)
    requires
        forall|i: int| 0 <= i < list.len() ==> is_valid(#[trigger] list[i]),
    ensures
        valid_patterns(list) == list,
        invalid_patterns(list).len() == 0,
    decreases list.len(),
{
    reveal(Seq::filter);
    if list.len() > 0 {
        let rest = list.drop_last();
        assert forall|i: int| 0 <= i < rest.len() implies is_valid(#[trigger] rest[i]) by {
            assert(rest[i] == list[i]);
        }
        all_valid_compiles_whole(rest);
        assert(list =~= rest.push(list.last()));
        lemma_filter_push(rest, list.last(), |p: Seq<char>| is_valid(p));
        lemma_filter_push(rest, list.last(), |p: Seq<char>| !is_valid(p));
    } else {
        assert(valid_patterns(list) =~= list);
    }
}

} // verus!
