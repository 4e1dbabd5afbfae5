//! Laws of compiling patterns.

use vstd::prelude::*;

use regex::Regex;

use crate::patterns::{
    build_failure, carried_patterns, compile_safe_regex, compile_safe_regexes, compiled_from,
    invalid_patterns, is_valid, pattern_matches, pattern_of, regex_matches, texts, valid_patterns,
    validate_regex_pattern, PatternError,
};

verus! {

/// A pattern is valid exactly if the builder accepts it, and is refused with
/// the error of the builder; one that is valid compiles to an expression that
/// carries it and matches what it describes.
pub proof fn one_pattern_compiles_or_not(
    pattern: &str,
    verdict: Result<(), PatternError>,
    compiled: Option<Regex>,
)
    requires
        call_ensures(validate_regex_pattern, (pattern,), verdict),
        call_ensures(compile_safe_regex, (pattern,), compiled),
    ensures
        verdict is Ok <==> build_failure(pattern@, usize::BITS) is None,
        verdict matches Err(e) ==> build_failure(pattern@, usize::BITS) == Some(e@),
        compiled is Some <==> verdict is Ok,
        compiled matches Some(re) ==> pattern_of(re) == pattern@ && forall|text: Seq<char>|
            #[trigger]
            regex_matches(re, text) == pattern_matches(pattern@, text),
{
}

/// What is compiled was accepted by the builder and matches as the pattern it
/// carries; what is handed back was refused; and no pattern is lost.
pub proof fn lists_are_sorted_by_the_builder(patterns: &[String], r: (Vec<Regex>, Vec<String>))
    requires
        call_ensures(compile_safe_regexes, (patterns,), r),
    ensures
        r.0@.len() + r.1@.len() == patterns@.len(),
        forall|i: int| 0 <= i < r.0@.len() ==> build_failure(
            pattern_of(#[trigger] r.0@[i]),
            usize::BITS,
        ) is None,
        forall|i: int, text: Seq<char>|
            0 <= i < r.0@.len() ==> #[trigger] regex_matches(r.0@[i], text) == pattern_matches(
                pattern_of(r.0@[i]),
                text,
            ),
        forall|i: int| 0 <= i < r.1@.len() ==> build_failure(
            (#[trigger] r.1@[i])@,
            usize::BITS,
        ) is Some,
{
    let list = texts(patterns@);
    crate::patterns::compilation_covers(list);
    lemma_filtered(list);
    assert(r.1@.len() == texts(r.1@).len());
    assert forall|i: int| 0 <= i < r.0@.len() implies build_failure(
        pattern_of(#[trigger] r.0@[i]),
        usize::BITS,
    ) is None by {
        assert(carried_patterns(r.0@)[i] == pattern_of(r.0@[i]));
        assert(is_valid(valid_patterns(list)[i]));
    }
    assert forall|i: int, text: Seq<char>| 0 <= i < r.0@.len() implies #[trigger] regex_matches(
        r.0@[i],
        text,
    ) == pattern_matches(pattern_of(r.0@[i]), text) by {
        assert(compiled_from(r.0@[i], valid_patterns(list)[i]));
    }
    assert forall|i: int| 0 <= i < r.1@.len() implies build_failure(
        (#[trigger] r.1@[i])@,
        usize::BITS,
    ) is Some by {
        assert(texts(r.1@)[i] == r.1@[i]@);
        assert(!is_valid(invalid_patterns(list)[i]));
    }
}

proof fn lemma_filtered(list: Seq<Seq<char>>)
    ensures
        forall|i: int| 0 <= i < valid_patterns(list).len() ==> is_valid(
            #[trigger] valid_patterns(list)[i],
        ),
        forall|i: int| 0 <= i < invalid_patterns(list).len() ==> !is_valid(
            #[trigger] invalid_patterns(list)[i],
        ),
{
    assert forall|i: int| 0 <= i < valid_patterns(list).len() implies is_valid(
        #[trigger] valid_patterns(list)[i],
    ) by {
        list.lemma_filter_pred(|p: Seq<char>| is_valid(p), i);
    }
    assert forall|i: int| 0 <= i < invalid_patterns(list).len() implies !is_valid(
        #[trigger] invalid_patterns(list)[i],
    ) by {
        list.lemma_filter_pred(|p: Seq<char>| !is_valid(p), i);
    }
}

/// A list of one pattern compiles as that pattern does.
pub proof fn lists_of_one(patterns: &[String], r: (Vec<Regex>, Vec<String>))
    requires
        call_ensures(compile_safe_regexes, (patterns,), r),
        patterns@.len() == 1,
    ensures
        build_failure(patterns@[0]@, usize::BITS) is None ==> r.0@.len() == 1 && pattern_of(r.0@[0])
            == patterns@[0]@ && r.1@.len() == 0,
        build_failure(patterns@[0]@, usize::BITS) is Some ==> r.0@.len() == 0 && r.1@.len() == 1
            && r.1@[0]@ == patterns@[0]@,
{
    reveal_with_fuel(Seq::filter, 3);
    let list = texts(patterns@);
    assert(list[0] == patterns@[0]@);
    assert(list.drop_last() =~= seq![]);
    assert(r.0@.len() == carried_patterns(r.0@).len());
    assert(r.1@.len() == texts(r.1@).len());
    if is_valid(list[0]) {
        assert(valid_patterns(list) =~= seq![list[0]]);
        assert(invalid_patterns(list) =~= seq![]);
        assert(carried_patterns(r.0@)[0] == pattern_of(r.0@[0]));
    } else {
        assert(valid_patterns(list) =~= seq![]);
        assert(invalid_patterns(list) =~= seq![list[0]]);
        assert(texts(r.1@)[0] == r.1@[0]@);
    }
}

/// A list that is made up of two compiles to what they compile to, one after
/// the other: the order is kept, and repetitions are.
pub proof fn lists_compile_piecewise(
    front: &[String],
    back: &[String],
    whole: &[String],
    of_front: (Vec<Regex>, Vec<String>),
    of_back: (Vec<Regex>, Vec<String>),
    of_whole: (Vec<Regex>, Vec<String>),
)
    requires
        call_ensures(compile_safe_regexes, (front,), of_front),
        call_ensures(compile_safe_regexes, (back,), of_back),
        call_ensures(compile_safe_regexes, (whole,), of_whole),
        whole@ == front@ + back@,
    ensures
        of_whole.0@.map_values(|re: Regex| pattern_of(re)) == of_front.0@.map_values(
            |re: Regex| pattern_of(re),
        ) + of_back.0@.map_values(|re: Regex| pattern_of(re)),
        of_whole.1@.map_values(|s: String| s@) == of_front.1@.map_values(|s: String| s@)
            + of_back.1@.map_values(|s: String| s@),
{
    let a = texts(front@);
    let b = texts(back@);
    assert(texts(whole@) =~= a + b);
    Seq::filter_distributes_over_add(a, b, |p: Seq<char>| is_valid(p));
    Seq::filter_distributes_over_add(a, b, |p: Seq<char>| !is_valid(p));
    assert(carried_patterns(of_whole.0@) == carried_patterns(of_front.0@) + carried_patterns(
        of_back.0@,
    ));
    assert(texts(of_whole.1@) == texts(of_front.1@) + texts(of_back.1@));
    assert(of_whole.0@.map_values(|re: Regex| pattern_of(re)) =~= carried_patterns(of_whole.0@));
    assert(of_front.0@.map_values(|re: Regex| pattern_of(re)) =~= carried_patterns(of_front.0@));
    assert(of_back.0@.map_values(|re: Regex| pattern_of(re)) =~= carried_patterns(of_back.0@));
    assert(of_whole.1@.map_values(|s: String| s@) =~= texts(of_whole.1@));
    assert(of_front.1@.map_values(|s: String| s@) =~= texts(of_front.1@));
    assert(of_back.1@.map_values(|s: String| s@) =~= texts(of_back.1@));
}

} // verus!
