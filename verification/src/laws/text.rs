//! Laws of credentials and of JSON scalars.

use vstd::prelude::*;

use crate::json::{
    deserialize_opt_i64_flexible, deserialize_opt_string_or_number, field, json_integer,
    json_member, json_number, json_string, string_field, Scalar,
};
use crate::text::{
    clean_credential, decimal_reads_back, i64_value, int_text, is_white_space, strip,
    strip_end, strip_start, text_eq, trimmed,
};

verus! {

/// Every character of `s` is in `set`.
pub open spec fn all_in(s: Seq<char>, set: spec_fn(char) -> bool) -> bool {
    forall|i: int| 0 <= i < s.len() ==> set(#[trigger] s[i])
}

/// The set of one quote.
pub open spec fn quote_set(quote: char) -> spec_fn(char) -> bool {
    |c: char| c == quote
}

/// White space and quotes.
pub open spec fn is_wrapping(c: char) -> bool {
    is_white_space(c) || c == '"' || c == '\''
}

/// `part` is `whole` without `front` and `back` characters at its ends, all of
/// which are in `set`.
pub open spec fn middle_of(
    whole: Seq<char>,
    part: Seq<char>,
    front: int,
    back: int,
    set: spec_fn(char) -> bool,
) -> bool {
    &&& 0 <= front && 0 <= back && front + back <= whole.len()
    &&& part == whole.subrange(front, whole.len() - back)
    &&& all_in(whole.subrange(0, front), set)
    &&& all_in(whole.subrange(whole.len() - back, whole.len() as int), set)
}

/// `part` is `whole` without white space and quotes at its ends.
pub open spec fn unwrapped(whole: Seq<char>, part: Seq<char>, front: int, back: int) -> bool {
    middle_of(whole, part, front, back, |c: char| is_wrapping(c))
}

proof fn lemma_strip_start_middle(s: Seq<char>, drop: spec_fn(char) -> bool) -> (n: int)
    ensures
        0 <= n <= s.len(),
        strip_start(s, drop) == s.subrange(n, s.len() as int),
        all_in(s.subrange(0, n), drop),
    decreases s.len(),
{
    if s.len() > 0 && drop(s[0]) {
        let n = lemma_strip_start_middle(s.drop_first(), drop);
        assert(s.drop_first().subrange(n, s.len() - 1) =~= s.subrange(n + 1, s.len() as int));
        assert forall|i: int| 0 <= i < n + 1 implies drop(#[trigger] s.subrange(0, n + 1)[i]) by {
            if i > 0 {
                assert(s.drop_first().subrange(0, n)[i - 1] == s[i]);
            }
        }
        n + 1
    } else {
        assert(s.subrange(0, s.len() as int) =~= s);
        0
    }
}

proof fn lemma_strip_end_middle(s: Seq<char>, drop: spec_fn(char) -> bool) -> (n: int)
    ensures
        0 <= n <= s.len(),
        strip_end(s, drop) == s.subrange(0, n),
        all_in(s.subrange(n, s.len() as int), drop),
    decreases s.len(),
{
    if s.len() > 0 && drop(s.last()) {
        let n = lemma_strip_end_middle(s.drop_last(), drop);
        assert(s.drop_last().subrange(0, n) =~= s.subrange(0, n));
        assert forall|i: int| 0 <= i < s.len() - n implies drop(
            #[trigger] s.subrange(n, s.len() as int)[i],
        ) by {
            if n + i < s.len() - 1 {
                assert(s.drop_last().subrange(n, s.len() - 1)[i] == s[n + i]);
            }
        }
        n
    } else {
        assert(s.subrange(0, s.len() as int) =~= s);
        s.len() as int
    }
}

proof fn lemma_strip_middle(
    s: Seq<char>,
    drop: spec_fn(char) -> bool,
    set: spec_fn(char) -> bool,
) -> (ends: (int, int))
    requires
        forall|c: char| #[trigger] drop(c) ==> set(c),
    ensures
        middle_of(s, strip(s, drop), ends.0, ends.1, set),
{
    let a = lemma_strip_start_middle(s, drop);
    let t = strip_start(s, drop);
    let b = lemma_strip_end_middle(t, drop);
    let back = s.len() - a - b;
    assert(t.subrange(0, b) =~= s.subrange(a, s.len() - back));
    assert forall|i: int| 0 <= i < a implies set(#[trigger] s.subrange(0, a)[i]) by {
        assert(drop(s.subrange(0, a)[i]));
    }
    assert forall|i: int| 0 <= i < back implies set(
        #[trigger] s.subrange(s.len() - back, s.len() as int)[i],
    ) by {
        assert(drop(t.subrange(b, t.len() as int)[i]));
    }
    (a, back)
}

proof fn lemma_middle_of_middle(
    s: Seq<char>,
    t: Seq<char>,
    u: Seq<char>,
    outer: (int, int),
    inner: (int, int),
    set: spec_fn(char) -> bool,
)
    requires
        middle_of(s, t, outer.0, outer.1, set),
        middle_of(t, u, inner.0, inner.1, set),
    ensures
        middle_of(s, u, outer.0 + inner.0, outer.1 + inner.1, set),
{
    let front = outer.0 + inner.0;
    let back = outer.1 + inner.1;
    assert(u =~= s.subrange(front, s.len() - back));
    assert forall|i: int| 0 <= i < front implies set(#[trigger] s.subrange(0, front)[i]) by {
        if i < outer.0 {
            assert(set(s.subrange(0, outer.0)[i]));
        } else {
            assert(set(t.subrange(0, inner.0)[i - outer.0]));
        }
    }
    assert forall|i: int| 0 <= i < back implies set(
        #[trigger] s.subrange(s.len() - back, s.len() as int)[i],
    ) by {
        if i < inner.1 {
            assert(set(t.subrange(t.len() - inner.1, t.len() as int)[i]));
        } else {
            assert(set(s.subrange(s.len() - outer.1, s.len() as int)[i - inner.1]));
        }
    }
}

/// Cleaning a credential cuts nothing but white space and quotes, and those
/// only at its ends.
pub proof fn cleaning_cuts_wrapping_only(s: &str, r: &str)
    requires
        call_ensures(clean_credential, (s,), r),
    ensures
        exists|front: int, back: int| #[trigger] unwrapped(s@, r@, front, back),
{
    let set = |c: char| is_wrapping(c);
    let one = strip(s@, |c: char| is_white_space(c));
    let two = strip(one, quote_set('"'));
    let three = strip(two, quote_set('\''));
    let four = strip(three, |c: char| is_white_space(c));
    let a = lemma_strip_middle(s@, |c: char| is_white_space(c), set);
    let b = lemma_strip_middle(one, quote_set('"'), set);
    let c = lemma_strip_middle(two, quote_set('\''), set);
    let d = lemma_strip_middle(three, |c: char| is_white_space(c), set);
    lemma_middle_of_middle(s@, one, two, a, b, set);
    let ab = (a.0 + b.0, a.1 + b.1);
    lemma_middle_of_middle(s@, two, three, ab, c, set);
    let abc = (ab.0 + c.0, ab.1 + c.1);
    lemma_middle_of_middle(s@, three, four, abc, d, set);
    assert(unwrapped(s@, r@, abc.0 + d.0, abc.1 + d.1));
}

proof fn lemma_strip_start_all(a: Seq<char>, s: Seq<char>, drop: spec_fn(char) -> bool)
    requires
        all_in(a, drop),
    ensures
        strip_start(a + s, drop) == strip_start(s, drop),
    decreases a.len(),
{
    if a.len() > 0 {
        assert((a + s).drop_first() =~= a.drop_first() + s);
        assert(drop(a[0]));
        assert forall|i: int| 0 <= i < a.drop_first().len() implies drop(
            #[trigger] a.drop_first()[i],
        ) by {
            assert(drop(a[i + 1]));
        }
        lemma_strip_start_all(a.drop_first(), s, drop);
    } else {
        assert(a + s =~= s);
    }
}

proof fn lemma_strip_end_all(s: Seq<char>, a: Seq<char>, drop: spec_fn(char) -> bool)
    requires
        all_in(a, drop),
    ensures
        strip_end(s + a, drop) == strip_end(s, drop),
    decreases a.len(),
{
    if a.len() > 0 {
        assert((s + a).drop_last() =~= s + a.drop_last());
        assert(drop(a[a.len() - 1]));
        assert forall|i: int| 0 <= i < a.drop_last().len() implies drop(
            #[trigger] a.drop_last()[i],
        ) by {
            assert(drop(a[i]));
        }
        lemma_strip_end_all(s, a.drop_last(), drop);
    } else {
        assert(s + a =~= s);
    }
}

/// Stripping works on what stands before and behind a core that is not itself
/// dropped.
proof fn lemma_strip_around(
    before: Seq<char>,
    core: Seq<char>,
    behind: Seq<char>,
    drop: spec_fn(char) -> bool,
)
    requires
        core.len() > 0,
        !drop(core[0]),
        !drop(core.last()),
    ensures
        strip(before + core + behind, drop) == strip_start(before, drop) + core + strip_end(
            behind,
            drop,
        ),
{
    lemma_strip_start_around(before, core + behind, drop);
    assert(before + core + behind =~= before + (core + behind));
    let p = strip_start(before, drop);
    assert((core + behind)[0] == core[0]);
    assert(p + (core + behind) =~= (p + core) + behind);
    assert((p + core).last() == core.last());
    lemma_strip_end_around(p + core, behind, drop);
}

proof fn lemma_strip_start_around(before: Seq<char>, s: Seq<char>, drop: spec_fn(char) -> bool)
    requires
        s.len() > 0,
        !drop(s[0]),
    ensures
        strip_start(before + s, drop) == strip_start(before, drop) + s,
    decreases before.len(),
{
    if before.len() > 0 {
        assert((before + s)[0] == before[0]);
        if drop(before[0]) {
            assert((before + s).drop_first() =~= before.drop_first() + s);
            lemma_strip_start_around(before.drop_first(), s, drop);
        }
    } else {
        assert(before + s =~= s);
        assert(strip_start(before, drop) + s =~= s);
    }
}

proof fn lemma_strip_end_around(s: Seq<char>, behind: Seq<char>, drop: spec_fn(char) -> bool)
    requires
        s.len() > 0,
        !drop(s.last()),
    ensures
        strip_end(s + behind, drop) == s + strip_end(behind, drop),
    decreases behind.len(),
{
    if behind.len() > 0 {
        assert((s + behind).last() == behind.last());
        if drop(behind.last()) {
            assert((s + behind).drop_last() =~= s + behind.drop_last());
            lemma_strip_end_around(s, behind.drop_last(), drop);
        }
    } else {
        assert(s + behind =~= s);
        assert(s + strip_end(behind, drop) =~= s);
    }
}

/// What a credential may be wrapped in: white space, then double quotes, then
/// single quotes, then white space again.
pub struct Wrapping {
    pub outer: Seq<char>,
    pub double: Seq<char>,
    pub single: Seq<char>,
    pub inner: Seq<char>,
}

impl Wrapping {
    /// Each part holds only its own characters.
    pub open spec fn is_proper(self) -> bool {
        &&& all_in(self.outer, |c: char| is_white_space(c))
        &&& all_in(self.double, quote_set('"'))
        &&& all_in(self.single, quote_set('\''))
        &&& all_in(self.inner, |c: char| is_white_space(c))
    }

    /// The parts from the outside inwards.
    pub open spec fn before(self) -> Seq<char> {
        self.outer + (self.double + (self.single + self.inner))
    }

    /// The parts from the inside outwards.
    pub open spec fn behind(self) -> Seq<char> {
        ((self.inner + self.single) + self.double) + self.outer
    }
}

proof fn lemma_before_vanishes(w: Wrapping)
    requires
        w.is_proper(),
    ensures
        ({
            let one = strip_start(w.before(), |c: char| is_white_space(c));
            let two = strip_start(one, quote_set('"'));
            let three = strip_start(two, quote_set('\''));
            strip_start(three, |c: char| is_white_space(c)).len() == 0
        }),
{
    let ws = |c: char| is_white_space(c);
    let dq = quote_set('"');
    let sq = quote_set('\'');
    let none = Seq::<char>::empty();
    let rest = w.double + (w.single + w.inner);
    let tail = w.single + w.inner;
    lemma_strip_start_all(w.outer, rest, ws);
    let one = strip_start(rest, ws);
    assert(w.inner + none =~= w.inner);
    lemma_strip_start_all(w.inner, none, ws);
    assert(strip_start(w.inner, ws).len() == 0);
    if w.double.len() > 0 {
        assert(dq(w.double[0]));
        assert(rest[0] == w.double[0]);
        assert(one == rest);
        lemma_strip_start_all(w.double, tail, dq);
    } else {
        assert(rest =~= tail);
    }
    if w.single.len() > 0 {
        assert(sq(w.single[0]));
        assert(tail[0] == w.single[0]);
        assert(strip_start(tail, ws) == tail);
        assert(strip_start(tail, dq) == tail);
        lemma_strip_start_all(w.single, w.inner, sq);
    } else {
        assert(tail =~= w.inner);
    }
    if w.inner.len() > 0 {
        assert(ws(w.inner[0]));
        assert(strip_start(w.inner, dq) == w.inner);
        assert(strip_start(w.inner, sq) == w.inner);
    }
}

proof fn lemma_behind_vanishes(w: Wrapping)
    requires
        w.is_proper(),
    ensures
        ({
            let one = strip_end(w.behind(), |c: char| is_white_space(c));
            let two = strip_end(one, quote_set('"'));
            let three = strip_end(two, quote_set('\''));
            strip_end(three, |c: char| is_white_space(c)).len() == 0
        }),
{
    let ws = |c: char| is_white_space(c);
    let dq = quote_set('"');
    let sq = quote_set('\'');
    let none = Seq::<char>::empty();
    let rest = (w.inner + w.single) + w.double;
    let tail = w.inner + w.single;
    lemma_strip_end_all(rest, w.outer, ws);
    let one = strip_end(rest, ws);
    assert(none + w.inner =~= w.inner);
    lemma_strip_end_all(none, w.inner, ws);
    assert(strip_end(w.inner, ws).len() == 0);
    if w.double.len() > 0 {
        assert(dq(w.double[w.double.len() - 1]));
        assert(rest.last() == w.double.last());
        assert(one == rest);
        lemma_strip_end_all(tail, w.double, dq);
    } else {
        assert(rest =~= tail);
    }
    if w.single.len() > 0 {
        assert(sq(w.single[w.single.len() - 1]));
        assert(tail.last() == w.single.last());
        assert(strip_end(tail, ws) == tail);
        assert(strip_end(tail, dq) == tail);
        lemma_strip_end_all(w.inner, w.single, sq);
    } else {
        assert(tail =~= w.inner);
    }
    if w.inner.len() > 0 {
        assert(ws(w.inner[w.inner.len() - 1]));
        assert(strip_end(w.inner, dq) == w.inner);
        assert(strip_end(w.inner, sq) == w.inner);
    }
}

/// A credential comes out of any wrapping as it was.
pub proof fn cleaning_unwraps(s: &str, r: &str, front: Wrapping, core: Seq<char>, back: Wrapping)
    requires
        call_ensures(clean_credential, (s,), r),
        front.is_proper(),
        back.is_proper(),
        core.len() > 0,
        !is_wrapping(core[0]),
        !is_wrapping(core.last()),
        s@ == front.before() + core + back.behind(),
    ensures
        r@ == core,
{
    let ws = |c: char| is_white_space(c);
    let dq = quote_set('"');
    let sq = quote_set('\'');
    let p1 = strip_start(front.before(), ws);
    let p2 = strip_start(p1, dq);
    let p3 = strip_start(p2, sq);
    let p4 = strip_start(p3, ws);
    let b1 = strip_end(back.behind(), ws);
    let b2 = strip_end(b1, dq);
    let b3 = strip_end(b2, sq);
    let b4 = strip_end(b3, ws);
    lemma_strip_around(front.before(), core, back.behind(), ws);
    lemma_strip_around(p1, core, b1, dq);
    lemma_strip_around(p2, core, b2, sq);
    lemma_strip_around(p3, core, b3, ws);
    lemma_before_vanishes(front);
    lemma_behind_vanishes(back);
    assert(p4 + core + b4 =~= core);
}

/// Texts are the same exactly if they have the same characters.
pub proof fn texts_are_compared_by_characters(a: &str, b: &str, r: bool)
    requires
        call_ensures(text_eq, (a, b), r),
    ensures
        r <==> a@.len() == b@.len() && forall|i: int| 0 <= i < a@.len() ==> a@[i] == b@[i],
{
    if a@.len() == b@.len() && forall|i: int| 0 <= i < a@.len() ==> a@[i] == b@[i] {
        assert(a@ =~= b@);
    }
}

proof fn lemma_trimmed_empty(s: Seq<char>)
    ensures
        trimmed(s).len() == 0 <==> all_in(s, |c: char| is_white_space(c)),
{
    let ws = |c: char| is_white_space(c);
    if all_in(s, ws) {
        assert(s + Seq::<char>::empty() =~= s);
        lemma_strip_start_all(s, Seq::<char>::empty(), ws);
    }
    if trimmed(s).len() == 0 {
        let ends = lemma_strip_middle(s, ws, ws);
        assert forall|i: int| 0 <= i < s.len() implies ws(#[trigger] s[i]) by {
            if i < ends.0 {
                assert(ws(s.subrange(0, ends.0)[i]));
            } else {
                assert(ws(s.subrange(s.len() - ends.1, s.len() as int)[i - (s.len() - ends.1)]));
            }
        }
    }
}

/// An identifier that is a string is taken as it is, unless it is blank; one
/// that is a number is taken by its notation; nothing else is one.
pub proof fn identifiers_are_taken_as_sent(value: &serde_json::Value, r: Option<String>)
    requires
        call_ensures(deserialize_opt_string_or_number, (Some(value),), r),
    ensures
        json_string(*value) matches Some(s) ==> {
            &&& r matches Some(t) ==> t@ == s
            &&& r is None <==> forall|i: int| 0 <= i < s.len() ==> is_white_space(#[trigger] s[i])
        },
        json_string(*value) is None ==> (json_number(*value) matches Some(n) ==> r matches Some(t)
            && t@ == n),
        json_string(*value) is None && json_number(*value) is None ==> r is None,
{
    if let Some(s) = json_string(*value) {
        lemma_trimmed_empty(s);
    }
}

/// An integer counts the same as a number and as its decimal notation; texts
/// that are no such notation, and numbers that are no such integer, count as
/// none.
pub proof fn integers_are_taken_in_either_form(value: &serde_json::Value, n: i64, r: Option<i64>)
    requires
        call_ensures(deserialize_opt_i64_flexible, (Some(value),), r),
    ensures
        json_string(*value) == Some(int_text(n as int)) ==> r == Some(n),
        json_string(*value) matches Some(s) ==> r == i64_value(s),
        json_string(*value) is None && json_number(*value) is Some ==> r == json_integer(*value),
        json_string(*value) is None && json_number(*value) is None ==> r is None,
{
    decimal_reads_back(n);
}

/// Nothing is read from a value that is not there.
pub proof fn absent_values_are_none(text: Option<String>, number: Option<i64>)
    requires
        call_ensures(deserialize_opt_string_or_number, (None,), text),
        call_ensures(deserialize_opt_i64_flexible, (None,), number),
    ensures
        text is None,
        number is None,
{
}

/// A field is found exactly if the value has that member, and is what that
/// member is.
pub proof fn fields_are_members(
    value: &serde_json::Value,
    key: &str,
    scalar: Option<Scalar>,
    text: Option<String>,
)
    requires
        call_ensures(field, (value, key), scalar),
        call_ensures(string_field, (value, key), text),
    ensures
        match json_member(*value, key@) {
            None => scalar is None && text is None,
            Some(member) => match json_string(member) {
                Some(s) => {
                    &&& scalar matches Some(Scalar::Text(t)) && t@ == s
                    &&& text matches Some(t) && t@ == s
                },
                None => {
                    &&& text is None
                    &&& match json_number(member) {
                        Some(n) => scalar matches Some(Scalar::Number { notation, integer })
                            && notation@ == n && integer == json_integer(member),
                        None => scalar matches Some(Scalar::Other),
                    }
                },
            },
        },
{
}

} // verus!
