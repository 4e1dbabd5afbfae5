//! Text primitives: trimming, searching, comparing, and decimal numbers.

use vstd::prelude::*;
use vstd::string::*;
use vstd::utf8::*;

verus! {

/// The characters with the Unicode property `White_Space`.
pub open spec fn is_white_space(c: char) -> bool {
    let u = c as u32;
    ||| 0x9 <= u <= 0xD
    ||| u == 0x20
    ||| u == 0x85
    ||| u == 0xA0
    ||| u == 0x1680
    ||| 0x2000 <= u <= 0x200A
    ||| u == 0x2028
    ||| u == 0x2029
    ||| u == 0x202F
    ||| u == 0x205F
    ||| u == 0x3000
}

/// `s` without its longest prefix of characters in `drop`.
pub open spec fn strip_start(s: Seq<char>, drop: spec_fn(char) -> bool) -> Seq<char>
    decreases s.len(),
{
    if s.len() > 0 && drop(s[0]) {
        strip_start(s.drop_first(), drop)
    } else {
        s
    }
}

/// `s` without its longest suffix of characters in `drop`.
pub open spec fn strip_end(s: Seq<char>, drop: spec_fn(char) -> bool) -> Seq<char>
    decreases s.len(),
{
    if s.len() > 0 && drop(s.last()) {
        strip_end(s.drop_last(), drop)
    } else {
        s
    }
}

/// `s` without leading and trailing characters in `drop`.
pub open spec fn strip(s: Seq<char>, drop: spec_fn(char) -> bool) -> Seq<char> {
    strip_end(strip_start(s, drop), drop)
}

/// `s` without surrounding white space.
pub open spec fn trimmed(s: Seq<char>) -> Seq<char> {
    strip(s, |c: char| is_white_space(c))
}

/// `s` without surrounding occurrences of `quote`.
pub open spec fn unquoted(s: Seq<char>, quote: char) -> Seq<char> {
    strip(s, |c: char| c == quote)
}

/// `needle` occurs in `s` as a run of consecutive characters.
pub open spec fn has_infix(s: Seq<char>, needle: Seq<char>) -> bool {
    exists|i: int|
        0 <= i <= s.len() - needle.len() && #[trigger] s.subrange(i, i + needle.len()) == needle
}

/// `c` with an ASCII capital letter replaced by its small letter.
pub open spec fn ascii_lower(c: char) -> char {
    if 'A' <= c <= 'Z' {
        ((c as u32 + 32) as u32) as char
    } else {
        c
    }
}

/// Equality of texts up to the case of ASCII letters.
pub open spec fn same_ignoring_ascii_case(a: Seq<char>, b: Seq<char>) -> bool {
    &&& a.len() == b.len()
    &&& forall|i: int| 0 <= i < a.len() ==> ascii_lower(#[trigger] a[i]) == ascii_lower(b[i])
}

/// The character of the decimal digit `d`.
pub open spec fn digit_char(d: int) -> char {
    (('0' as int + d) as u32) as char
}

/// Decimal notation of a natural number, without leading zeros.
pub open spec fn nat_text(n: nat) -> Seq<char>
    decreases n,
{
    if n < 10 {
        seq![digit_char(n as int)]
    } else {
        nat_text(n / 10).push(digit_char((n % 10) as int))
    }
}

/// Decimal notation of an integer: a minus sign only where it is negative.
pub open spec fn int_text(n: int) -> Seq<char> {
    if n < 0 {
        seq!['-'] + nat_text((-n) as nat)
    } else {
        nat_text(n as nat)
    }
}

/// The value of a run of decimal digits; `None` where some character is none.
pub open spec fn digits_value(s: Seq<char>) -> Option<nat>
    decreases s.len(),
{
    if s.len() == 0 {
        Some(0)
    } else if '0' <= s.last() <= '9' {
        match digits_value(s.drop_last()) {
            Some(v) => Some(v * 10 + (s.last() as int - '0' as int) as nat),
            None => None,
        }
    } else {
        None
    }
}

/// The integer that `s` denotes: an optional sign, then at least one digit.
pub open spec fn int_value(s: Seq<char>) -> Option<int> {
    let signed = s.len() > 0 && (s[0] == '+' || s[0] == '-');
    let digits = if signed {
        s.drop_first()
    } else {
        s
    };
    if digits.len() == 0 {
        None
    } else {
        match digits_value(digits) {
            Some(v) => Some(
                if signed && s[0] == '-' {
                    -(v as int)
                } else {
                    v as int
                },
            ),
            None => None,
        }
    }
}

/// The `i64` that `s` denotes, if it denotes one that fits.
pub open spec fn i64_value(s: Seq<char>) -> Option<i64> {
    match int_value(s) {
        Some(v) => if i64::MIN <= v <= i64::MAX {
            Some(v as i64)
        } else {
            None
        },
        None => None,
    }
}

/// The text that a credential stands for once it has been pasted with
/// surrounding white space and quotes.
pub open spec fn cleaned(s: Seq<char>) -> Seq<char> {
    trimmed(unquoted(unquoted(trimmed(s), '"'), '\''))
}

/// `str::trim` of std drops leading and trailing white space, where white
/// space is the Unicode property `White_Space`.
pub assume_specification[ str::trim ](s: &str) -> (r: &str)
    ensures
        r@ == trimmed(s@),
;

/// Calls `str::trim_matches` of std with a single character, which drops the
/// leading and trailing occurrences of that character.
#[verifier::external_body]
pub(crate) fn trim_char<'a>(s: &'a str, quote: char) -> (r: &'a str)
    ensures
        r@ == unquoted(s@, quote),
{
    s.trim_matches(quote)
}

/// Calls `str::contains` of std with a text, which tells whether that text
/// is a sub-slice.
#[verifier::external_body]
pub(crate) fn contains_text(s: &str, needle: &str) -> (r: bool)
    ensures
        r == has_infix(s@, needle@),
{
    s.contains(needle)
}

/// The result of `str::to_lowercase`, as a function of the text.
pub uninterp spec fn lowercase(s: Seq<char>) -> Seq<char>;

/// `str::to_lowercase` of std maps a text to its Unicode lower case; the
/// mapping itself is left unsaid.
pub assume_specification[ str::to_lowercase ](s: &str) -> (r: String)
    ensures
        r@ == lowercase(s@),
;

/// `str::eq_ignore_ascii_case` of std compares texts as if their ASCII
/// capital letters were small.
pub assume_specification[ str::eq_ignore_ascii_case ](s: &str, other: &str) -> (r: bool)
    ensures
        r == same_ignoring_ascii_case(s@, other@),
;

/// Calls `i64::to_string` of std, which gives the decimal notation.
#[verifier::external_body]
pub(crate) fn i64_text(n: i64) -> (r: String)
    ensures
        r@ == int_text(n as int),
{
    n.to_string()
}

/// Calls `i64::from_str` of std, which reads an optional sign followed by
/// digits only and refuses values that do not fit.
#[verifier::external_body]
pub(crate) fn parse_i64(s: &str) -> (r: Option<i64>)
    ensures
        r == i64_value(s@),
{
    s.parse::<i64>().ok()
}

/// Equality of two texts.
pub fn text_eq(a: &str, b: &str) -> (r: bool)
    ensures
        r == (a@ == b@),
{
    let x = a.as_bytes();
    let y = b.as_bytes();
    proof {
        encode_utf8_decode_utf8(a@);
        encode_utf8_decode_utf8(b@);
    }
    if x.len() != y.len() {
        return false;
    }
    let mut i: usize = 0;
    while i < x.len()
        invariant
            x@ == encode_utf8(a@),
            y@ == encode_utf8(b@),
            x.len() == y.len(),
            i <= x.len(),
            forall|j: int| 0 <= j < i ==> x@[j] == y@[j],
        decreases x.len() - i,
    {
        if x[i] != y[i] {
            return false;
        }
        i += 1;
    }
    assert(x@ =~= y@);
    true
}

/// Drops the white space and the quotes around a pasted credential.
pub fn clean_credential<'a>(s: &'a str) -> (r: &'a str)
    ensures
        r@ == cleaned(s@),
{
    let bare = trim_char(trim_char(s.trim(), '"'), '\'');
    bare.trim()
}

/// What is left after stripping neither starts nor ends with a dropped
/// character.
proof fn lemma_strip_ends(s: Seq<char>, drop: spec_fn(char) -> bool)
    ensures
        strip(s, drop).len() > 0 ==> !drop(strip(s, drop)[0]) && !drop(strip(s, drop).last()),
{
    let front = strip_start(s, drop);
    lemma_strip_start_first(s, drop);
    lemma_strip_end_last(front, drop);
}

proof fn lemma_strip_start_first(s: Seq<char>, drop: spec_fn(char) -> bool)
    ensures
        strip_start(s, drop).len() > 0 ==> !drop(strip_start(s, drop)[0]),
    decreases s.len(),
{
    if s.len() > 0 && drop(s[0]) {
        lemma_strip_start_first(s.drop_first(), drop);
    }
}

proof fn lemma_strip_end_last(s: Seq<char>, drop: spec_fn(char) -> bool)
    ensures
        strip_end(s, drop).len() <= s.len(),
        strip_end(s, drop) == s.subrange(0, strip_end(s, drop).len() as int),
        strip_end(s, drop).len() > 0 ==> !drop(strip_end(s, drop).last()),
    decreases s.len(),
{
    if s.len() > 0 && drop(s.last()) {
        lemma_strip_end_last(s.drop_last(), drop);
        let n = strip_end(s.drop_last(), drop).len() as int;
        assert(s.drop_last().subrange(0, n) =~= s.subrange(0, n));
    } else {
        assert(s =~= s.subrange(0, s.len() as int));
    }
}

/// A cleaned credential has no white space around it.
pub proof fn cleaned_has_no_outer_space(s: Seq<char>)
    ensures
        cleaned(s).len() > 0 ==> !is_white_space(cleaned(s)[0]) && !is_white_space(
            cleaned(s).last(),
        ),
{
    lemma_strip_ends(
        unquoted(unquoted(trimmed(s), '"'), '\''),
        |c: char| is_white_space(c),
    );
}

proof fn lemma_nat_text(n: nat)
    ensures
        nat_text(n).len() > 0,
        '0' <= nat_text(n)[0] <= '9',
        digits_value(nat_text(n)) == Some(n),
    decreases n,
{
    if n >= 10 {
        lemma_nat_text(n / 10);
        let head = nat_text(n / 10);
        assert(head.push(digit_char((n % 10) as int)).drop_last() =~= head);
    } else {
        let c = digit_char(n as int);
        assert(seq![c].drop_last() =~= seq![]);
        assert(digits_value(seq![c].drop_last()) == Some(0nat));
    }
}

/// The decimal notation of a number reads back as that number.
pub proof fn decimal_reads_back(n: i64)
    ensures
        i64_value(int_text(n as int)) == Some(n),
{
    if n < 0 {
        let v = (-n) as nat;
        lemma_nat_text(v);
        assert((seq!['-'] + nat_text(v)).drop_first() =~= nat_text(v));
    } else {
        lemma_nat_text(n as nat);
    }
}

} // verus!
