//! Identifiers of users, media and the server: 128-bit UUIDs held as `u128`.

use vstd::prelude::*;

use crate::text::same_ignoring_ascii_case;

verus! {

/// The small hexadecimal digit of `d`.
pub open spec fn hex_char(d: int) -> char {
    if d < 10 {
        (('0' as int + d) as u32) as char
    } else {
        (('a' as int + (d - 10)) as u32) as char
    }
}

/// The value of a hexadecimal digit of either case.
pub open spec fn hex_digit(c: char) -> Option<nat> {
    if '0' <= c <= '9' {
        Some((c as int - '0' as int) as nat)
    } else if 'a' <= c <= 'f' {
        Some((c as int - 'a' as int + 10) as nat)
    } else if 'A' <= c <= 'F' {
        Some((c as int - 'A' as int + 10) as nat)
    } else {
        None
    }
}

/// The last `width` hexadecimal digits of `n`, most significant first.
pub open spec fn hex_text(n: nat, width: nat) -> Seq<char>
    decreases width,
{
    if width == 0 {
        seq![]
    } else {
        hex_text(n / 16, (width - 1) as nat).push(hex_char((n % 16) as int))
    }
}

/// The value of a run of hexadecimal digits; `None` where some character is
/// no such digit.
pub open spec fn hex_value(s: Seq<char>) -> Option<nat>
    decreases s.len(),
{
    if s.len() == 0 {
        Some(0)
    } else {
        match (hex_value(s.drop_last()), hex_digit(s.last())) {
            (Some(v), Some(d)) => Some(v * 16 + d),
            _ => None,
        }
    }
}

/// The 32 hexadecimal digits of an identifier.
pub open spec fn simple_text(id: u128) -> Seq<char> {
    hex_text(id as nat, 32)
}

/// Five groups of digits joined by hyphens.
pub open spec fn grouped(h: Seq<char>) -> Seq<char> {
    h.subrange(0, 8) + seq!['-'] + h.subrange(8, 12) + seq!['-'] + h.subrange(12, 16) + seq!['-']
        + h.subrange(16, 20) + seq!['-'] + h.subrange(20, 32)
}

/// The digits of an identifier in groups of 8, 4, 4, 4 and 12.
pub open spec fn hyphenated_text(id: u128) -> Seq<char> {
    grouped(simple_text(id))
}

/// The identifier that 32 hexadecimal digits denote.
pub open spec fn simple_value(s: Seq<char>) -> Option<u128> {
    match hex_value(s) {
        Some(v) => Some(v as u128),
        None => None,
    }
}

/// The identifier that 36 characters in hyphenated form denote.
pub open spec fn hyphenated_value(s: Seq<char>) -> Option<u128> {
    if s[8] == '-' && s[13] == '-' && s[18] == '-' && s[23] == '-' {
        simple_value(
            s.subrange(0, 8) + s.subrange(9, 13) + s.subrange(14, 18) + s.subrange(19, 23)
                + s.subrange(24, 36),
        )
    } else {
        None
    }
}

/// The identifier that a text denotes: simple, hyphenated, braced, or a URN.
pub open spec fn uuid_value(s: Seq<char>) -> Option<u128> {
    if s.len() == 32 {
        simple_value(s)
    } else if s.len() == 36 {
        hyphenated_value(s)
    } else if s.len() == 38 && s[0] == '{' && s[37] == '}' {
        hyphenated_value(s.subrange(1, 37))
    } else if s.len() == 45 && same_ignoring_ascii_case(s.subrange(0, 9), "urn:uuid:"@) {
        hyphenated_value(s.subrange(9, 45))
    } else {
        None
    }
}

/// The version and variant bits of a random UUID.
pub open spec fn is_random_uuid(id: u128) -> bool {
    &&& (id >> 76) & 0xF == 4
    &&& (id >> 62) & 0x3 == 2
}

/// Calls `Uuid::to_string` of the uuid crate: small hexadecimal digits in
/// hyphenated groups.
#[verifier::external_body]
pub(crate) fn hyphenated(id: u128) -> (r: String)
    ensures
        r@ == hyphenated_text(id),
{
    uuid::Uuid::from_u128(id).to_string()
}

/// Calls `Uuid::simple` of the uuid crate: 32 small hexadecimal digits.
#[verifier::external_body]
pub(crate) fn simple(id: u128) -> (r: String)
    ensures
        r@ == simple_text(id),
{
    uuid::Uuid::from_u128(id).simple().to_string()
}

/// Calls `Uuid::parse_str` of the uuid crate: digits of either case, in one
/// of the four forms that the crate writes.
#[verifier::external_body]
pub(crate) fn parse_uuid(s: &str) -> (r: Option<u128>)
    ensures
        r == uuid_value(s@),
{
    match uuid::Uuid::parse_str(s) {
        Ok(id) => Some(id.as_u128()),
        Err(_) => None,
    }
}

/// Calls `Uuid::new_v4` of the uuid crate: a random identifier, of which
/// only the version and the variant are known.
#[verifier::external_body]
pub(crate) fn random_uuid() -> (r: u128)
    ensures
        is_random_uuid(r),
{
    uuid::Uuid::new_v4().as_u128()
}

spec fn pow16(w: nat) -> nat
    decreases w,
{
    if w == 0 {
        1
    } else {
        16 * pow16((w - 1) as nat)
    }
}

proof fn lemma_pow16_32()
    ensures
        pow16(32) == 0x1_0000_0000_0000_0000_0000_0000_0000_0000,
{
    reveal_with_fuel(pow16, 33);
}

proof fn lemma_hex_roundtrip(n: nat, width: nat)
    requires
        n < pow16(width),
    ensures
        hex_text(n, width).len() == width,
        hex_value(hex_text(n, width)) == Some(n),
        forall|i: int| 0 <= i < width ==> #[trigger] hex_text(n, width)[i] != '-',
    decreases width,
{
    if width > 0 {
        let w = (width - 1) as nat;
        assert(n / 16 < pow16(w)) by (nonlinear_arith)
            requires
                n < 16 * pow16(w),
        ;
        lemma_hex_roundtrip(n / 16, w);
        let head = hex_text(n / 16, w);
        let c = hex_char((n % 16) as int);
        assert(head.push(c).drop_last() =~= head);
        assert(hex_digit(c) == Some(n % 16));
        assert forall|i: int| 0 <= i < width implies #[trigger] hex_text(n, width)[i] != '-' by {
            if i < w {
                assert(hex_text(n, width)[i] == head[i]);
            }
        }
    }
}

/// Reading back the simple form of an identifier gives that identifier.
pub proof fn parse_of_simple(id: u128)
    ensures
        simple_text(id).len() == 32,
        uuid_value(simple_text(id)) == Some(id),
{
    lemma_pow16_32();
    lemma_hex_roundtrip(id as nat, 32);
}

/// Reading back the hyphenated form of an identifier gives that identifier.
pub proof fn parse_of_hyphenated(id: u128)
    ensures
        hyphenated_text(id).len() == 36,
        uuid_value(hyphenated_text(id)) == Some(id),
{
    lemma_pow16_32();
    lemma_hex_roundtrip(id as nat, 32);
    let h = simple_text(id);
    let s = grouped(h);
    assert(s.subrange(0, 8) + s.subrange(9, 13) + s.subrange(14, 18) + s.subrange(19, 23)
        + s.subrange(24, 36) =~= h);
}

/// Different identifiers have different texts, and no simple form is a
/// hyphenated one.
pub proof fn texts_are_distinct(a: u128, b: u128)
    ensures
        simple_text(a) == simple_text(b) ==> a == b,
        hyphenated_text(a) == hyphenated_text(b) ==> a == b,
        simple_text(a) != hyphenated_text(b),
{
    parse_of_simple(a);
    parse_of_simple(b);
    parse_of_hyphenated(a);
    parse_of_hyphenated(b);
}

} // verus!
