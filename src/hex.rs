//! Hex text: decoding and encoding through fastcrypto, the `0x` prefix,
//! and the case-insensitive form used to compare digests.
use vstd::prelude::*;
use fastcrypto::encoding::{Encoding, Hex};

verus! {

pub open spec fn is_hex_digit(c: char) -> bool {
    ('0' <= c && c <= '9') || ('a' <= c && c <= 'f') || ('A' <= c && c <= 'F')
}

/// Value of one hex digit.
pub open spec fn hex_value(c: char) -> nat {
    if '0' <= c && c <= '9' {
        (c as nat - '0' as nat) as nat
    } else if 'a' <= c && c <= 'f' {
        (c as nat - 'a' as nat + 10) as nat
    } else {
        (c as nat - 'A' as nat + 10) as nat
    }
}

/// Text made of pairs of hex digits.
pub open spec fn is_hex_text(s: Seq<char>) -> bool {
    s.len() % 2 == 0 && forall|i: int| 0 <= i < s.len() ==> #[trigger] is_hex_digit(s[i])
}

/// The bytes that hex text stands for, most significant digit first.
pub open spec fn hex_bytes_of(s: Seq<char>) -> Seq<u8> {
    Seq::new(s.len() / 2, |i: int| (hex_value(s[2 * i]) * 16 + hex_value(s[2 * i + 1])) as u8)
}

pub open spec fn lower_hex_digit(n: int) -> char {
    seq!['0', '1', '2', '3', '4', '5', '6', '7', '8', '9', 'a', 'b', 'c', 'd', 'e', 'f'][n]
}

/// Lowercase hex text of bytes, two digits per byte, no prefix.
pub open spec fn hex_text_of(b: Seq<u8>) -> Seq<char> {
    Seq::new(
        2 * b.len(),
        |i: int|
            if i % 2 == 0 {
                lower_hex_digit(b[i / 2] as int / 16)
            } else {
                lower_hex_digit(b[i / 2] as int % 16)
            },
    )
}

pub open spec fn has_0x(s: Seq<char>) -> bool {
    s.len() >= 2 && s[0] == '0' && s[1] == 'x'
}

/// `s` without one leading lowercase `0x`.
pub open spec fn strip_0x(s: Seq<char>) -> Seq<char> {
    if has_0x(s) {
        s.subrange(2, s.len() as int)
    } else {
        s
    }
}

/// `s` without every leading lowercase `0x`.
pub open spec fn strip_all_0x(s: Seq<char>) -> Seq<char>
    decreases s.len(),
{
    if has_0x(s) {
        strip_all_0x(s.subrange(2, s.len() as int))
    } else {
        s
    }
}

pub open spec fn has_hex_prefix(s: Seq<char>) -> bool {
    s.len() >= 2 && s[0] == '0' && (s[1] == 'x' || s[1] == 'X')
}

/// A hash value with a `0x` prefix: kept as it is when it has one
/// (either case of `x`), else given one.
pub open spec fn with_0x_prefix(s: Seq<char>) -> Seq<char> {
    if has_hex_prefix(s) {
        s
    } else {
        seq!['0', 'x'] + s
    }
}

pub open spec fn ascii_lower_char(c: char) -> char {
    if 'A' <= c && c <= 'Z' {
        ((c as u32) + 32) as char
    } else {
        c
    }
}

/// ASCII letters mapped to lowercase, every other character kept.
pub open spec fn ascii_lower(s: Seq<char>) -> Seq<char> {
    s.map_values(|c: char| ascii_lower_char(c))
}

/// The normal form of a hash value: with a `0x` prefix, ASCII letters lowercased.
pub open spec fn normalized(s: Seq<char>) -> Seq<char> {
    ascii_lower(with_0x_prefix(s))
}

/// Relies on fastcrypto's `Hex::decode`: one leading "0x" is dropped, the rest
/// must be pairs of hex digits of either case, read most significant first.
#[verifier::external_body]
pub(crate) fn hex_decode(s: &str) -> (r: Result<Vec<u8>, String>)
    ensures
        r is Ok <==> is_hex_text(strip_0x(s@)),
        r is Ok ==> r->Ok_0@ == hex_bytes_of(strip_0x(s@)),
{
    Hex::decode(s).map_err(|e| e.to_string())
}

/// Relies on fastcrypto's `Hex::encode`: two lowercase digits per byte, no prefix.
#[verifier::external_body]
pub(crate) fn hex_encode(b: &[u8]) -> (r: String)
    ensures
        r@ == hex_text_of(b@),
{
    Hex::encode(b)
}

/// Relies on `str::to_ascii_lowercase`: 'A' to 'Z' become 'a' to 'z', all other
/// characters are kept.
#[verifier::external_body]
pub(crate) fn to_ascii_lowercase(s: &str) -> (r: String)
    ensures
        r@ == ascii_lower(s@),
{
    s.to_ascii_lowercase()
}

/// Gives `value` a `0x` prefix unless it starts with `0x` or `0X`.
fn add_0x_prefix(value: &str) -> (r: String)
    ensures
        r@ == with_0x_prefix(value@),
{
    let n = value.unicode_len();
    if n >= 2 && value.get_char(0) == '0' && (value.get_char(1) == 'x' || value.get_char(1) == 'X') {
        value.to_owned()
    } else {
        let mut r = String::from_str("0x");
        r.append(value);
        proof {
            reveal_strlit("0x");
        }
        r
    }
}

/// The normal form of a hash value: `0x`-prefixed and lowercase, so that
/// values differing only in case or in the prefix normalize alike.
pub fn normalize_hex(value: &str) -> (r: String)
    ensures
        r@ == normalized(value@),
{
    let p = add_0x_prefix(value);
    to_ascii_lowercase(p.as_str())
}

/// Drops every leading lowercase `0x` of `value`.
pub fn trim_0x_prefixes(value: &str) -> (r: String)
    ensures
        r@ == strip_all_0x(value@),
{
    let n = value.unicode_len();
    let mut start: usize = 0;
    proof {
        assert(value@.subrange(0, n as int) =~= value@);
    }
    while n - start >= 2 && value.get_char(start) == '0' && value.get_char(start + 1) == 'x'
        invariant
            start <= n,
            n == value@.len(),
            strip_all_0x(value@) == strip_all_0x(value@.subrange(start as int, n as int)),
        decreases n - start,
    {
        proof {
            assert(value@.subrange(start as int, n as int)[0] == value@[start as int]);
            assert(value@.subrange(start as int, n as int)[1] == value@[start + 1]);
            let t = value@.subrange(start as int, n as int);
            assert(t.subrange(2, t.len() as int) =~= value@.subrange(start + 2, n as int));
        }
        start = start + 2;
    }
    proof {
        let t = value@.subrange(start as int, n as int);
        if t.len() >= 2 {
            assert(t[0] == value@[start as int]);
            assert(t[1] == value@[start + 1]);
        }
    }
    value.substring_char(start, n).to_owned()
}

pub(crate) proof fn lemma_strip_all_has_no_prefix(s: Seq<char>)
    ensures
        !has_0x(strip_all_0x(s)),
        strip_0x(strip_all_0x(s)) == strip_all_0x(s),
    decreases s.len(),
{
    if has_0x(s) {
        lemma_strip_all_has_no_prefix(s.subrange(2, s.len() as int));
    }
}


proof fn lemma_ascii_lower_char_idempotent(c: char)
    ensures
        ascii_lower_char(ascii_lower_char(c)) == ascii_lower_char(c),
        ascii_lower_char(c) == '0' <==> c == '0',
        ascii_lower_char(c) == 'x' <==> (c == 'x' || c == 'X'),
{
    if 'A' <= c && c <= 'Z' {
        let d = ((c as u32) + 32) as char;
        assert(d as u32 == (c as u32) + 32);
    }
}

proof fn lemma_ascii_lower_idempotent(s: Seq<char>)
    ensures
        ascii_lower(ascii_lower(s)) == ascii_lower(s),
{
    assert forall|i: int| 0 <= i < s.len() implies #[trigger] ascii_lower(ascii_lower(s))[i]
        == ascii_lower(s)[i] by {
        lemma_ascii_lower_char_idempotent(s[i]);
    }
    assert(ascii_lower(ascii_lower(s)) =~= ascii_lower(s));
}

proof fn lemma_ascii_lower_concat(a: Seq<char>, b: Seq<char>)
    ensures
        ascii_lower(a + b) == ascii_lower(a) + ascii_lower(b),
{
    assert(ascii_lower(a + b) =~= ascii_lower(a) + ascii_lower(b));
}

/// Normalizing is idempotent.
pub proof fn lemma_normalize_idempotent(s: Seq<char>)
    ensures
        normalized(normalized(s)) == normalized(s),
{
    let n = with_0x_prefix(s);
    assert(has_hex_prefix(n));
    let k = ascii_lower(n);
    lemma_ascii_lower_char_idempotent(n[0]);
    lemma_ascii_lower_char_idempotent(n[1]);
    assert(k[0] == ascii_lower_char(n[0]));
    assert(k[1] == ascii_lower_char(n[1]));
    assert(has_hex_prefix(k));
    lemma_ascii_lower_idempotent(n);
}

proof fn lemma_normalize_of_lower(s: Seq<char>)
    ensures
        normalized(ascii_lower(s)) == normalized(s),
{
    let l = ascii_lower(s);
    if s.len() >= 2 {
        lemma_ascii_lower_char_idempotent(s[0]);
        lemma_ascii_lower_char_idempotent(s[1]);
        assert(l[0] == ascii_lower_char(s[0]));
        assert(l[1] == ascii_lower_char(s[1]));
    }
    assert(has_hex_prefix(l) <==> has_hex_prefix(s));
    lemma_ascii_lower_idempotent(s);
    let p = seq!['0', 'x'];
    assert(ascii_lower(p) =~= p);
    lemma_ascii_lower_concat(p, s);
    lemma_ascii_lower_concat(p, l);
}

/// A value without prefix normalizes as the value with `0x` does.
pub proof fn lemma_normalize_ignores_missing_prefix(s: Seq<char>)
    requires
        !has_hex_prefix(s),
    ensures
        normalized(seq!['0', 'x'] + s) == normalized(s),
{
    let t = seq!['0', 'x'] + s;
    assert(t[0] == '0' && t[1] == 'x');
    assert(has_hex_prefix(t));
}

/// Normalizing ignores case: values equal up to the case of ASCII letters
/// normalize alike.
pub proof fn lemma_normalize_ignores_case(a: Seq<char>, b: Seq<char>)
    requires
        ascii_lower(a) == ascii_lower(b),
    ensures
        normalized(a) == normalized(b),
{
    lemma_normalize_of_lower(a);
    lemma_normalize_of_lower(b);
}

} // verus!
