//! Modified UTF-8 string handling.

use crate::error::{spec_error, Context, DecodeError, DecodeErrorKind};
use core::cmp::Ordering;
use vstd::prelude::*;
use vstd::std_specs::iter::IteratorSpec;
use vstd::string::StringSliceAdditionalSpecFns;

verus! {

/// A byte of the form `10xxxxxx`, which continues a code unit sequence.
pub open spec fn is_continuation(b: u8) -> bool {
    0x80 <= b < 0xC0
}

/// The length of the well-formed code unit sequence at the front of `s`, or 0 if there is none.
///
/// Zero bytes are not allowed; `U+0000` is written as `C0 80`. Overlong two-byte forms
/// other than `C0 80` and overlong three-byte forms are not allowed.
pub open spec fn first_unit_len(s: Seq<u8>) -> int {
    if s.len() == 0 {
        0
    } else if s[0] == 0 {
        0
    } else if s[0] < 0x80 {
        1
    } else if 0xC0 <= s[0] < 0xE0 {
        if s.len() >= 2 && is_continuation(s[1]) && !(s[0] < 0xC2 && !(s[0] == 0xC0 && s[1] == 0x80)) {
            2
        } else {
            0
        }
    } else if 0xE0 <= s[0] < 0xF0 {
        if s.len() >= 3 && is_continuation(s[1]) && is_continuation(s[2]) && !(s[0] == 0xE0 && s[1]
            < 0xA0) {
            3
        } else {
            0
        }
    } else {
        0
    }
}

/// Whether `s` is a valid modified UTF-8 string: a sequence of well-formed code unit sequences.
pub open spec fn valid_mutf8(s: Seq<u8>) -> bool
    decreases s.len(),
{
    if s.len() == 0 {
        true
    } else {
        let w = first_unit_len(s);
        0 < w <= s.len() && valid_mutf8(s.skip(w))
    }
}

proof fn lemma_unit_shape(s: Seq<u8>)
    requires
        first_unit_len(s) > 0,
    ensures
        first_unit_len(s) <= s.len(),
        first_unit_len(s) == 1 ==> 0 < s[0] < 0x80,
        first_unit_len(s) == 2 ==> 0xC0 <= s[0] < 0xE0 && is_continuation(s[1]),
        first_unit_len(s) == 3 ==> 0xE0 <= s[0] < 0xF0 && is_continuation(s[1]) && is_continuation(s[2]),
        !is_continuation(s[0]),
        first_unit_len(s) <= 3,
{
}

/// A valid string splits into two valid strings at every byte that does not continue a sequence.
pub proof fn lemma_valid_split(s: Seq<u8>, k: int)
    requires
        valid_mutf8(s),
        0 <= k <= s.len(),
        k == s.len() || !is_continuation(s[k]),
    ensures
        valid_mutf8(s.take(k)),
        valid_mutf8(s.skip(k)),
    decreases s.len(),
{
    if k == 0 {
        assert(s.take(0) =~= Seq::<u8>::empty());
        assert(s.skip(0) =~= s);
    } else {
        let w = first_unit_len(s);
        lemma_unit_shape(s);
        if k < w {
            assert(is_continuation(s[k]));
        } else {
            let rest = s.skip(w);
            lemma_valid_split(rest, k - w);
            assert(rest.skip(k - w) =~= s.skip(k));
            let t = s.take(k);
            assert(first_unit_len(t) == w);
            assert(t.skip(w) =~= rest.take(k - w));
        }
    }
}

/// Two valid strings make a valid string.
pub proof fn lemma_valid_concat(a: Seq<u8>, b: Seq<u8>)
    requires
        valid_mutf8(a),
        valid_mutf8(b),
    ensures
        valid_mutf8(a + b),
    decreases a.len(),
{
    if a.len() == 0 {
        assert(a + b =~= b);
    } else {
        let w = first_unit_len(a);
        lemma_unit_shape(a);
        assert(first_unit_len(a + b) == w);
        lemma_valid_concat(a.skip(w), b);
        assert((a + b).skip(w) =~= a.skip(w) + b);
    }
}

/// Checks whether `v` is valid modified UTF-8.
fn is_mutf8_valid(v: &[u8]) -> (r: bool)
    ensures
        r == valid_mutf8(v@),
{
    let mut i: usize = 0;
    assert(v@.skip(0) =~= v@);
    while i < v.len()
        invariant
            i <= v@.len(),
            valid_mutf8(v@) == valid_mutf8(v@.skip(i as int)),
        decreases v@.len() - i,
    {
        let ghost rest = v@.skip(i as int);
        let b1 = v[i];
        if b1 == 0 {
            return false;
        } else if b1 < 0x80 {
            assert(first_unit_len(rest) == 1);
            assert(rest.skip(1) =~= v@.skip(i + 1));
            i = i + 1;
        } else if 0xC0 <= b1 && b1 < 0xE0 {
            if v.len() - i < 2 {
                return false;
            }
            let b2 = v[i + 1];
            if !(0x80 <= b2 && b2 < 0xC0) {
                return false;
            }
            // overlong encodings which do not encode `0` are not allowed
            if b1 < 0xC2 && !(b1 == 0xC0 && b2 == 0x80) {
                return false;
            }
            assert(first_unit_len(rest) == 2);
            assert(rest.skip(2) =~= v@.skip(i + 2));
            i = i + 2;
        } else if 0xE0 <= b1 && b1 < 0xF0 {
            if v.len() - i < 3 {
                return false;
            }
            let b2 = v[i + 1];
            let b3 = v[i + 2];
            if !(0x80 <= b2 && b2 < 0xC0) || !(0x80 <= b3 && b3 < 0xC0) {
                return false;
            }
            // overlong encodings are not allowed
            if b1 == 0xE0 && b2 < 0xA0 {
                return false;
            }
            assert(first_unit_len(rest) == 3);
            assert(rest.skip(3) =~= v@.skip(i + 3));
            i = i + 3;
        } else {
            return false;
        }
    }
    proof {
        assert(v@.skip(i as int) =~= Seq::<u8>::empty());
    }
    true
}

/// The code point of a two-byte sequence.
pub open spec fn two_code(b0: u8, b1: u8) -> u32 {
    ((b0 - 0xC0) * 64 + (b1 - 0x80)) as u32
}

/// The code point of a three-byte sequence.
pub open spec fn three_code(b0: u8, b1: u8, b2: u8) -> u32 {
    ((b0 - 0xE0) * 4096 + (b1 - 0x80) * 64 + (b2 - 0x80)) as u32
}

/// The code of an unpaired surrogate `ED b1 b2`.
pub open spec fn surrogate_code(b1: u8, b2: u8) -> u32 {
    (0xD000 + (b1 - 0x80) * 64 + (b2 - 0x80)) as u32
}

/// The code point of a surrogate pair `ED b1 b2 ED b4 b5`.
pub open spec fn pair_code(b1: u8, b2: u8, b4: u8, b5: u8) -> u32 {
    (0x10000 + (b1 - 0xA0) * 0x10000 + (b2 - 0x80) * 0x400 + (b4 - 0xB0) * 0x40 + (b5 - 0x80)) as u32
}

/// Whether `s` starts with a high surrogate that is followed by a low surrogate.
pub open spec fn starts_with_pair(s: Seq<u8>) -> bool {
    s.len() >= 6 && s[0] == 0xED && 0xA0 <= s[1] < 0xB0 && s[3] == 0xED && 0xB0 <= s[4] < 0xC0
}

/// The size of the character at the front of valid modified UTF-8 and the character,
/// or the code of an unpaired surrogate.
pub open spec fn spec_decode_char(s: Seq<u8>) -> (int, Result<char, u32>) {
    if s[0] < 0x80 {
        (1, Ok((s[0] as u32) as char))
    } else if s[0] < 0xE0 {
        (2, Ok(two_code(s[0], s[1]) as char))
    } else if starts_with_pair(s) {
        (6, Ok(pair_code(s[1], s[2], s[4], s[5]) as char))
    } else if s[0] == 0xED && 0xA0 <= s[1] < 0xC0 {
        (3, Err(surrogate_code(s[1], s[2])))
    } else {
        (3, Ok(three_code(s[0], s[1], s[2]) as char))
    }
}

/// The size of the character at the back of valid modified UTF-8 and the character,
/// or the code of an unpaired surrogate.
pub open spec fn spec_decode_char_back(s: Seq<u8>) -> (int, Result<char, u32>) {
    let n = s.len() as int;
    if s[n - 1] < 0x80 {
        (1, Ok((s[n - 1] as u32) as char))
    } else if 0xC0 <= s[n - 2] < 0xE0 {
        (2, Ok(two_code(s[n - 2], s[n - 1]) as char))
    } else if n >= 6 && s[n - 3] == 0xED && 0xB0 <= s[n - 2] < 0xC0 && 0xA0 <= s[n - 5] < 0xB0 && s[n
        - 6] == 0xED {
        (6, Ok(pair_code(s[n - 5], s[n - 4], s[n - 2], s[n - 1]) as char))
    } else if s[n - 3] == 0xED && 0xA0 <= s[n - 2] < 0xC0 {
        (3, Err(surrogate_code(s[n - 2], s[n - 1])))
    } else {
        (3, Ok(three_code(s[n - 3], s[n - 2], s[n - 1]) as char))
    }
}

/// The code point that the front of valid modified UTF-8 decodes to, if it is a character.
pub open spec fn spec_front_code(s: Seq<u8>) -> u32 {
    if s[0] < 0x80 {
        s[0] as u32
    } else if s[0] < 0xE0 {
        two_code(s[0], s[1])
    } else if starts_with_pair(s) {
        pair_code(s[1], s[2], s[4], s[5])
    } else {
        three_code(s[0], s[1], s[2])
    }
}

/// Decoding the front of a valid string consumes a whole number of sequences,
/// leaves a valid string, and gives a Unicode scalar value.
pub proof fn lemma_decode_front(s: Seq<u8>)
    requires
        valid_mutf8(s),
        s.len() > 0,
    ensures
        ({
            let (w, r) = spec_decode_char(s);
            &&& 0 < w <= s.len()
            &&& valid_mutf8(s.skip(w))
            &&& (r is Ok ==> vstd::utf8::is_scalar(spec_front_code(s)) && r == Ok::<char, u32>(spec_front_code(s) as char))
            &&& (w == 6 ==> starts_with_pair(s) && is_continuation(s[2]) && is_continuation(s[5]))
            &&& (w < 6 ==> w == first_unit_len(s))
        }),
{
    lemma_unit_shape(s);
    let w = first_unit_len(s);
    assert(valid_mutf8(s.skip(w)));
    if starts_with_pair(s) {
        let rest = s.skip(3);
        assert(w == 3);
        assert(rest.len() >= 3);
        assert(rest[0] == s[3]);
        assert(first_unit_len(rest) > 0);
        lemma_unit_shape(rest);
        assert(first_unit_len(rest) == 3);
        assert(rest[2] == s[5]);
        assert(valid_mutf8(rest.skip(3)));
        assert(rest.skip(3) =~= s.skip(6));
        let c = pair_code(s[1], s[2], s[4], s[5]);
        assert(0x10000 <= c <= 0x10FFFF);
    } else if s[0] < 0x80 {
    } else if s[0] < 0xE0 {
        assert(two_code(s[0], s[1]) <= 0x7FF);
    } else if s[0] == 0xED && 0xA0 <= s[1] < 0xC0 {
    } else {
        let c = three_code(s[0], s[1], s[2]);
        assert(c <= 0xFFFF);
        assert(!(0xD800 <= c <= 0xDFFF));
    }
}

/// A single well-formed sequence is a valid string.
proof fn lemma_single_unit_valid(u: Seq<u8>)
    requires
        first_unit_len(u) == u.len(),
        u.len() > 0,
    ensures
        valid_mutf8(u),
{
    assert(u.skip(u.len() as int) =~= Seq::<u8>::empty());
    assert(valid_mutf8(u.skip(u.len() as int)));
}

/// A valid non-empty string ends with a well-formed sequence that follows a valid string.
proof fn lemma_last_unit(s: Seq<u8>) -> (k: int)
    requires
        valid_mutf8(s),
        s.len() > 0,
    ensures
        0 <= k < s.len(),
        valid_mutf8(s.take(k)),
        first_unit_len(s.skip(k)) == s.len() - k,
    decreases s.len(),
{
    let w = first_unit_len(s);
    lemma_unit_shape(s);
    if w == s.len() {
        assert(s.take(0) =~= Seq::<u8>::empty());
        assert(s.skip(0) =~= s);
        0
    } else {
        let rest = s.skip(w);
        let k2 = lemma_last_unit(rest);
        let head = s.take(w);
        assert(first_unit_len(head) == w);
        lemma_single_unit_valid(head);
        lemma_valid_concat(head, rest.take(k2));
        assert(head + rest.take(k2) =~= s.take(w + k2));
        assert(rest.skip(k2) =~= s.skip(w + k2));
        w + k2
    }
}

/// Decoding the back of a valid string agrees with decoding the same bytes from the front,
/// and leaves a valid string.
pub proof fn lemma_decode_back(s: Seq<u8>)
    requires
        valid_mutf8(s),
        s.len() > 0,
    ensures
        ({
            let (w, r) = spec_decode_char_back(s);
            let k = s.len() - w;
            &&& 0 < w <= s.len()
            &&& valid_mutf8(s.take(k))
            &&& valid_mutf8(s.skip(k))
            &&& spec_decode_char(s.skip(k)) == (w, r)
        }),
{
    let n = s.len() as int;
    let k0 = lemma_last_unit(s);
    let u = s.skip(k0);
    lemma_unit_shape(u);
    lemma_single_unit_valid(u);
    let (w, r) = spec_decode_char_back(s);
    if first_unit_len(u) == 3 && n >= 6 && s[n - 3] == 0xED && 0xB0 <= s[n - 2] < 0xC0 && 0xA0 <= s[n - 5] < 0xB0
        && s[n - 6] == 0xED {
        let p = s.take(k0);
        lemma_valid_split(p, n - 6);
        let q = p.skip(n - 6);
        assert(q[0] == 0xED);
        lemma_unit_shape(q);
        assert(first_unit_len(q) == 3);
        assert(p.take(n - 6) =~= s.take(n - 6));
        let v = s.skip(n - 6);
        assert(v =~= q + u);
        lemma_valid_concat(q, u);
        assert(starts_with_pair(v));
    }
}

/// The modified UTF-8 encoding of one character.
pub open spec fn spec_encode_char(c: char) -> Seq<u8> {
    let v = c as u32;
    if 0x01 <= v <= 0x7F {
        seq![v as u8]
    } else if v <= 0x7FF {
        seq![(0xC0 + v / 64) as u8, (0x80 + v % 64) as u8]
    } else if v <= 0xFFFF {
        seq![(0xE0 + v / 4096) as u8, (0x80 + (v / 64) % 64) as u8, (0x80 + v % 64) as u8]
    } else {
        let u = v - 0x10000;
        seq![
            0xEDu8,
            (0xA0 + u / 0x10000) as u8,
            (0x80 + (u / 0x400) % 64) as u8,
            0xEDu8,
            (0xB0 + (u / 64) % 16) as u8,
            (0x80 + u % 64) as u8,
        ]
    }
}

/// The modified UTF-8 encoding of a sequence of characters.
pub open spec fn spec_encode(cs: Seq<char>) -> Seq<u8>
    decreases cs.len(),
{
    if cs.len() == 0 {
        Seq::empty()
    } else {
        spec_encode_char(cs[0]) + spec_encode(cs.drop_first())
    }
}

/// The characters of a valid string, front to back; an unpaired surrogate gives its code.
pub open spec fn spec_chars(s: Seq<u8>) -> Seq<Result<char, u32>>
    decreases s.len(),
{
    if s.len() == 0 || !valid_mutf8(s) {
        Seq::empty()
    } else {
        let (w, r) = spec_decode_char(s);
        if 0 < w <= s.len() {
            seq![r] + spec_chars(s.skip(w))
        } else {
            Seq::empty()
        }
    }
}

/// A character, or the replacement character for an unpaired surrogate.
pub open spec fn lossy(r: Result<char, u32>) -> char {
    match r {
        Ok(c) => c,
        Err(_) => '\u{FFFD}',
    }
}

/// The characters of a valid string, with unpaired surrogates replaced by `U+FFFD`.
pub open spec fn spec_chars_lossy(s: Seq<u8>) -> Seq<char> {
    spec_chars(s).map_values(|r: Result<char, u32>| lossy(r))
}

proof fn lemma_arith_two(v: u32)
    requires
        v <= 0x7FF,
    ensures
        0xC0 <= 0xC0 + v / 64 < 0xE0,
        0x80 <= 0x80 + v % 64 < 0xC0,
        (0xC0 + v / 64 - 0xC0) * 64 + (0x80 + v % 64 - 0x80) == v,
        v >= 0x80 ==> 0xC0 + v / 64 >= 0xC2,
        v < 0x80 ==> v / 64 <= 1,
        v == 0 ==> v / 64 == 0 && v % 64 == 0,
{
}

proof fn lemma_arith_three(v: u32)
    requires
        0x800 <= v <= 0xFFFF,
        !(0xD800 <= v <= 0xDFFF),
    ensures
        0xE0 <= 0xE0 + v / 4096 < 0xF0,
        0x80 <= 0x80 + (v / 64) % 64 < 0xC0,
        0x80 <= 0x80 + v % 64 < 0xC0,
        (0xE0 + v / 4096 - 0xE0) * 4096 + (0x80 + (v / 64) % 64 - 0x80) * 64 + (0x80 + v % 64 - 0x80) == v,
        v / 4096 == 0 ==> 0x80 + (v / 64) % 64 >= 0xA0,
        v / 4096 == 0xD ==> 0x80 + (v / 64) % 64 < 0xA0,
{
    assert(v == (v / 4096) * 4096 + ((v / 64) % 64) * 64 + v % 64) by (nonlinear_arith);
}

proof fn lemma_arith_four(v: u32)
    requires
        0x10000 <= v <= 0x10FFFF,
    ensures
        ({
            let u = v - 0x10000;
            &&& 0xA0 <= 0xA0 + u / 0x10000 < 0xB0
            &&& 0x80 <= 0x80 + (u / 0x400) % 64 < 0xC0
            &&& 0xB0 <= 0xB0 + (u / 64) % 16 < 0xC0
            &&& 0x80 <= 0x80 + u % 64 < 0xC0
            &&& 0x10000 + (0xA0 + u / 0x10000 - 0xA0) * 0x10000 + (0x80 + (u / 0x400) % 64 - 0x80) * 0x400
                + (0xB0 + (u / 64) % 16 - 0xB0) * 0x40 + (0x80 + u % 64 - 0x80) == v
        }),
{
    let u = v - 0x10000;
    assert(u == (u / 0x10000) * 0x10000 + ((u / 0x400) % 64) * 0x400 + ((u / 64) % 16) * 64 + u % 64)
        by (nonlinear_arith);
}

/// The facts about one encoded character that decoding needs.
pub open spec fn encodes_char(c: char, before: Seq<u8>, after: Seq<u8>) -> bool {
    &&& valid_mutf8(spec_encode_char(c))
    &&& spec_decode_char(spec_encode_char(c) + after) == (spec_encode_char(c).len() as int, Ok::<char, u32>(c))
    &&& spec_decode_char_back(before + spec_encode_char(c)) == (spec_encode_char(c).len() as int, Ok::<char, u32>(c))
    &&& 1 <= spec_encode_char(c).len() <= 6
}

proof fn lemma_encode_one_byte(c: char, before: Seq<u8>, after: Seq<u8>)
    requires
        0x01 <= c as u32 <= 0x7F,
    ensures
        encodes_char(c, before, after),
{
    let v = c as u32;
    let e = spec_encode_char(c);
    let s = e + after;
    let t = before + e;
    let n = t.len() as int;
    assert(e =~= seq![v as u8]);
    assert(t[n - 1] == e[0]);
    assert(first_unit_len(e) == 1);
    lemma_single_unit_valid(e);
    assert(s[0] == e[0]);
    vstd::utf8::char_u32_cast(c, v);
}

proof fn lemma_encode_two_bytes(c: char, before: Seq<u8>, after: Seq<u8>)
    requires
        c as u32 == 0 || 0x80 <= c as u32 <= 0x7FF,
    ensures
        encodes_char(c, before, after),
{
    let v = c as u32;
    lemma_arith_two(v);
    let e = spec_encode_char(c);
    let s = e + after;
    let t = before + e;
    let n = t.len() as int;
    assert(e =~= seq![(0xC0 + v / 64) as u8, (0x80 + v % 64) as u8]);
    assert(t[n - 1] == e[1] && t[n - 2] == e[0]);
    assert(first_unit_len(e) == 2);
    lemma_single_unit_valid(e);
    assert(s[0] == e[0] && s[1] == e[1]);
    assert(two_code(e[0], e[1]) == v);
    vstd::utf8::char_u32_cast(c, v);
}

proof fn lemma_encode_three_bytes(c: char, before: Seq<u8>, after: Seq<u8>)
    requires
        0x800 <= c as u32 <= 0xFFFF,
    ensures
        encodes_char(c, before, after),
{
    let v = c as u32;
    vstd::utf8::char_is_scalar(c);
    lemma_arith_three(v);
    let e = spec_encode_char(c);
    let s = e + after;
    let t = before + e;
    let n = t.len() as int;
    assert(e =~= seq![(0xE0 + v / 4096) as u8, (0x80 + (v / 64) % 64) as u8, (0x80 + v % 64) as u8]);
    assert(t[n - 1] == e[2] && t[n - 2] == e[1] && t[n - 3] == e[0]);
    assert(first_unit_len(e) == 3);
    lemma_single_unit_valid(e);
    assert(s[0] == e[0] && s[1] == e[1] && s[2] == e[2]);
    assert(three_code(e[0], e[1], e[2]) == v);
    vstd::utf8::char_u32_cast(c, v);
}

proof fn lemma_encode_six_bytes(c: char, before: Seq<u8>, after: Seq<u8>)
    requires
        0x10000 <= c as u32,
    ensures
        encodes_char(c, before, after),
{
    let v = c as u32;
    vstd::utf8::char_is_scalar(c);
    lemma_arith_four(v);
    let u = v - 0x10000;
    let e = spec_encode_char(c);
    let s = e + after;
    let t = before + e;
    let n = t.len() as int;
    assert(e =~= seq![
        0xEDu8,
        (0xA0 + u / 0x10000) as u8,
        (0x80 + (u / 0x400) % 64) as u8,
        0xEDu8,
        (0xB0 + (u / 64) % 16) as u8,
        (0x80 + u % 64) as u8,
    ]);
    let hi = e.take(3);
    let lo = e.skip(3);
    assert(first_unit_len(hi) == 3);
    assert(first_unit_len(lo) == 3);
    lemma_single_unit_valid(hi);
    lemma_single_unit_valid(lo);
    lemma_valid_concat(hi, lo);
    assert(hi + lo =~= e);
    assert(s[0] == e[0] && s[1] == e[1] && s[2] == e[2] && s[3] == e[3] && s[4] == e[4] && s[5] == e[5]);
    assert(t[n - 1] == e[5] && t[n - 2] == e[4] && t[n - 3] == e[3] && t[n - 4] == e[2] && t[n - 5] == e[1]
        && t[n - 6] == e[0]);
    assert(pair_code(e[1], e[2], e[4], e[5]) == v);
    vstd::utf8::char_u32_cast(c, v);
}

/// Encoding a character gives a valid string that decodes back to the character,
/// from the front whatever follows it, and from the back whatever precedes it.
pub proof fn lemma_encode_char(c: char, before: Seq<u8>, after: Seq<u8>)
    ensures
        encodes_char(c, before, after),
{
    let v = c as u32;
    vstd::utf8::char_is_scalar(c);
    if 0x01 <= v <= 0x7F {
        lemma_encode_one_byte(c, before, after);
    } else if v <= 0x7FF {
        lemma_encode_two_bytes(c, before, after);
    } else if v <= 0xFFFF {
        lemma_encode_three_bytes(c, before, after);
    } else {
        lemma_encode_six_bytes(c, before, after);
    }
}

/// Encoding one more character appends its encoding.
pub proof fn lemma_encode_push(cs: Seq<char>, c: char)
    ensures
        spec_encode(cs.push(c)) == spec_encode(cs) + spec_encode_char(c),
    decreases cs.len(),
{
    if cs.len() == 0 {
        assert(cs.push(c).drop_first() =~= Seq::<char>::empty());
        assert(spec_encode(Seq::<char>::empty()) == Seq::<u8>::empty());
        assert(spec_encode_char(c) + Seq::<u8>::empty() =~= Seq::<u8>::empty() + spec_encode_char(c));
    } else {
        lemma_encode_push(cs.drop_first(), c);
        assert(cs.push(c).drop_first() =~= cs.drop_first().push(c));
        assert(spec_encode_char(cs[0]) + (spec_encode(cs.drop_first()) + spec_encode_char(c)) =~= (
        spec_encode_char(cs[0]) + spec_encode(cs.drop_first())) + spec_encode_char(c));
    }
}

/// The encoding of any characters is valid modified UTF-8.
pub proof fn lemma_encode_valid(cs: Seq<char>)
    ensures
        valid_mutf8(spec_encode(cs)),
    decreases cs.len(),
{
    if cs.len() == 0 {
        assert(valid_mutf8(Seq::<u8>::empty()));
    } else {
        lemma_encode_char(cs[0], Seq::empty(), Seq::empty());
        lemma_encode_valid(cs.drop_first());
        lemma_valid_concat(spec_encode_char(cs[0]), spec_encode(cs.drop_first()));
    }
}

/// Decoding the encoding of characters gives back the characters.
pub proof fn lemma_chars_of_encode(cs: Seq<char>)
    ensures
        spec_chars(spec_encode(cs)) == cs.map_values(|c: char| Ok::<char, u32>(c)),
    decreases cs.len(),
{
    if cs.len() == 0 {
        assert(spec_chars(spec_encode(cs)) =~= cs.map_values(|c: char| Ok::<char, u32>(c)));
    } else {
        let head = spec_encode_char(cs[0]);
        let tail = spec_encode(cs.drop_first());
        let s = spec_encode(cs);
        lemma_encode_char(cs[0], Seq::empty(), tail);
        lemma_encode_valid(cs);
        lemma_chars_of_encode(cs.drop_first());
        assert(s.skip(head.len() as int) =~= tail);
        assert(spec_chars(s) == seq![Ok::<char, u32>(cs[0])] + spec_chars(tail));
        assert(spec_chars(s) =~= cs.map_values(|c: char| Ok::<char, u32>(c)));
    }
}

/// An ASCII byte in front of a valid string adds its character in front.
pub(crate) proof fn lemma_chars_ascii_front(c: u8, x: Seq<u8>)
    requires
        0 < c < 0x80,
        valid_mutf8(x),
    ensures
        valid_mutf8(seq![c] + x),
        spec_chars(seq![c] + x) == seq![Ok::<char, u32>((c as u32) as char)] + spec_chars(x),
{
    let s = seq![c] + x;
    assert(first_unit_len(s) == 1);
    assert(s.skip(1) =~= x);
    assert(valid_mutf8(s));
}

/// An ASCII byte after a valid string adds its character at the back.
pub(crate) proof fn lemma_chars_ascii_back(x: Seq<u8>, c: u8)
    requires
        0 < c < 0x80,
        valid_mutf8(x),
    ensures
        valid_mutf8(x + seq![c]),
        spec_chars(x + seq![c]) == spec_chars(x) + seq![Ok::<char, u32>((c as u32) as char)],
    decreases x.len(),
{
    let s = x + seq![c];
    assert(first_unit_len(seq![c]) == 1);
    assert(seq![c].skip(1) =~= Seq::<u8>::empty());
    assert(valid_mutf8(Seq::<u8>::empty()));
    assert(valid_mutf8(seq![c]));
    lemma_valid_concat(x, seq![c]);
    if x.len() == 0 {
        assert(s =~= seq![c]);
        assert(spec_chars(x) =~= Seq::<Result<char, u32>>::empty());
        assert(spec_chars(s) =~= seq![Ok::<char, u32>((c as u32) as char)] + spec_chars(s.skip(1)));
        assert(spec_chars(s.skip(1)) =~= Seq::<Result<char, u32>>::empty());
        assert(spec_chars(s) =~= spec_chars(x) + seq![Ok::<char, u32>((c as u32) as char)]);
    } else {
        lemma_decode_front(x);
        lemma_unit_shape(x);
        let w = spec_decode_char(x).0;
        if x.len() == 5 && x[3] == 0xED {
            let rest = x.skip(first_unit_len(x));
            assert(rest[0] == x[first_unit_len(x)]);
        }
        assert(starts_with_pair(s) == starts_with_pair(x));
        assert(spec_decode_char(s) == spec_decode_char(x));
        lemma_chars_ascii_back(x.skip(w), c);
        assert(s.skip(w) =~= x.skip(w) + seq![c]);
        lemma_chars_front(x);
        lemma_chars_front(s);
        assert(spec_chars(s) =~= spec_chars(x) + seq![Ok::<char, u32>((c as u32) as char)]);
    }
}

/// A string made from characters displays as exactly those characters.
pub proof fn lemma_display_of_encode(cs: Seq<char>)
    ensures
        spec_chars_lossy(spec_encode(cs)) == cs,
{
    lemma_chars_of_encode(cs);
    assert(spec_chars_lossy(spec_encode(cs)) =~= cs);
}

/// Converting the UTF-8 bytes of a string slice, as the literal conversion does, gives the
/// same bytes as encoding its characters, as `MString::from_str` does; their number is the sum
/// of the widths of the characters.
pub proof fn lemma_utf8_conversion_agrees(s: &str)
    ensures
        vstd::utf8::valid_utf8(s.spec_bytes()),
        vstd::utf8::decode_utf8(s.spec_bytes()) == s@,
        spec_encode(vstd::utf8::decode_utf8(s.spec_bytes())) == spec_encode(s@),
        spec_encode(s@).len() == spec_encoded_len(s@),
{
    vstd::utf8::encode_utf8_valid_utf8(s@);
    vstd::utf8::encode_utf8_decode_utf8(s@);
    lemma_encoded_len(s@);
}

/// Calls `char::from_u32`, whose documented behaviour is trusted here, not proved: it gives the
/// character with code `code` when `code` is a Unicode scalar value (at most `0x10FFFF` and not a
/// surrogate), and `None` for every other code.
#[verifier::external_body]
fn char_from_u32(code: u32) -> (r: Option<char>)
    ensures
        vstd::utf8::is_scalar(code) ==> r == Some(code as char),
        !vstd::utf8::is_scalar(code) ==> r is None,
{
    char::from_u32(code)
}

/// Calls `String::push`, whose documented behaviour is trusted here, not proved: the string's
/// characters afterwards are its characters before, followed by `c`.
#[verifier::external_body]
pub(crate) fn string_push(s: &mut String, c: char)
    ensures
        final(s)@ == old(s)@.push(c),
{
    s.push(c)
}

/// Calls `core::str::from_utf8`, whose documented behaviour is trusted here, not proved: it accepts
/// exactly the valid UTF-8 byte strings, and the slice it gives back has the characters that the
/// bytes encode. The error that it gives for other bytes is dropped.
#[verifier::external_body]
fn str_from_utf8(v: &[u8]) -> (r: Option<&str>)
    ensures
        r is Some <==> vstd::utf8::valid_utf8(v@),
        r matches Some(s) ==> s@ == vstd::utf8::decode_utf8(v@),
{
    core::str::from_utf8(v).ok()
}

/// The character with a code that is known to be a Unicode scalar value.
fn scalar_to_char(code: u32) -> (c: char)
    requires
        vstd::utf8::is_scalar(code),
    ensures
        c == code as char,
{
    match char_from_u32(code) {
        Some(c) => c,
        None => '\u{FFFD}',
    }
}

/// Decodes the character at the front of `v[start..end]` and returns its size.
fn decode_mutf8_char(v: &[u8], start: usize, end: usize) -> (r: (usize, Result<char, u32>))
    requires
        start < end <= v@.len(),
        valid_mutf8(v@.subrange(start as int, end as int)),
    ensures
        (r.0 as int, r.1) == spec_decode_char(v@.subrange(start as int, end as int)),
{
    let ghost s = v@.subrange(start as int, end as int);
    proof {
        lemma_decode_front(s);
        lemma_unit_shape(s);
    }
    let b0 = v[start];
    if b0 < 0x80 {
        // single byte case
        return (1, Ok(scalar_to_char(b0 as u32)));
    }
    let b1 = v[start + 1];
    if b0 < 0xE0 {
        // two byte case
        let code = (b0 as u32 - 0xC0) * 64 + (b1 as u32 - 0x80);
        return (2, Ok(scalar_to_char(code)));
    }
    let b2 = v[start + 2];
    if b0 == 0xED {
        if end - start >= 6 && 0xA0 <= b1 && b1 < 0xB0 && v[start + 3] == 0xED && 0xB0 <= v[start + 4]
            && v[start + 4] < 0xC0 {
            // six byte case (paired surrogate)
            let b4 = v[start + 4];
            let b5 = v[start + 5];
            let code = 0x10000 + (b1 as u32 - 0xA0) * 0x10000 + (b2 as u32 - 0x80) * 0x400 + (b4 as u32
                - 0xB0) * 0x40 + (b5 as u32 - 0x80);
            return (6, Ok(scalar_to_char(code)));
        }
        // unpaired surrogates
        if 0xA0 <= b1 && b1 < 0xC0 {
            let code = 0xD000 + (b1 as u32 - 0x80) * 64 + (b2 as u32 - 0x80);
            return (3, Err(code));
        }
    }
    // three byte case
    let code = (b0 as u32 - 0xE0) * 4096 + (b1 as u32 - 0x80) * 64 + (b2 as u32 - 0x80);
    (3, Ok(scalar_to_char(code)))
}

/// Decodes the character at the back of `v[start..end]` and returns its size.
fn decode_mutf8_char_reversed(v: &[u8], start: usize, end: usize) -> (r: (usize, Result<char, u32>))
    requires
        start < end <= v@.len(),
        valid_mutf8(v@.subrange(start as int, end as int)),
    ensures
        (r.0 as int, r.1) == spec_decode_char_back(v@.subrange(start as int, end as int)),
{
    let ghost s = v@.subrange(start as int, end as int);
    let ghost n = s.len() as int;
    proof {
        lemma_decode_back(s);
        let (w, r) = spec_decode_char_back(s);
        lemma_decode_front(s.skip(n - w));
        lemma_unit_shape(s);
    }
    let b1 = v[end - 1];
    if b1 < 0x80 {
        // single byte case
        return (1, Ok(scalar_to_char(b1 as u32)));
    }
    let b2 = v[end - 2];
    if 0xC0 <= b2 && b2 < 0xE0 {
        // two byte case
        let code = (b2 as u32 - 0xC0) * 64 + (b1 as u32 - 0x80);
        return (2, Ok(scalar_to_char(code)));
    }
    let b3 = v[end - 3];
    if b3 == 0xED {
        if end - start >= 6 {
            let b4 = v[end - 4];
            let b5 = v[end - 5];
            let b6 = v[end - 6];
            if 0xB0 <= b2 && b2 < 0xC0 && 0xA0 <= b5 && b5 < 0xB0 && b6 == 0xED {
                // six byte case
                let code = 0x10000 + (b5 as u32 - 0xA0) * 0x10000 + (b4 as u32 - 0x80) * 0x400 + (b2 as u32
                    - 0xB0) * 0x40 + (b1 as u32 - 0x80);
                return (6, Ok(scalar_to_char(code)));
            }
        }
        // unpaired surrogates
        if 0xA0 <= b2 && b2 < 0xC0 {
            let code = 0xD000 + (b2 as u32 - 0x80) * 64 + (b1 as u32 - 0x80);
            return (3, Err(code));
        }
    }
    // three byte case
    let code = (b3 as u32 - 0xE0) * 4096 + (b2 as u32 - 0x80) * 64 + (b1 as u32 - 0x80);
    (3, Ok(scalar_to_char(code)))
}


/// The number of bytes in the modified UTF-8 encoding of `c`.
pub open spec fn spec_char_width(c: char) -> nat {
    let v = c as u32;
    if v == 0 {
        2
    } else if v <= 0x7F {
        1
    } else if v <= 0x7FF {
        2
    } else if v <= 0xFFFF {
        3
    } else {
        6
    }
}

/// The sum of the widths of the characters `cs`.
pub open spec fn spec_encoded_len(cs: Seq<char>) -> nat
    decreases cs.len(),
{
    if cs.len() == 0 {
        0
    } else {
        spec_char_width(cs[0]) + spec_encoded_len(cs.drop_first())
    }
}

/// Encoding a character takes its width in bytes, gives a valid string, and decodes back to
/// exactly that character.
pub proof fn lemma_encode_char_width(c: char)
    ensures
        spec_encode_char(c).len() == spec_char_width(c),
        valid_mutf8(spec_encode_char(c)),
        spec_decode_char(spec_encode_char(c)) == (spec_char_width(c) as int, Ok::<char, u32>(c)),
        spec_chars(spec_encode_char(c)) == seq![Ok::<char, u32>(c)],
{
    let e = spec_encode_char(c);
    lemma_encode_char(c, Seq::empty(), Seq::empty());
    assert(e + Seq::<u8>::empty() =~= e);
    lemma_chars_front(e);
    assert(e.skip(e.len() as int) =~= Seq::<u8>::empty());
    assert(spec_chars(e) =~= seq![Ok::<char, u32>(c)]);
}

/// The modified UTF-8 encoding of characters is as long as the sum of their widths.
pub proof fn lemma_encoded_len(cs: Seq<char>)
    ensures
        spec_encode(cs).len() == spec_encoded_len(cs),
    decreases cs.len(),
{
    if cs.len() > 0 {
        lemma_encode_char_width(cs[0]);
        lemma_encoded_len(cs.drop_first());
    }
}
/// Appends the modified UTF-8 encoding of a character to the buffer and returns its size.
fn encode_mutf8_char(ch: char, buf: &mut Vec<u8>) -> (r: usize)
    ensures
        final(buf)@ == old(buf)@ + spec_encode_char(ch),
        r == spec_encode_char(ch).len(),
        r == spec_char_width(ch),
{
    let v = ch as u32;
    proof {
        vstd::utf8::char_is_scalar(ch);
    }
    if 0x01 <= v && v <= 0x7F {
        buf.push(v as u8);
        assert(buf@ =~= old(buf)@ + spec_encode_char(ch));
        1
    } else if v <= 0x7FF {
        proof {
            lemma_arith_two(v);
        }
        buf.push((0xC0 + v / 64) as u8);
        buf.push((0x80 + v % 64) as u8);
        assert(buf@ =~= old(buf)@ + spec_encode_char(ch));
        2
    } else if v <= 0xFFFF {
        proof {
            lemma_arith_three(v);
        }
        buf.push((0xE0 + v / 4096) as u8);
        buf.push((0x80 + (v / 64) % 64) as u8);
        buf.push((0x80 + v % 64) as u8);
        assert(buf@ =~= old(buf)@ + spec_encode_char(ch));
        3
    } else {
        proof {
            lemma_arith_four(v);
        }
        let u = v - 0x10000;
        buf.push(0xED);
        buf.push((0xA0 + u / 0x10000) as u8);
        buf.push((0x80 + (u / 0x400) % 64) as u8);
        buf.push(0xED);
        buf.push((0xB0 + (u / 64) % 16) as u8);
        buf.push((0x80 + u % 64) as u8);
        assert(buf@ =~= old(buf)@ + spec_encode_char(ch));
        6
    }
}

/// A Modified UTF-8 string slice, like [prim@str]: a window `source[start..end]` of valid bytes.
#[derive(Debug, Clone, Copy)]
pub struct MStr<'a> {
    pub(crate) source: &'a [u8],
    pub(crate) start: usize,
    pub(crate) end: usize,
}

impl<'a> MStr<'a> {
    #[verifier::type_invariant]
    pub(crate) closed spec fn inv(self) -> bool {
        &&& self.start <= self.end <= self.source@.len()
        &&& valid_mutf8(self.source@.subrange(self.start as int, self.end as int))
    }

    /// The bytes of the string.
    pub open(crate) spec fn spec_bytes(self) -> Seq<u8> {
        self.source@.subrange(self.start as int, self.end as int)
    }

    /// The string that is the window `source[start..end]`.
    pub open(crate) spec fn spec_window(source: &'a [u8], start: usize, end: usize) -> MStr<'a> {
        MStr { source, start, end }
    }

    /// Creates a string from the window `source[start..end]` after checking its contents.
    pub(crate) fn from_window(source: &'a [u8], start: usize, end: usize) -> (r: Result<MStr<'a>, DecodeError>)
        requires
            start <= end <= source@.len(),
        ensures
            valid_mutf8(source@.subrange(start as int, end as int)) ==> r == Ok::<MStr<'a>, DecodeError>(
                MStr::spec_window(source, start, end),
            ),
            !valid_mutf8(source@.subrange(start as int, end as int)) ==> r == Err::<MStr<'a>, DecodeError>(
                spec_error(DecodeErrorKind::InvalidMutf8, None, Context::NoContext),
            ),
    {
        let (_, rest) = source.split_at(start);
        let (window, _) = rest.split_at(end - start);
        assert(window@ =~= source@.subrange(start as int, end as int));
        if is_mutf8_valid(window) {
            Ok(MStr { source, start, end })
        } else {
            Err(DecodeError::new(DecodeErrorKind::InvalidMutf8))
        }
    }

    /// Creates a new string from a modified UTF-8 byte slice.
    pub fn from_mutf8(v: &'a [u8]) -> (r: Result<MStr<'a>, DecodeError>)
        ensures
            valid_mutf8(v@) ==> r is Ok && r->Ok_0.spec_bytes() == v@,
            !valid_mutf8(v@) ==> r == Err::<MStr<'a>, DecodeError>(
                spec_error(DecodeErrorKind::InvalidMutf8, None, Context::NoContext),
            ),
    {
        assert(v@.subrange(0, v@.len() as int) =~= v@);
        MStr::from_window(v, 0, v.len())
    }

    /// Creates a new string from a mutable modified UTF-8 byte slice, which it keeps borrowed.
    pub fn from_mutf8_mut(v: &'a mut [u8]) -> (r: Result<MStr<'a>, DecodeError>)
        ensures
            valid_mutf8(old(v)@) ==> r is Ok && r->Ok_0.spec_bytes() == old(v)@,
            !valid_mutf8(old(v)@) ==> r == Err::<MStr<'a>, DecodeError>(
                spec_error(DecodeErrorKind::InvalidMutf8, None, Context::NoContext),
            ),
    {
        let shared: &'a [u8] = v;
        MStr::from_mutf8(shared)
    }

    /// Creates a new string from mutable bytes that are already known to be valid modified UTF-8,
    /// which it keeps borrowed.
    pub fn from_mutf8_unchecked_mut(v: &'a mut [u8]) -> (r: MStr<'a>)
        requires
            valid_mutf8(old(v)@),
        ensures
            r.spec_bytes() == old(v)@,
    {
        let shared: &'a [u8] = v;
        MStr::from_mutf8_unchecked(shared)
    }

    /// Creates a new string from bytes that are already known to be valid modified UTF-8.
    pub fn from_mutf8_unchecked(v: &'a [u8]) -> (r: MStr<'a>)
        requires
            valid_mutf8(v@),
        ensures
            r.spec_bytes() == v@,
    {
        assert(v@.subrange(0, v@.len() as int) =~= v@);
        MStr { source: v, start: 0, end: v.len() }
    }

    /// Returns the length of the string in bytes.
    pub fn len(&self) -> (r: usize)
        ensures
            r == self.spec_bytes().len(),
    {
        proof {
            use_type_invariant(self);
        }
        self.end - self.start
    }

    /// Returns whether the string contains any characters.
    pub fn is_empty(&self) -> (r: bool)
        ensures
            r == (self.spec_bytes().len() == 0),
    {
        proof {
            use_type_invariant(self);
        }
        self.end == self.start
    }

    /// Returns the inner byte slice.
    pub fn as_bytes(&self) -> (r: &'a [u8])
        ensures
            r@ == self.spec_bytes(),
            valid_mutf8(r@),
    {
        proof {
            use_type_invariant(self);
        }
        let (_, rest) = self.source.split_at(self.start);
        let (window, _) = rest.split_at(self.end - self.start);
        assert(window@ =~= self.spec_bytes());
        window
    }

    /// Checks whether the modified UTF-8 string is valid UTF-8 and returns a [`&str`] if it is.
    pub fn to_str(&self) -> (r: Option<&'a str>)
        ensures
            r is Some <==> vstd::utf8::valid_utf8(self.spec_bytes()),
            r matches Some(s) ==> s@ == vstd::utf8::decode_utf8(self.spec_bytes()),
    {
        str_from_utf8(self.as_bytes())
    }

    /// Returns whether the `index`-th byte is the first byte of a modified UTF-8 code point sequence or the end of the string.
    pub fn is_char_boundary(&self, index: usize) -> (r: bool)
        ensures
            r == (index == 0 || index == self.spec_bytes().len() || (index < self.spec_bytes().len()
                && !is_continuation(self.spec_bytes()[index as int]))),
    {
        proof {
            use_type_invariant(self);
        }
        if index == 0 || index == self.end - self.start {
            true
        } else if index > self.end - self.start {
            false
        } else {
            let b = self.source[self.start + index];
            !(0x80 <= b && b < 0xC0)
        }
    }

    /// The part `self[start..end]` of the string; both ends must be character boundaries.
    pub fn slice(&self, start: usize, end: usize) -> (r: MStr<'a>)
        requires
            start <= end <= self.spec_bytes().len(),
            start == self.spec_bytes().len() || !is_continuation(self.spec_bytes()[start as int]),
            end == self.spec_bytes().len() || !is_continuation(self.spec_bytes()[end as int]),
        ensures
            r.spec_bytes() == self.spec_bytes().subrange(start as int, end as int),
    {
        proof {
            use_type_invariant(self);
            let b = self.spec_bytes();
            lemma_valid_split(b, end as int);
            let head = b.take(end as int);
            if start < end {
                assert(head[start as int] == b[start as int]);
            }
            lemma_valid_split(head, start as int);
            assert(head.skip(start as int) =~= b.subrange(start as int, end as int));
            assert(self.source@.subrange(self.start + start, self.start + end) =~= b.subrange(
                start as int,
                end as int,
            ));
        }
        MStr { source: self.source, start: self.start + start, end: self.start + end }
    }

    /// Returns an iterator over the chars in this string.
    ///
    /// For valid unicode characters, `Ok` is yielded.
    /// If a character is invalid, then its code will be returned in the `Err` case.
    pub fn chars(&self) -> (r: Chars<'a>)
        ensures
            r.spec_bytes() == self.spec_bytes(),
    {
        proof {
            use_type_invariant(self);
        }
        Chars { source: self.source, start: self.start, end: self.end }
    }

    /// Returns an iterator over the chars in this string.
    ///
    /// Invalid characters are replaced with U+FFFD.
    pub fn chars_lossy(&self) -> (r: CharsLossy<'a>)
        ensures
            r.spec_bytes() == self.spec_bytes(),
    {
        proof {
            use_type_invariant(self);
        }
        CharsLossy { source: self.source, start: self.start, end: self.end }
    }

    /// Provides a value that gives the string with invalid characters displayed as U+FFFD.
    pub fn display(&self) -> (r: Display<'a>)
        ensures
            r.spec_bytes() == self.spec_bytes(),
    {
        Display { inner: *self }
    }
}

/// Characters that are all valid.
pub open spec fn ok_chars(cs: Seq<char>) -> Seq<Result<char, u32>> {
    cs.map_values(|c: char| Ok::<char, u32>(c))
}

/// The code of a character.
pub open spec fn code_of(c: char) -> u32 {
    c as u32
}

fn char_code(c: char) -> (r: u32)
    ensures
        r == code_of(c),
{
    c as u32
}

/// The order of two codes.
pub open spec fn order_of_codes(a: u32, b: u32) -> Ordering {
    if a < b {
        Ordering::Less
    } else if a > b {
        Ordering::Greater
    } else {
        Ordering::Equal
    }
}

/// Comparing the characters of a string with those of a string slice, front to back: the first
/// pair that differs decides, then the length. An unpaired surrogate compares by its code and
/// ends the comparison.
pub open spec fn compare_chars(left: Seq<Result<char, u32>>, right: Seq<char>) -> Ordering
    decreases left.len(),
{
    if left.len() == 0 {
        if right.len() == 0 {
            Ordering::Equal
        } else {
            Ordering::Less
        }
    } else if right.len() == 0 {
        Ordering::Greater
    } else {
        match left[0] {
            Err(code) => order_of_codes(code, code_of(right[0])),
            Ok(c) => if code_of(c) == code_of(right[0]) {
                compare_chars(left.drop_first(), right.drop_first())
            } else {
                order_of_codes(code_of(c), code_of(right[0]))
            },
        }
    }
}

/// Characters compare as equal to the same characters.
pub proof fn lemma_compare_equal(cs: Seq<char>)
    ensures
        compare_chars(ok_chars(cs), cs) == Ordering::Equal,
    decreases cs.len(),
{
    if cs.len() > 0 {
        assert(ok_chars(cs).drop_first() =~= ok_chars(cs.drop_first()));
        lemma_compare_equal(cs.drop_first());
    }
}

/// The string made from a string slice's characters is equal to it, and compares as equal to it.
pub proof fn lemma_encoded_equals_source(cs: Seq<char>)
    ensures
        spec_chars(spec_encode(cs)) == ok_chars(cs),
        compare_chars(spec_chars(spec_encode(cs)), cs) == Ordering::Equal,
{
    lemma_chars_of_encode(cs);
    lemma_compare_equal(cs);
}

impl<'a> MStr<'a> {
    /// Whether the string has exactly the characters of `other`; an unpaired surrogate matches no character.
    pub fn eq_str(&self, other: &str) -> (r: bool)
        ensures
            r == (spec_chars(self.spec_bytes()) == ok_chars(other@)),
    {
        broadcast use vstd::string::group_string_axioms;

        let mut left = self.chars();
        let mut right = other.chars();
        let ghost done: Seq<char> = Seq::empty();
        assert(ok_chars(done) + spec_chars(left.spec_bytes()) =~= spec_chars(self.spec_bytes()));
        loop
            invariant
                spec_chars(self.spec_bytes()) == ok_chars(done) + spec_chars(left.spec_bytes()),
                done + right.remaining() == other@,
                right.obeys_prophetic_iter_laws(),
                right.decrease() is Some,
            decreases left.spec_bytes().len(),
        {
            proof {
                use_type_invariant(&left);
            }
            let ghost lb = left.spec_bytes();
            let ghost rb = right.remaining();
            proof {
                if lb.len() > 0 {
                    lemma_chars_front(lb);
                    lemma_decode_front(lb);
                }
            }
            let l = left.next();
            let c = right.next();
            match (l, c) {
                (Some(Ok(lc)), Some(rc)) => {
                    if lc != rc {
                        assert(spec_chars(self.spec_bytes())[done.len() as int] == Ok::<char, u32>(lc));
                        assert(ok_chars(other@)[done.len() as int] == Ok::<char, u32>(rc));
                        return false;
                    }
                    proof {
                        assert(ok_chars(done.push(rc)) =~= ok_chars(done) + seq![Ok::<char, u32>(rc)]);
                        assert(done.push(rc) + right.remaining() =~= other@);
                        done = done.push(rc);
                    }
                },
                (None, None) => {
                    assert(done =~= other@);
                    assert(spec_chars(self.spec_bytes()) =~= ok_chars(other@));
                    return true;
                },
                (Some(Err(code)), Some(rc)) => {
                    assert(spec_chars(self.spec_bytes())[done.len() as int] == Err::<char, u32>(code));
                    assert(ok_chars(other@)[done.len() as int] == Ok::<char, u32>(rc));
                    return false;
                },
                (None, Some(_)) => {
                    assert(spec_chars(self.spec_bytes()).len() == done.len());
                    return false;
                },
                (Some(_), None) => {
                    assert(other@.len() == done.len());
                    return false;
                },
            }
        }
    }

    /// The order of the string and a string slice, by their characters.
    pub fn partial_cmp_str(&self, other: &str) -> (r: Option<Ordering>)
        ensures
            r == Some(compare_chars(spec_chars(self.spec_bytes()), other@)),
    {
        broadcast use vstd::string::group_string_axioms;

        let mut left = self.chars();
        let mut right = other.chars();
        loop
            invariant
                compare_chars(spec_chars(self.spec_bytes()), other@) == compare_chars(
                    spec_chars(left.spec_bytes()),
                    right.remaining(),
                ),
                right.obeys_prophetic_iter_laws(),
                right.decrease() is Some,
            decreases left.spec_bytes().len(),
        {
            proof {
                use_type_invariant(&left);
            }
            let ghost lb = left.spec_bytes();
            let ghost rb = right.remaining();
            proof {
                if lb.len() > 0 {
                    lemma_chars_front(lb);
                    lemma_decode_front(lb);
                }
            }
            let l = left.next();
            let c = right.next();
            match (l, c) {
                (Some(Ok(lc)), Some(rc)) => {
                    let a = char_code(lc);
                    let b = char_code(rc);
                    if a < b {
                        return Some(Ordering::Less);
                    } else if a > b {
                        return Some(Ordering::Greater);
                    }
                    assert(spec_chars(lb).drop_first() =~= spec_chars(left.spec_bytes()));
                    assert(rb.drop_first() =~= right.remaining());
                },
                (None, None) => {
                    return Some(Ordering::Equal);
                },
                (None, Some(_)) => {
                    return Some(Ordering::Less);
                },
                (Some(_), None) => {
                    return Some(Ordering::Greater);
                },
                (Some(Err(code)), Some(rc)) => {
                    let b = char_code(rc);
                    if code < b {
                        return Some(Ordering::Less);
                    } else if code > b {
                        return Some(Ordering::Greater);
                    } else {
                        return Some(Ordering::Equal);
                    }
                },
            }
        }
    }
}

impl<'a> PartialEq for MStr<'a> {
    fn eq(&self, other: &MStr<'a>) -> (r: bool)
    {
        proof {
            use_type_invariant(self);
            use_type_invariant(other);
        }
        let n = self.end - self.start;
        if n != other.end - other.start {
            assert(self.spec_bytes().len() != other.spec_bytes().len());
            return false;
        }
        let mut i: usize = 0;
        while i < n
            invariant
                n == self.end - self.start,
                n == other.end - other.start,
                self.start <= self.end <= self.source@.len(),
                other.start <= other.end <= other.source@.len(),
                i <= n,
                forall|j: int| 0 <= j < i ==> self.spec_bytes()[j] == other.spec_bytes()[j],
            decreases n - i,
        {
            if self.source[self.start + i] != other.source[other.start + i] {
                assert(self.spec_bytes()[i as int] != other.spec_bytes()[i as int]);
                return false;
            }
            i = i + 1;
        }
        assert(self.spec_bytes() =~= other.spec_bytes());
        true
    }
}

impl<'a> vstd::std_specs::cmp::PartialEqSpecImpl for MStr<'a> {
    open spec fn obeys_eq_spec() -> bool {
        true
    }

    open spec fn eq_spec(&self, other: &MStr<'a>) -> bool {
        self.spec_bytes() == other.spec_bytes()
    }
}

impl<'a> Eq for MStr<'a> {
}

impl<'a> Default for MStr<'a> {
    /// The empty string.
    fn default() -> (r: MStr<'a>)
        ensures
            r.spec_bytes() == Seq::<u8>::empty(),
    {
        let empty: &'a [u8] = &[];
        assert(empty@.subrange(0, 0) =~= Seq::<u8>::empty());
        assert(valid_mutf8(Seq::<u8>::empty()));
        MStr { source: empty, start: 0, end: 0 }
    }
}


/// The order of two byte strings: the first byte that differs decides, then the length.
pub open spec fn compare_bytes(a: Seq<u8>, b: Seq<u8>) -> Ordering
    decreases a.len(),
{
    if a.len() == 0 {
        if b.len() == 0 {
            Ordering::Equal
        } else {
            Ordering::Less
        }
    } else if b.len() == 0 {
        Ordering::Greater
    } else if a[0] < b[0] {
        Ordering::Less
    } else if a[0] > b[0] {
        Ordering::Greater
    } else {
        compare_bytes(a.drop_first(), b.drop_first())
    }
}

impl<'a> PartialOrd for MStr<'a> {
    fn partial_cmp(&self, other: &MStr<'a>) -> (r: Option<Ordering>) {
        let a = self.as_bytes();
        let b = other.as_bytes();
        let mut i: usize = 0;
        let ghost mut k: int = 0;
        assert(a@.skip(0) =~= a@);
        assert(b@.skip(0) =~= b@);
        while i < a.len() && i < b.len()
            invariant
                k == i,
                i <= a@.len(),
                i <= b@.len(),
                a@ == self.spec_bytes(),
                b@ == other.spec_bytes(),
                compare_bytes(a@, b@) == compare_bytes(a@.skip(k), b@.skip(k)),
            decreases a@.len() - i,
        {
            assert(a@.skip(k).drop_first() =~= a@.skip(k + 1));
            assert(b@.skip(k).drop_first() =~= b@.skip(k + 1));
            if a[i] < b[i] {
                return Some(Ordering::Less);
            } else if a[i] > b[i] {
                return Some(Ordering::Greater);
            }
            i = i + 1;
            proof {
                k = k + 1;
            }
        }
        if a.len() == b.len() {
            assert(a@.skip(k).len() == 0 && b@.skip(k).len() == 0);
            Some(Ordering::Equal)
        } else if i == a.len() {
            assert(a@.skip(k).len() == 0);
            Some(Ordering::Less)
        } else {
            assert(b@.skip(k).len() == 0);
            Some(Ordering::Greater)
        }
    }
}

impl<'a> vstd::std_specs::cmp::PartialOrdSpecImpl for MStr<'a> {
    open spec fn obeys_partial_cmp_spec() -> bool {
        true
    }

    open spec fn partial_cmp_spec(&self, other: &MStr<'a>) -> Option<Ordering> {
        Some(compare_bytes(self.spec_bytes(), other.spec_bytes()))
    }
}

/// A Modified UTF-8 string, but owned, like [`String`].
#[derive(Debug, PartialEq, Eq, PartialOrd, Ord, Hash)]
pub struct MString {
    pub(crate) buf: Vec<u8>,
}

impl Default for MString {
    fn default() -> (r: MString)
        ensures
            r.spec_bytes() == Seq::<u8>::empty(),
    {
        MString::new()
    }
}

impl Clone for MString {
    fn clone(&self) -> (r: Self)
        ensures
            r.spec_bytes() == self.spec_bytes(),
    {
        proof {
            use_type_invariant(self);
        }
        MString { buf: self.buf.clone() }
    }
}

impl MString {
    #[verifier::type_invariant]
    pub(crate) closed spec fn inv(self) -> bool {
        valid_mutf8(self.buf@)
    }

    /// The bytes of the string.
    pub open(crate) spec fn spec_bytes(self) -> Seq<u8> {
        self.buf@
    }

    /// Creates an empty string.
    pub fn new() -> (r: MString)
        ensures
            r.spec_bytes() == Seq::<u8>::empty(),
    {
        assert(valid_mutf8(Seq::<u8>::empty()));
        MString { buf: Vec::new() }
    }

    /// Creates an empty string with capacity.
    pub fn with_capacity(cap: usize) -> (r: MString)
        ensures
            r.spec_bytes() == Seq::<u8>::empty(),
    {
        assert(valid_mutf8(Seq::<u8>::empty()));
        MString { buf: Vec::with_capacity(cap) }
    }

    /// Creates a new string from a modified UTF-8 byte vector.
    pub fn from_mutf8(buf: Vec<u8>) -> (r: Result<MString, DecodeError>)
        ensures
            valid_mutf8(buf@) ==> r is Ok && r->Ok_0.spec_bytes() == buf@,
            !valid_mutf8(buf@) ==> r == Err::<MString, DecodeError>(
                spec_error(DecodeErrorKind::InvalidMutf8, None, Context::NoContext),
            ),
    {
        if is_mutf8_valid(buf.as_slice()) {
            Ok(MString { buf })
        } else {
            Err(DecodeError::new(DecodeErrorKind::InvalidMutf8))
        }
    }

    /// Pushes a character to the string.
    /// It might cause a reallocation.
    pub fn push(&mut self, ch: char)
        ensures
            final(self).spec_bytes() == old(self).spec_bytes() + spec_encode_char(ch),
    {
        proof {
            use_type_invariant(&*self);
            lemma_encode_char(ch, Seq::empty(), Seq::empty());
            lemma_valid_concat(self.buf@, spec_encode_char(ch));
        }
        let mut buf = Vec::new();
        std::mem::swap(&mut buf, &mut self.buf);
        encode_mutf8_char(ch, &mut buf);
        self.buf = buf;
    }

    /// Appends the given characters.
    pub fn extend(&mut self, chars: &[char])
        ensures
            final(self).spec_bytes() == old(self).spec_bytes() + spec_encode(chars@),
    {
        let ghost start = self.spec_bytes();
        let mut i: usize = 0;
        assert(chars@.take(0) =~= Seq::<char>::empty());
        assert(start + spec_encode(Seq::<char>::empty()) =~= start);
        while i < chars.len()
            invariant
                i <= chars@.len(),
                self.spec_bytes() == start + spec_encode(chars@.take(i as int)),
            decreases chars@.len() - i,
        {
            proof {
                lemma_encode_push(chars@.take(i as int), chars@[i as int]);
                assert(chars@.take(i + 1) =~= chars@.take(i as int).push(chars@[i as int]));
            }
            self.push(chars[i]);
            assert(self.spec_bytes() =~= start + spec_encode(chars@.take(i + 1)));
            i = i + 1;
        }
        assert(chars@.take(i as int) =~= chars@);
    }

    /// Appends the characters of a string slice.
    pub fn extend_str(&mut self, s: &str)
        ensures
            final(self).spec_bytes() == old(self).spec_bytes() + spec_encode(s@),
    {
        broadcast use vstd::string::group_string_axioms;

        let ghost start = self.spec_bytes();
        let mut chars = s.chars();
        let ghost done: Seq<char> = Seq::empty();
        assert(start + spec_encode(Seq::<char>::empty()) =~= start);
        loop
            invariant
                self.spec_bytes() == start + spec_encode(done),
                done + chars.remaining() == s@,
                chars.obeys_prophetic_iter_laws(),
                chars.decrease() is Some,
            ensures
                self.spec_bytes() == start + spec_encode(s@),
            decreases chars.decrease()->0,
        {
            match chars.next() {
                Some(c) => {
                    proof {
                        lemma_encode_push(done, c);
                        assert(done.push(c) + chars.remaining() =~= s@);
                        done = done.push(c);
                    }
                    self.push(c);
                    assert(self.spec_bytes() =~= start + spec_encode(done));
                },
                None => {
                    assert(done =~= s@);
                    break;
                },
            }
        }
    }

    /// The string made of the given characters.
    pub fn from_chars(chars: &[char]) -> (r: MString)
        ensures
            r.spec_bytes() == spec_encode(chars@),
    {
        let mut r = MString::new();
        r.extend(chars);
        assert(Seq::<u8>::empty() + spec_encode(chars@) =~= spec_encode(chars@));
        r
    }

    /// The modified UTF-8 encoding of a string slice.
    pub fn from_str(s: &str) -> (r: MString)
        ensures
            r.spec_bytes() == spec_encode(s@),
    {
        broadcast use vstd::string::group_string_axioms;

        let mut buf = MString::with_capacity(s.len());
        let mut chars = s.chars();
        let ghost done: Seq<char> = Seq::empty();
        assert(spec_encode(Seq::<char>::empty()) =~= Seq::<u8>::empty());
        loop
            invariant
                buf.spec_bytes() == spec_encode(done),
                done + chars.remaining() == s@,
                chars.obeys_prophetic_iter_laws(),
                chars.decrease() is Some,
            ensures
                buf.spec_bytes() == spec_encode(s@),
            decreases chars.decrease()->0,
        {
            match chars.next() {
                Some(c) => {
                    proof {
                        lemma_encode_push(done, c);
                        assert(done.push(c) + chars.remaining() =~= s@);
                        done = done.push(c);
                    }
                    buf.push(c);
                },
                None => {
                    assert(done =~= s@);
                    break;
                },
            }
        }
        buf
    }

    /// The string as a string slice.
    pub fn as_mstr(&self) -> (r: MStr<'_>)
        ensures
            r.spec_bytes() == self.spec_bytes(),
    {
        proof {
            use_type_invariant(self);
            assert(self.buf@.subrange(0, self.buf@.len() as int) =~= self.buf@);
        }
        MStr { source: self.buf.as_slice(), start: 0, end: self.buf.len() }
    }

    /// The bytes of the string.
    pub fn as_bytes(&self) -> (r: &[u8])
        ensures
            r@ == self.spec_bytes(),
    {
        self.buf.as_slice()
    }
}

/// Gives a string with invalid characters displayed as U+FFFD.
#[derive(Debug)]
pub struct Display<'a> {
    pub(crate) inner: MStr<'a>,
}

impl<'a> Display<'a> {
    pub open(crate) spec fn spec_bytes(self) -> Seq<u8> {
        self.inner.spec_bytes()
    }

    /// The string, with unpaired surrogates replaced by U+FFFD.
    pub fn to_string(&self) -> (r: String)
        ensures
            r@ == spec_chars_lossy(self.spec_bytes()),
    {
        let mut out = String::new();
        let mut chars = self.inner.chars_lossy();
        loop
            invariant
                spec_chars_lossy(self.spec_bytes()) == out@ + spec_chars_lossy(chars.spec_bytes()),
            ensures
                out@ == spec_chars_lossy(self.spec_bytes()),
            decreases chars.spec_bytes().len(),
        {
            let ghost before = chars.spec_bytes();
            match chars.next() {
                Some(c) => {
                    proof {
                        lemma_chars_lossy_front(before);
                        assert(out@.push(c) + spec_chars_lossy(chars.spec_bytes()) =~= out@ + spec_chars_lossy(before));
                    }
                    string_push(&mut out, c);
                },
                None => {
                    assert(out@ + spec_chars_lossy(chars.spec_bytes()) =~= out@);
                    break;
                },
            }
        }
        out
    }
}

/// Unfolding the lossy characters once at the front.
proof fn lemma_chars_lossy_front(s: Seq<u8>)
    requires
        valid_mutf8(s),
        s.len() > 0,
    ensures
        spec_chars_lossy(s) == seq![lossy(spec_decode_char(s).1)] + spec_chars_lossy(s.skip(spec_decode_char(s).0)),
{
    lemma_decode_front(s);
    let (w, r) = spec_decode_char(s);
    assert(spec_chars(s) == seq![r] + spec_chars(s.skip(w)));
    assert(spec_chars_lossy(s) =~= seq![lossy(r)] + spec_chars_lossy(s.skip(w)));
}

/// Unfolding the characters once at the front.
proof fn lemma_chars_front(s: Seq<u8>)
    requires
        valid_mutf8(s),
        s.len() > 0,
    ensures
        spec_chars(s) == seq![spec_decode_char(s).1] + spec_chars(s.skip(spec_decode_char(s).0)),
{
    lemma_decode_front(s);
}

/// Whether `s` ends with a high surrogate `ED A0..AF xx`.
pub open spec fn ends_with_high_surrogate(s: Seq<u8>) -> bool {
    s.len() >= 3 && s[s.len() - 3] == 0xED && 0xA0 <= s[s.len() - 2] < 0xB0
}

/// Whether `s` starts with a low surrogate `ED B0..BF`.
pub open spec fn starts_with_low_surrogate(s: Seq<u8>) -> bool {
    s.len() >= 2 && s[0] == 0xED && 0xB0 <= s[1] < 0xC0
}

/// The characters of a valid string in the order in which taking them from the back gives them.
pub open spec fn spec_chars_back(s: Seq<u8>) -> Seq<Result<char, u32>>
    decreases s.len(),
{
    if s.len() == 0 || !valid_mutf8(s) {
        Seq::empty()
    } else {
        let (w, r) = spec_decode_char_back(s);
        if 0 < w <= s.len() {
            seq![r] + spec_chars_back(s.take(s.len() - w))
        } else {
            Seq::empty()
        }
    }
}

/// The lossy characters of a valid string in the order in which taking them from the back
/// gives them.
pub open spec fn spec_chars_lossy_back(s: Seq<u8>) -> Seq<char> {
    spec_chars_back(s).map_values(|r: Result<char, u32>| lossy(r))
}

/// Two valid strings joined have the characters of the first followed by those of the second,
/// unless the first ends with a high surrogate and the second starts with a low one, which
/// then pair up.
pub proof fn lemma_chars_concat(a: Seq<u8>, b: Seq<u8>)
    requires
        valid_mutf8(a),
        valid_mutf8(b),
        !(ends_with_high_surrogate(a) && starts_with_low_surrogate(b)),
    ensures
        valid_mutf8(a + b),
        spec_chars(a + b) == spec_chars(a) + spec_chars(b),
    decreases a.len(),
{
    lemma_valid_concat(a, b);
    let s = a + b;
    if a.len() == 0 {
        assert(s =~= b);
        assert(spec_chars(a) + spec_chars(b) =~= spec_chars(b));
    } else {
        lemma_decode_front(a);
        lemma_unit_shape(a);
        let (w, r) = spec_decode_char(a);
        assert(forall|i: int| 0 <= i < a.len() ==> s[i] == a[i]);
        if 3 < a.len() < 6 && first_unit_len(a) == 3 {
            let rest = a.skip(3);
            assert(rest[0] == a[3]);
            assert(0 < first_unit_len(rest) <= rest.len());
        }
        if a.len() == 3 && b.len() >= 2 {
            assert(s[3] == b[0] && s[4] == b[1]);
        }
        assert(spec_decode_char(s) == (w, r));
        let rest = a.skip(w);
        assert(s.skip(w) =~= rest + b);
        if ends_with_high_surrogate(rest) {
            assert(rest[rest.len() - 3] == a[a.len() - 3]);
            assert(rest[rest.len() - 2] == a[a.len() - 2]);
        }
        lemma_chars_concat(rest, b);
        lemma_decode_front(s);
        lemma_chars_front(a);
        lemma_chars_front(s);
        assert(spec_chars(s) =~= spec_chars(a) + spec_chars(b));
    }
}

/// The character at the back of a valid string is the last of its characters, and the ones
/// before it are the characters of the rest of the string.
pub proof fn lemma_chars_split_back(s: Seq<u8>)
    requires
        valid_mutf8(s),
        s.len() > 0,
    ensures
        ({
            let (w, r) = spec_decode_char_back(s);
            &&& spec_chars(s) == spec_chars(s.take(s.len() - w)).push(r)
            &&& spec_chars(s).last() == r
        }),
{
    lemma_decode_back(s);
    let (w, r) = spec_decode_char_back(s);
    let k = s.len() - w;
    let p = s.take(k);
    let q = s.skip(k);
    assert(p + q =~= s);
    lemma_decode_front(q);
    lemma_chars_front(q);
    assert(q.skip(w) =~= Seq::<u8>::empty());
    assert(spec_chars(q) =~= seq![r]);
    if ends_with_high_surrogate(p) && starts_with_low_surrogate(q) {
        assert(q[0] == s[k] && q[1] == s[k + 1]);
        assert(p[p.len() - 3] == s[k - 3] && p[p.len() - 2] == s[k - 2]);
        assert(w == 3);
        assert(false);
    }
    lemma_chars_concat(p, q);
    assert(spec_chars(p) + seq![r] =~= spec_chars(p).push(r));
}

/// Taking the characters of a valid string from the back gives them in reverse order: iterating
/// a string backwards yields exactly the reverse of iterating it forwards, both as characters
/// and lossily.
pub proof fn lemma_chars_back_reverse(s: Seq<u8>)
    requires
        valid_mutf8(s),
    ensures
        spec_chars_back(s) == spec_chars(s).reverse(),
        spec_chars_lossy_back(s) == spec_chars_lossy(s).reverse(),
    decreases s.len(),
{
    if s.len() == 0 {
        assert(spec_chars(s) =~= Seq::<Result<char, u32>>::empty());
        assert(spec_chars_back(s) =~= spec_chars(s).reverse());
    } else {
        lemma_decode_back(s);
        lemma_chars_split_back(s);
        let (w, r) = spec_decode_char_back(s);
        let p = s.take(s.len() - w);
        lemma_chars_back_reverse(p);
        assert(spec_chars_back(s) == seq![r] + spec_chars_back(p));
        assert(spec_chars(p).push(r).reverse() =~= seq![r] + spec_chars(p).reverse());
    }
    assert(spec_chars_lossy_back(s) =~= spec_chars_lossy(s).reverse());
}

/// An iterator over the characters of a string; unpaired surrogates give their code.
#[derive(Debug)]
pub struct Chars<'a> {
    pub(crate) source: &'a [u8],
    pub(crate) start: usize,
    pub(crate) end: usize,
}

impl<'a> Chars<'a> {
    #[verifier::type_invariant]
    pub(crate) closed spec fn inv(self) -> bool {
        &&& self.start <= self.end <= self.source@.len()
        &&& valid_mutf8(self.source@.subrange(self.start as int, self.end as int))
    }

    /// The bytes that are left.
    pub open(crate) spec fn spec_bytes(self) -> Seq<u8> {
        self.source@.subrange(self.start as int, self.end as int)
    }

    /// The rest of the string.
    pub fn as_mstr(&self) -> (r: MStr<'a>)
        ensures
            r.spec_bytes() == self.spec_bytes(),
    {
        proof {
            use_type_invariant(self);
        }
        MStr { source: self.source, start: self.start, end: self.end }
    }

    /// The next character from the front.
    pub fn next(&mut self) -> (r: Option<Result<char, u32>>)
        ensures
            old(self).spec_bytes().len() == 0 ==> r is None && final(self).spec_bytes() == old(self).spec_bytes(),
            old(self).spec_bytes().len() > 0 ==> {
                let (w, c) = spec_decode_char(old(self).spec_bytes());
                &&& r == Some(c)
                &&& final(self).spec_bytes() == old(self).spec_bytes().skip(w)
            },
    {
        proof {
            use_type_invariant(&*self);
        }
        if self.start == self.end {
            None
        } else {
            let (size, ch) = decode_mutf8_char(self.source, self.start, self.end);
            proof {
                lemma_decode_front(self.spec_bytes());
                assert(self.source@.subrange(self.start + size, self.end as int) =~= self.spec_bytes().skip(size as int));
            }
            self.start = self.start + size;
            Some(ch)
        }
    }

    /// The next character from the back.
    pub fn next_back(&mut self) -> (r: Option<Result<char, u32>>)
        ensures
            old(self).spec_bytes().len() == 0 ==> r is None && final(self).spec_bytes() == old(self).spec_bytes(),
            old(self).spec_bytes().len() > 0 ==> {
                let (w, c) = spec_decode_char_back(old(self).spec_bytes());
                &&& r == Some(c)
                &&& final(self).spec_bytes() == old(self).spec_bytes().take(old(self).spec_bytes().len() - w)
            },
    {
        proof {
            use_type_invariant(&*self);
        }
        if self.start == self.end {
            None
        } else {
            let (size, ch) = decode_mutf8_char_reversed(self.source, self.start, self.end);
            proof {
                lemma_decode_back(self.spec_bytes());
                assert(self.source@.subrange(self.start as int, self.end - size) =~= self.spec_bytes().take(
                    self.spec_bytes().len() - size,
                ));
            }
            self.end = self.end - size;
            Some(ch)
        }
    }
}

/// An iterator over the characters of a string; unpaired surrogates give U+FFFD.
#[derive(Debug)]
pub struct CharsLossy<'a> {
    pub(crate) source: &'a [u8],
    pub(crate) start: usize,
    pub(crate) end: usize,
}

impl<'a> CharsLossy<'a> {
    #[verifier::type_invariant]
    pub(crate) closed spec fn inv(self) -> bool {
        &&& self.start <= self.end <= self.source@.len()
        &&& valid_mutf8(self.source@.subrange(self.start as int, self.end as int))
    }

    /// The bytes that are left.
    pub open(crate) spec fn spec_bytes(self) -> Seq<u8> {
        self.source@.subrange(self.start as int, self.end as int)
    }

    /// The rest of the string.
    pub fn as_mstr(&self) -> (r: MStr<'a>)
        ensures
            r.spec_bytes() == self.spec_bytes(),
    {
        proof {
            use_type_invariant(self);
        }
        MStr { source: self.source, start: self.start, end: self.end }
    }

    /// The next character from the front.
    pub fn next(&mut self) -> (r: Option<char>)
        ensures
            valid_mutf8(old(self).spec_bytes()),
            old(self).spec_bytes().len() == 0 ==> r is None && final(self).spec_bytes() == old(self).spec_bytes(),
            old(self).spec_bytes().len() > 0 ==> {
                let (w, c) = spec_decode_char(old(self).spec_bytes());
                &&& r == Some(lossy(c))
                &&& final(self).spec_bytes() == old(self).spec_bytes().skip(w)
            },
    {
        proof {
            use_type_invariant(&*self);
        }
        if self.start == self.end {
            None
        } else {
            let (size, ch) = decode_mutf8_char(self.source, self.start, self.end);
            proof {
                lemma_decode_front(self.spec_bytes());
                assert(self.source@.subrange(self.start + size, self.end as int) =~= self.spec_bytes().skip(size as int));
            }
            self.start = self.start + size;
            match ch {
                Ok(c) => Some(c),
                Err(_) => Some('\u{FFFD}'),
            }
        }
    }

    /// The next character from the back.
    pub fn next_back(&mut self) -> (r: Option<char>)
        ensures
            old(self).spec_bytes().len() == 0 ==> r is None && final(self).spec_bytes() == old(self).spec_bytes(),
            old(self).spec_bytes().len() > 0 ==> {
                let (w, c) = spec_decode_char_back(old(self).spec_bytes());
                &&& r == Some(lossy(c))
                &&& final(self).spec_bytes() == old(self).spec_bytes().take(old(self).spec_bytes().len() - w)
            },
    {
        proof {
            use_type_invariant(&*self);
        }
        if self.start == self.end {
            None
        } else {
            let (size, ch) = decode_mutf8_char_reversed(self.source, self.start, self.end);
            proof {
                lemma_decode_back(self.spec_bytes());
                assert(self.source@.subrange(self.start as int, self.end - size) =~= self.spec_bytes().take(
                    self.spec_bytes().len() - size,
                ));
            }
            self.end = self.end - size;
            match ch {
                Ok(c) => Some(c),
                Err(_) => Some('\u{FFFD}'),
            }
        }
    }
}

impl<'a> MStr<'a> {
    /// An owned copy of the string.
    pub fn to_owned(&self) -> (r: MString)
        ensures
            r.spec_bytes() == self.spec_bytes(),
    {
        proof {
            use_type_invariant(self);
        }
        let bytes = self.as_bytes();
        let mut buf: Vec<u8> = Vec::with_capacity(bytes.len());
        let mut i: usize = 0;
        while i < bytes.len()
            invariant
                i <= bytes@.len(),
                buf@ == bytes@.take(i as int),
            decreases bytes@.len() - i,
        {
            buf.push(bytes[i]);
            i = i + 1;
            assert(buf@ =~= bytes@.take(i as int));
        }
        assert(bytes@.take(bytes@.len() as int) =~= bytes@);
        MString { buf }
    }
}

impl<'b> From<&'b str> for MString {
    /// The modified UTF-8 encoding of a string slice.
    fn from(s: &'b str) -> (r: MString)
        ensures
            r.spec_bytes() == spec_encode(s@),
    {
        MString::from_str(s)
    }
}

/// `from_spec` would have to name one value that every result of `from` equals, but a
/// string's buffer is known only by its bytes, not as a whole value; so `from` states its
/// result by its bytes, in its own `ensures`, and `obeys_from_spec` is `false`.
impl<'b> vstd::std_specs::convert::FromSpecImpl<&'b str> for MString {
    open spec fn obeys_from_spec() -> bool {
        false
    }

    open spec fn from_spec(v: &'b str) -> MString {
        arbitrary()
    }
}

/// Dispatch conversion to a byte slice.
/// Used to tell string literals from byte string literals.
#[allow(non_camel_case_types, missing_debug_implementations)]
pub struct __private_MUtf8Literal<T>(pub T);

impl __private_MUtf8Literal<&'static str> {
    pub fn is_str(self) -> (r: bool)
        ensures
            r,
    {
        true
    }

    pub fn as_slice(self) -> (r: &'static [u8])
        ensures
            r@ == self.0.spec_bytes(),
    {
        self.0.as_bytes()
    }
}

impl<const N: usize> __private_MUtf8Literal<&'static [u8; N]> {
    pub fn is_str(self) -> (r: bool)
        ensures
            !r,
    {
        false
    }

    pub fn as_slice(self) -> (r: &'static [u8])
        ensures
            r@ == self.0@,
    {
        self.0.as_slice()
    }
}

/// Checks whether `v` is valid modified UTF-8, like the check that a string literal is put through.
pub fn __private_is_mutf8_valid(v: &[u8]) -> (r: bool)
    ensures
        r == valid_mutf8(v@),
{
    is_mutf8_valid(v)
}

proof fn lemma_codepoint_two(b1: u8, b2: u8)
    by (bit_vector)
    requires
        0xc0 <= b1 <= 0xdf,
        0x80 <= b2 <= 0xbf,
    ensures
        vstd::utf8::codepoint_width_2(b1, b2) == (b1 as u32 - 0xc0) * 64 + (b2 as u32 - 0x80),
{
}

proof fn lemma_codepoint_three(b1: u8, b2: u8, b3: u8)
    by (bit_vector)
    requires
        0xe0 <= b1 <= 0xef,
        0x80 <= b2 <= 0xbf,
        0x80 <= b3 <= 0xbf,
    ensures
        vstd::utf8::codepoint_width_3(b1, b2, b3) == (b1 as u32 - 0xe0) * 4096 + (b2 as u32 - 0x80) * 64 + (
        b3 as u32 - 0x80),
{
}

proof fn lemma_codepoint_four(b1: u8, b2: u8, b3: u8, b4: u8)
    by (bit_vector)
    requires
        0xf0 <= b1 <= 0xf7,
        0x80 <= b2 <= 0xbf,
        0x80 <= b3 <= 0xbf,
        0x80 <= b4 <= 0xbf,
    ensures
        vstd::utf8::codepoint_width_4(b1, b2, b3, b4) == (b1 as u32 - 0xf0) * 0x40000 + (b2 as u32 - 0x80)
            * 4096 + (b3 as u32 - 0x80) * 64 + (b4 as u32 - 0x80),
{
}

proof fn lemma_codepoint_one(b1: u8)
    by (bit_vector)
    requires
        b1 <= 0x7f,
    ensures
        vstd::utf8::codepoint_width_1(b1) == b1 as u32,
{
}

/// Encoding characters one after another.
proof fn lemma_encode_cons(c: char, cs: Seq<char>)
    ensures
        spec_encode(seq![c] + cs) == spec_encode_char(c) + spec_encode(cs),
{
    assert((seq![c] + cs).drop_first() =~= cs);
    assert((seq![c] + cs)[0] == c);
}

/// Reads the UTF-8 scalar at `v[i..]` and returns its value and size.
fn read_utf8_scalar(v: &[u8], i: usize) -> (r: (u32, usize))
    requires
        i < v@.len(),
        vstd::utf8::valid_utf8(v@.skip(i as int)),
    ensures
        ({
            let rest = v@.skip(i as int);
            &&& r.0 == vstd::utf8::decode_first_scalar(rest)
            &&& r.1 == vstd::utf8::length_of_first_scalar(rest)
            &&& vstd::utf8::is_scalar(r.0)
            &&& vstd::utf8::valid_utf8(rest.skip(r.1 as int))
            &&& vstd::utf8::decode_utf8(rest) == seq![r.0 as char] + vstd::utf8::decode_utf8(rest.skip(r.1 as int))
            &&& i + r.1 <= v@.len()
            &&& (r.1 == 1 ==> r.0 <= 0x7F)
            &&& (r.1 == 2 ==> 0x80 <= r.0 <= 0x7FF)
            &&& (r.1 == 3 ==> 0x800 <= r.0 <= 0xFFFF)
            &&& (r.1 == 4 ==> 0x10000 <= r.0)
            &&& 1 <= r.1 <= 4
        }),
{
    let ghost rest = v@.skip(i as int);
    assert(rest[0] == v@[i as int]);
    let b0 = v[i];
    if b0 < 0x80 {
        proof {
            lemma_codepoint_one(b0);
        }
        (b0 as u32, 1)
    } else if b0 < 0xE0 {
        let b1 = v[i + 1];
        assert(rest[1] == b1);
        proof {
            lemma_codepoint_two(b0, b1);
        }
        ((b0 as u32 - 0xC0) * 64 + (b1 as u32 - 0x80), 2)
    } else if b0 < 0xF0 {
        let b1 = v[i + 1];
        let b2 = v[i + 2];
        assert(rest[1] == b1 && rest[2] == b2);
        proof {
            lemma_codepoint_three(b0, b1, b2);
        }
        ((b0 as u32 - 0xE0) * 4096 + (b1 as u32 - 0x80) * 64 + (b2 as u32 - 0x80), 3)
    } else {
        let b1 = v[i + 1];
        let b2 = v[i + 2];
        let b3 = v[i + 3];
        assert(rest[1] == b1 && rest[2] == b2 && rest[3] == b3);
        proof {
            lemma_codepoint_four(b0, b1, b2, b3);
        }
        ((b0 as u32 - 0xF0) * 0x40000 + (b1 as u32 - 0x80) * 4096 + (b2 as u32 - 0x80) * 64 + (b3 as u32
            - 0x80), 4)
    }
}

/// The size of the modified UTF-8 encoding of a scalar value.
proof fn lemma_scalar_encode_len(code: u32)
    requires
        vstd::utf8::is_scalar(code),
    ensures
        spec_encode_char(code as char).len() == if code == 0 {
            2nat
        } else if code <= 0x7F {
            1nat
        } else if code <= 0x7FF {
            2nat
        } else if code <= 0xFFFF {
            3nat
        } else {
            6nat
        },
{
    let c = code as char;
    vstd::utf8::char_is_scalar(c);
    assert(c as u32 == code);
}

/// Computes the amount of bytes that a modified UTF-8 string would take up.
/// The input has to be valid UTF-8.
pub fn __private_utf8_to_mutf8_length(v: &[u8]) -> (r: usize)
    requires
        vstd::utf8::valid_utf8(v@),
        v@.len() <= usize::MAX / 2,
    ensures
        r == spec_encode(vstd::utf8::decode_utf8(v@)).len(),
        r == spec_encoded_len(vstd::utf8::decode_utf8(v@)),
{
    proof {
        lemma_encoded_len(vstd::utf8::decode_utf8(v@));
    }
    // The position within the UTF-8 string.
    let mut i: usize = 0;
    // The length of the UTF-8 string converted to modified UTF-8.
    let mut len: usize = 0;
    assert(v@.skip(0) =~= v@);
    while i < v.len()
        invariant
            i <= v@.len(),
            v@.len() <= usize::MAX / 2,
            len <= 2 * i,
            vstd::utf8::valid_utf8(v@.skip(i as int)),
            spec_encode(vstd::utf8::decode_utf8(v@)).len() == len + spec_encode(
                vstd::utf8::decode_utf8(v@.skip(i as int)),
            ).len(),
        decreases v@.len() - i,
    {
        let ghost rest = v@.skip(i as int);
        let (code, size) = read_utf8_scalar(v, i);
        proof {
            lemma_encode_cons(code as char, vstd::utf8::decode_utf8(rest.skip(size as int)));
            assert(rest.skip(size as int) =~= v@.skip(i + size));
            lemma_scalar_encode_len(code);
        }
        let n: usize = if size == 1 {
            if code == 0 {
                2
            } else {
                1
            }
        } else if size == 4 {
            6
        } else {
            size
        };
        len = len + n;
        i = i + size;
    }
    assert(v@.skip(i as int) =~= Seq::<u8>::empty());
    len
}

/// Converts UTF-8 to modified UTF-8: `U+0000` becomes two bytes and characters
/// outside the basic multilingual plane become surrogate pairs.
/// The input has to be valid UTF-8.
pub fn __private_utf8_to_mutf8(v: &[u8]) -> (r: Vec<u8>)
    requires
        vstd::utf8::valid_utf8(v@),
    ensures
        r@ == spec_encode(vstd::utf8::decode_utf8(v@)),
{
    let mut out: Vec<u8> = Vec::new();
    // The position within the UTF-8 string.
    let mut i: usize = 0;
    assert(v@.skip(0) =~= v@);
    while i < v.len()
        invariant
            i <= v@.len(),
            vstd::utf8::valid_utf8(v@.skip(i as int)),
            spec_encode(vstd::utf8::decode_utf8(v@)) == out@ + spec_encode(
                vstd::utf8::decode_utf8(v@.skip(i as int)),
            ),
        decreases v@.len() - i,
    {
        let ghost rest = v@.skip(i as int);
        let ghost before = out@;
        let (code, size) = read_utf8_scalar(v, i);
        let c = scalar_to_char(code);
        proof {
            lemma_encode_cons(c, vstd::utf8::decode_utf8(rest.skip(size as int)));
            assert(rest.skip(size as int) =~= v@.skip(i + size));
        }
        encode_mutf8_char(c, &mut out);
        assert(out@ + spec_encode(vstd::utf8::decode_utf8(v@.skip(i + size))) =~= before + spec_encode(
            vstd::utf8::decode_utf8(rest),
        ));
        i = i + size;
    }
    assert(v@.skip(i as int) =~= Seq::<u8>::empty());
    assert(out@ + Seq::<u8>::empty() =~= out@);
    out
}

} // verus!
