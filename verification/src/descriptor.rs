//! Field and method descriptors.

use crate::error::{spec_error, Context, DecodeError, DecodeErrorKind};
use crate::mutf8::{is_continuation, spec_chars, spec_chars_lossy, valid_mutf8, MStr};
use crate::text::push_str;
use vstd::prelude::*;

verus! {

/// A field type descriptor not wrapped within an array.
#[derive(Debug, Clone, Copy, PartialEq)]
pub enum BaseType<'a> {
    Boolean,
    Byte,
    Short,
    Integer,
    Long,
    Float,
    Double,
    Char,
    Object(MStr<'a>),
}

/// What a [`BaseType`] stands for, with the name of an object type as its bytes.
pub enum SpecBase {
    Boolean,
    Byte,
    Short,
    Integer,
    Long,
    Float,
    Double,
    Char,
    Object(Seq<u8>),
}

impl<'a> BaseType<'a> {
    pub open spec fn view(self) -> SpecBase {
        match self {
            BaseType::Boolean => SpecBase::Boolean,
            BaseType::Byte => SpecBase::Byte,
            BaseType::Short => SpecBase::Short,
            BaseType::Integer => SpecBase::Integer,
            BaseType::Long => SpecBase::Long,
            BaseType::Float => SpecBase::Float,
            BaseType::Double => SpecBase::Double,
            BaseType::Char => SpecBase::Char,
            BaseType::Object(name) => SpecBase::Object(name.spec_bytes()),
        }
    }
}

/// A field descriptor represents the type of a class, instance or local variable.
/// It is a [`BaseType`] that may be wrapped in a n-dimensional array.
#[derive(Debug, Clone, Copy, PartialEq)]
pub struct TypeDescriptor<'a> {
    pub dimensions: u8,
    pub base: BaseType<'a>,
}

impl<'a> TypeDescriptor<'a> {
    pub open spec fn view(self) -> (u8, SpecBase) {
        (self.dimensions, self.base.view())
    }
}

/// The base type that a single-character tag stands for.
pub open spec fn tag_base(t: u8) -> Option<SpecBase> {
    if t == 0x5A {
        Some(SpecBase::Boolean)  // Z
    } else if t == 0x42 {
        Some(SpecBase::Byte)  // B
    } else if t == 0x53 {
        Some(SpecBase::Short)  // S
    } else if t == 0x49 {
        Some(SpecBase::Integer)  // I
    } else if t == 0x4A {
        Some(SpecBase::Long)  // J
    } else if t == 0x46 {
        Some(SpecBase::Float)  // F
    } else if t == 0x44 {
        Some(SpecBase::Double)  // D
    } else if t == 0x43 {
        Some(SpecBase::Char)  // C
    } else {
        None
    }
}

/// The number of `[` at the front of `s[i..]`.
pub open spec fn leading_brackets(s: Seq<u8>, i: int) -> nat
    decreases s.len() - i,
{
    if 0 <= i < s.len() && s[i] == 0x5B {
        1 + leading_brackets(s, i + 1)
    } else {
        0
    }
}

/// The position of the first `;` in `s[i..]`, if there is one.
pub open spec fn first_semicolon(s: Seq<u8>, i: int) -> Option<int>
    decreases s.len() - i,
{
    if 0 <= i < s.len() {
        if s[i] == 0x3B {
            Some(i)
        } else {
            first_semicolon(s, i + 1)
        }
    } else {
        None
    }
}

/// The field descriptor that `s` spells out, as its number of dimensions and base type.
///
/// At most 255 dimensions are allowed; an object type is `L`, a non-empty name and `;`,
/// with nothing after it.
pub open spec fn spec_type_descriptor(s: Seq<u8>) -> Option<(u8, SpecBase)> {
    let d = leading_brackets(s, 0) as int;
    if d > 255 || d >= s.len() {
        None
    } else if tag_base(s[d]) is Some {
        if d + 1 == s.len() {
            Some((d as u8, tag_base(s[d])->0))
        } else {
            None
        }
    } else if s[d] == 0x4C {
        if first_semicolon(s, d + 1) == Some(s.len() - 1) && d + 1 < s.len() - 1 {
            Some((d as u8, SpecBase::Object(s.subrange(d + 1, s.len() - 1))))
        } else {
            None
        }
    } else {
        None
    }
}

proof fn lemma_leading_brackets(s: Seq<u8>, i: int)
    requires
        0 <= i <= s.len(),
    ensures
        i + leading_brackets(s, i) <= s.len(),
        forall|j: int| i <= j < i + leading_brackets(s, i) ==> s[j] == 0x5B,
        i + leading_brackets(s, i) < s.len() ==> s[i + leading_brackets(s, i)] != 0x5B,
    decreases s.len() - i,
{
    if i < s.len() && s[i] == 0x5B {
        lemma_leading_brackets(s, i + 1);
    }
}

proof fn lemma_first_semicolon(s: Seq<u8>, i: int)
    requires
        0 <= i <= s.len(),
    ensures
        first_semicolon(s, i) matches Some(j) ==> i <= j < s.len() && s[j] == 0x3B && forall|k: int|
            i <= k < j ==> s[k] != 0x3B,
        first_semicolon(s, i) is None ==> forall|k: int| i <= k < s.len() ==> s[k] != 0x3B,
    decreases s.len() - i,
{
    if i < s.len() {
        lemma_first_semicolon(s, i + 1);
    }
}

/// In a valid string, the byte after an ASCII character starts a character (or is the end).
proof fn lemma_ascii_boundary(s: Seq<u8>, k: int)
    requires
        valid_mutf8(s),
        0 <= k < s.len(),
        s[k] < 0x80,
    ensures
        k + 1 == s.len() || !is_continuation(s[k + 1]),
{
    crate::mutf8::lemma_valid_split(s, k);
    let t = s.skip(k);
    assert(t[0] == s[k]);
    assert(crate::mutf8::first_unit_len(t) == 1);
    let u = t.skip(1);
    assert(valid_mutf8(u));
    if k + 1 < s.len() {
        assert(u[0] == s[k + 1]);
        assert(crate::mutf8::first_unit_len(u) > 0);
    }
}

/// `k` array brackets `[`.
pub open spec fn array_prefix(k: nat) -> Seq<u8> {
    Seq::new(k, |i: int| 0x5Bu8)
}

/// Counting the brackets at the front of `s[i..]` when they run up to `s[k]`.
proof fn lemma_count_brackets(s: Seq<u8>, i: int, k: int)
    requires
        0 <= i <= k < s.len(),
        forall|j: int| i <= j < k ==> s[j] == 0x5B,
        s[k] != 0x5B,
    ensures
        leading_brackets(s, i) == k - i,
    decreases k - i,
{
    if i < k {
        lemma_count_brackets(s, i + 1, k);
    }
}

/// The field descriptors of JVMS §4.3.2 (Table 4.3-A): up to 255 brackets followed by one of the
/// base type letters `B` byte, `C` char, `D` double, `F` float, `I` int, `J` long, `S` short and
/// `Z` boolean parse as that base type with as many dimensions; `L`, a name without `;`, and `;`
/// parse as that object type; any other letter after the brackets, or more than 255 brackets,
/// is refused.
pub proof fn lemma_field_descriptor_grammar(k: nat, name: Seq<u8>, c: u8, rest: Seq<u8>)
    requires
        k <= 255,
    ensures
        spec_type_descriptor(array_prefix(k).push(0x42)) == Some((k as u8, SpecBase::Byte)),
        spec_type_descriptor(array_prefix(k).push(0x43)) == Some((k as u8, SpecBase::Char)),
        spec_type_descriptor(array_prefix(k).push(0x44)) == Some((k as u8, SpecBase::Double)),
        spec_type_descriptor(array_prefix(k).push(0x46)) == Some((k as u8, SpecBase::Float)),
        spec_type_descriptor(array_prefix(k).push(0x49)) == Some((k as u8, SpecBase::Integer)),
        spec_type_descriptor(array_prefix(k).push(0x4A)) == Some((k as u8, SpecBase::Long)),
        spec_type_descriptor(array_prefix(k).push(0x53)) == Some((k as u8, SpecBase::Short)),
        spec_type_descriptor(array_prefix(k).push(0x5A)) == Some((k as u8, SpecBase::Boolean)),
        name.len() > 0 && (forall|j: int| 0 <= j < name.len() ==> name[j] != 0x3B) ==> spec_type_descriptor(
            array_prefix(k).push(0x4C) + name.push(0x3B),
        ) == Some((k as u8, SpecBase::Object(name))),
        !(c == 0x42 || c == 0x43 || c == 0x44 || c == 0x46 || c == 0x49 || c == 0x4A || c == 0x4C || c == 0x53
            || c == 0x5A || c == 0x5B) ==> spec_type_descriptor(array_prefix(k).push(c) + rest) is None,
        spec_type_descriptor(array_prefix(256) + rest) is None,
{
    let ki = k as int;
    lemma_count_brackets(array_prefix(k).push(0x42), 0, ki);
    lemma_count_brackets(array_prefix(k).push(0x43), 0, ki);
    lemma_count_brackets(array_prefix(k).push(0x44), 0, ki);
    lemma_count_brackets(array_prefix(k).push(0x46), 0, ki);
    lemma_count_brackets(array_prefix(k).push(0x49), 0, ki);
    lemma_count_brackets(array_prefix(k).push(0x4A), 0, ki);
    lemma_count_brackets(array_prefix(k).push(0x53), 0, ki);
    lemma_count_brackets(array_prefix(k).push(0x5A), 0, ki);
    let o = array_prefix(k).push(0x4C) + name.push(0x3B);
    if name.len() > 0 && (forall|j: int| 0 <= j < name.len() ==> name[j] != 0x3B) {
        lemma_count_brackets(o, 0, ki);
        assert forall|m: int| ki + 1 <= m < o.len() - 1 implies o[m] != 0x3B by {
            assert(o[m] == name[m - k - 1]);
        }
        lemma_semicolon_at(o, ki + 1, o.len() - 1);
        assert(o.subrange(ki + 1, o.len() - 1) =~= name);
    }
    let u = array_prefix(k).push(c) + rest;
    if c != 0x5B {
        lemma_count_brackets(u, 0, ki);
    }
    let w = array_prefix(256) + rest;
    lemma_leading_brackets(w, 0);
    assert forall|j: int| 0 <= j < 256 implies w[j] == 0x5B by {}
    if leading_brackets(w, 0) < 256 {
        lemma_leading_brackets(w, 0);
        let d = leading_brackets(w, 0) as int;
        assert(w[d] == 0x5B);
    }
}

/// A method descriptor with one parameter of a field type of JVMS §4.3.2, `(` the type `)V`, is
/// valid, returns `void`, and has exactly that parameter.
pub proof fn lemma_one_parameter_method(k: nat, c: u8)
    requires
        k <= 255,
        c == 0x42 || c == 0x43 || c == 0x44 || c == 0x46 || c == 0x49 || c == 0x4A || c == 0x53 || c == 0x5A,
    ensures
        ({
            let p = array_prefix(k).push(c);
            let s = seq![0x28u8] + p + seq![0x29u8, 0x56u8];
            &&& spec_method_descriptor(s) == Some(k as int + 3)
            &&& spec_parameters(s, 1) == seq![spec_type_descriptor(p)->0]
            &&& spec_type_descriptor(p) is Some
        }),
{
    let ki = k as int;
    let p = array_prefix(k).push(c);
    let s = seq![0x28u8] + p + seq![0x29u8, 0x56u8];
    lemma_field_descriptor_grammar(k, Seq::empty(), c, Seq::empty());
    lemma_count_brackets(s, 1, ki + 1);
    lemma_count_brackets(p, 0, ki);
    assert(s[ki + 1] == c);
    assert(field_type_end(s, 1, false) == Some(ki + 2));
    assert(s[ki + 2] == 0x29);
    assert(params_end(s, ki + 2) == Some(ki + 2));
    assert(params_end(s, 1) == Some(ki + 2));
    assert(s[ki + 3] == 0x56);
    assert(field_type_end(s, ki + 3, true) == Some(ki + 4));
    assert(s.subrange(1, ki + 2) =~= p);
    assert(spec_parameters(s, ki + 2) =~= Seq::<(u8, SpecBase)>::empty());
    assert(spec_parameters(s, 1) =~= seq![spec_type_descriptor(p)->0]);
}

/// `V` (void) is only a return type (JVMS §4.3.3): a method descriptor whose first parameter
/// starts with `V` is refused.
pub proof fn lemma_void_is_no_parameter(rest: Seq<u8>)
    ensures
        spec_method_descriptor(seq![0x28u8, 0x56u8] + rest) is None,
{
    let s = seq![0x28u8, 0x56u8] + rest;
    assert(s[0] == 0x28 && s[1] == 0x56);
    lemma_count_brackets(s, 1, 1);
    assert(field_type_end(s, 1, false) is None);
    assert(params_end(s, 1) is None);
}

/// The base type for a tag byte.
fn base_of_tag<'a>(t: u8) -> (r: Option<BaseType<'a>>)
    ensures
        match r {
            Some(b) => tag_base(t) == Some(b.view()) && b !is Object,
            None => tag_base(t) is None,
        },
{
    if t == 0x5A {
        Some(BaseType::Boolean)
    } else if t == 0x42 {
        Some(BaseType::Byte)
    } else if t == 0x53 {
        Some(BaseType::Short)
    } else if t == 0x49 {
        Some(BaseType::Integer)
    } else if t == 0x4A {
        Some(BaseType::Long)
    } else if t == 0x46 {
        Some(BaseType::Float)
    } else if t == 0x44 {
        Some(BaseType::Double)
    } else if t == 0x43 {
        Some(BaseType::Char)
    } else {
        None
    }
}

/// Counts the `[` at the front of `s[i..]`, up to 256.
fn count_brackets(s: &[u8], i: usize) -> (r: usize)
    requires
        i <= s@.len(),
    ensures
        r == if leading_brackets(s@, i as int) > 256 {
            256
        } else {
            leading_brackets(s@, i as int)
        },
{
    let mut j = i;
    proof {
        lemma_leading_brackets(s@, i as int);
    }
    while j < s.len() && s[j] == 0x5B && j - i < 256
        invariant
            i <= j <= s@.len(),
            j - i <= 256,
            leading_brackets(s@, i as int) == (j - i) + leading_brackets(s@, j as int),
        decreases s@.len() - j,
    {
        j = j + 1;
    }
    j - i
}

/// Finds the first `;` in `s[i..]`.
fn find_semicolon(s: &[u8], i: usize) -> (r: Option<usize>)
    requires
        i <= s@.len(),
    ensures
        r matches Some(j) ==> first_semicolon(s@, i as int) == Some(j as int),
        r is None ==> first_semicolon(s@, i as int) is None,
{
    let mut j = i;
    while j < s.len()
        invariant
            i <= j <= s@.len(),
            first_semicolon(s@, i as int) == first_semicolon(s@, j as int),
        decreases s@.len() - j,
    {
        if s[j] == 0x3B {
            return Some(j);
        }
        j = j + 1;
    }
    None
}

impl<'a> TypeDescriptor<'a> {
    /// Parses a field descriptor as described in §4.3.2 of the JVM specification.
    pub fn parse(s: MStr<'a>) -> (r: Result<TypeDescriptor<'a>, DecodeError>)
        ensures
            match spec_type_descriptor(s.spec_bytes()) {
                Some(td) => r is Ok && r->Ok_0.view() == td,
                None => r == Err::<TypeDescriptor<'a>, DecodeError>(
                    spec_error(DecodeErrorKind::InvalidDescriptor, None, Context::NoContext),
                ),
            },
    {
        let bytes = s.as_bytes();
        let ghost b = bytes@;
        proof {
            lemma_leading_brackets(b, 0);
        }
        let d = count_brackets(bytes, 0);
        // Can't have more than 255 dimensions.
        if d > 255 || d >= bytes.len() {
            return Err(DecodeError::new(DecodeErrorKind::InvalidDescriptor));
        }
        let t = bytes[d];
        match base_of_tag(t) {
            Some(base) => {
                // Verify that there is no character after the base type.
                if d + 1 != bytes.len() {
                    return Err(DecodeError::new(DecodeErrorKind::InvalidDescriptor));
                }
                Ok(TypeDescriptor { dimensions: d as u8, base })
            },
            None => {
                if t != 0x4C {
                    return Err(DecodeError::new(DecodeErrorKind::InvalidDescriptor));
                }
                // Assure that the descriptor contains a ';' and that nothing follows it.
                match find_semicolon(bytes, d + 1) {
                    None => Err(DecodeError::new(DecodeErrorKind::InvalidDescriptor)),
                    Some(j) => {
                        if j != bytes.len() - 1 || d + 1 >= bytes.len() - 1 {
                            return Err(DecodeError::new(DecodeErrorKind::InvalidDescriptor));
                        }
                        proof {
                            lemma_ascii_boundary(b, d as int);
                            lemma_first_semicolon(b, d + 1);
                        }
                        let name = s.slice(d + 1, bytes.len() - 1);
                        Ok(TypeDescriptor { dimensions: d as u8, base: BaseType::Object(name) })
                    },
                }
            },
        }
    }
}

/// The position just after the field type that starts at `s[i]`, if one does; with `ret`,
/// the void type `V` is allowed too.
pub open spec fn field_type_end(s: Seq<u8>, i: int, ret: bool) -> Option<int> {
    if ret && 0 <= i < s.len() && s[i] == 0x56 {
        Some(i + 1)
    } else {
        let d = leading_brackets(s, i) as int;
        if i < 0 || d > 255 || i + d >= s.len() {
            None
        } else if tag_base(s[i + d]) is Some {
            Some(i + d + 1)
        } else if s[i + d] == 0x4C {
            match first_semicolon(s, i + d + 1) {
                Some(j) => if j > i + d + 1 {
                    Some(j + 1)
                } else {
                    None
                },
                None => None,
            }
        } else {
            None
        }
    }
}

/// The position of the `)` that ends the parameter types starting at `s[i]`, if they are valid.
pub open spec fn params_end(s: Seq<u8>, i: int) -> Option<int>
    decreases s.len() - i,
{
    if i < 0 || i >= s.len() {
        None
    } else if s[i] == 0x29 {
        Some(i)
    } else {
        match field_type_end(s, i, false) {
            Some(j) => if i < j <= s.len() {
                params_end(s, j)
            } else {
                None
            },
            None => None,
        }
    }
}

/// Where the return type of the method descriptor `s` starts, if `s` is a valid method descriptor:
/// `(`, field types, `)`, then a field type or `V`, with nothing after it.
pub open spec fn spec_method_descriptor(s: Seq<u8>) -> Option<int> {
    if s.len() > 0 && s[0] == 0x28 {
        match params_end(s, 1) {
            Some(p) => match field_type_end(s, p + 1, true) {
                Some(e) => if e == s.len() {
                    Some(p + 1)
                } else {
                    None
                },
                None => None,
            },
            None => None,
        }
    } else {
        None
    }
}

/// The field descriptors of the parameter types that start at `s[i]`.
pub open spec fn spec_parameters(s: Seq<u8>, i: int) -> Seq<(u8, SpecBase)>
    decreases s.len() - i,
{
    if i < 0 || i >= s.len() || s[i] == 0x29 {
        Seq::empty()
    } else {
        match field_type_end(s, i, false) {
            Some(j) => if i < j <= s.len() {
                seq![spec_type_descriptor(s.subrange(i, j))->0] + spec_parameters(s, j)
            } else {
                Seq::empty()
            },
            None => Seq::empty(),
        }
    }
}

proof fn lemma_field_type_end(s: Seq<u8>, i: int, ret: bool)
    requires
        0 <= i <= s.len(),
    ensures
        field_type_end(s, i, ret) matches Some(e) ==> i < e <= s.len(),
{
    lemma_leading_brackets(s, i);
    let d = leading_brackets(s, i) as int;
    if i + d < s.len() {
        lemma_first_semicolon(s, i + d + 1);
    }
}

/// The bytes `s[i..e]` of a field type are a field descriptor: the same brackets,
/// the same tag, and for an object type the name between `L` and the first `;`.
proof fn lemma_type_slice(s: Seq<u8>, i: int)
    requires
        0 <= i <= s.len(),
        field_type_end(s, i, false) is Some,
    ensures
        ({
            let e = field_type_end(s, i, false)->0;
            let d = leading_brackets(s, i) as int;
            let t = s.subrange(i, e);
            &&& i < e <= s.len()
            &&& d <= 255
            &&& i + d < e
            &&& forall|j: int| i <= j < i + d ==> s[j] == 0x5B
            &&& s[i + d] != 0x5B
            &&& spec_type_descriptor(t) is Some
            &&& (spec_type_descriptor(t)->0).0 == d as u8
            &&& (tag_base(s[i + d]) is Some ==> e == i + d + 1 && (spec_type_descriptor(t)->0).1 == tag_base(
                s[i + d],
            )->0)
            &&& (tag_base(s[i + d]) is None ==> s[i + d] == 0x4C && s[e - 1] == 0x3B && i + d + 1 < e - 1
                && first_semicolon(s, i + d + 1) == Some(e - 1)
                && (spec_type_descriptor(t)->0).1 == SpecBase::Object(s.subrange(i + d + 1, e - 1)))
        }),
{
    lemma_field_type_end(s, i, false);
    lemma_leading_brackets(s, i);
    let e = field_type_end(s, i, false)->0;
    let d = leading_brackets(s, i) as int;
    let t = s.subrange(i, e);
    lemma_leading_brackets(t, 0);
    // the brackets of t are those of s
    assert forall|j: int| 0 <= j < d implies t[j] == 0x5B by {
        assert(t[j] == s[i + j]);
    }
    assert(t[d] == s[i + d]);
    lemma_brackets_count(t, d);
    if tag_base(s[i + d]) is None {
        lemma_first_semicolon(s, i + d + 1);
        lemma_first_semicolon(t, d + 1);
        let j = e - 1;
        assert forall|k: int| d + 1 <= k < j - i implies t[k] != 0x3B by {
            assert(t[k] == s[i + k]);
        }
        assert(t[j - i] == 0x3B);
        lemma_semicolon_at(t, d + 1, j - i);
        assert(t.subrange(d + 1, t.len() - 1) =~= s.subrange(i + d + 1, e - 1));
    }
}

/// A run of exactly `d` brackets followed by something else is counted as `d`.
proof fn lemma_brackets_count(t: Seq<u8>, d: int)
    requires
        0 <= d < t.len(),
        forall|j: int| 0 <= j < d ==> t[j] == 0x5B,
        t[d] != 0x5B,
    ensures
        leading_brackets(t, 0) == d,
{
    lemma_brackets_from(t, 0, d);
}

proof fn lemma_brackets_from(t: Seq<u8>, i: int, d: int)
    requires
        0 <= i <= d < t.len(),
        forall|j: int| i <= j < d ==> t[j] == 0x5B,
        t[d] != 0x5B,
    ensures
        leading_brackets(t, i) == d - i,
    decreases d - i,
{
    if i < d {
        lemma_brackets_from(t, i + 1, d);
    }
}

/// The first `;` after `i` is the one at `j` when there is none in between.
proof fn lemma_semicolon_at(t: Seq<u8>, i: int, j: int)
    requires
        0 <= i <= j < t.len(),
        forall|k: int| i <= k < j ==> t[k] != 0x3B,
        t[j] == 0x3B,
    ensures
        first_semicolon(t, i) == Some(j),
    decreases j - i,
{
    if i < j {
        lemma_semicolon_at(t, i + 1, j);
    }
}

/// Checks that a field type (or, with `return_type`, also `V`) starts at `s[i]` and returns where it ends.
fn validate_type(s: &[u8], i: usize, return_type: bool) -> (r: Result<usize, DecodeError>)
    requires
        i <= s@.len(),
    ensures
        match field_type_end(s@, i as int, return_type) {
            Some(e) => r == Ok::<usize, DecodeError>(e as usize),
            None => r == Err::<usize, DecodeError>(
                spec_error(DecodeErrorKind::InvalidDescriptor, None, Context::NoContext),
            ),
        },
{
    proof {
        lemma_field_type_end(s@, i as int, return_type);
        lemma_leading_brackets(s@, i as int);
    }
    if return_type && i < s.len() && s[i] == 0x56 {
        return Ok(i + 1);
    }
    // Can't have more than 255 array dimensions.
    let d = count_brackets(s, i);
    if d > 255 || d >= s.len() - i {
        return Err(DecodeError::new(DecodeErrorKind::InvalidDescriptor));
    }
    let t = s[i + d];
    match base_of_tag(t) {
        Some(_) => Ok(i + d + 1),
        None => {
            if t != 0x4C {
                return Err(DecodeError::new(DecodeErrorKind::InvalidDescriptor));
            }
            match find_semicolon(s, i + d + 1) {
                Some(j) => {
                    if j > i + d + 1 {
                        Ok(j + 1)
                    } else {
                        Err(DecodeError::new(DecodeErrorKind::InvalidDescriptor))
                    }
                },
                None => Err(DecodeError::new(DecodeErrorKind::InvalidDescriptor)),
            }
        },
    }
}

/// Reads the field type that starts at `input[i]`, which was validated before, and returns where it ends.
fn read_type<'a>(input: MStr<'a>, i: usize) -> (r: (TypeDescriptor<'a>, usize))
    requires
        i <= input.spec_bytes().len(),
        field_type_end(input.spec_bytes(), i as int, false) is Some,
    ensures
        ({
            let e = field_type_end(input.spec_bytes(), i as int, false)->0;
            &&& r.1 == e
            &&& r.0.view() == spec_type_descriptor(input.spec_bytes().subrange(i as int, e))->0
        }),
{
    let bytes = input.as_bytes();
    proof {
        lemma_type_slice(bytes@, i as int);
        lemma_leading_brackets(bytes@, i as int);
    }
    let n = bytes.len();
    let v = validate_type(bytes, i, false);
    let e = match v {
        Ok(e) => e,
        Err(_) => 0,
    };
    assert(e == field_type_end(bytes@, i as int, false)->0);
    let d = count_brackets(bytes, i);
    assert(d == leading_brackets(bytes@, i as int));
    assert(i + d < e);
    let t = bytes[i + d];
    match base_of_tag(t) {
        Some(base) => (TypeDescriptor { dimensions: d as u8, base }, e),
        None => {
            proof {
                lemma_ascii_boundary(bytes@, (i + d) as int);
            }
            let name = input.slice(i + d + 1, e - 1);
            (TypeDescriptor { dimensions: d as u8, base: BaseType::Object(name) }, e)
        },
    }
}

/// A method descriptor specifies the parameter types and return type of a method.
#[derive(Debug)]
pub struct MethodDescriptor<'a> {
    pub(crate) input: MStr<'a>,
    pub(crate) return_index: usize,
}

impl<'a> MethodDescriptor<'a> {
    #[verifier::type_invariant]
    pub(crate) closed spec fn inv(self) -> bool {
        spec_method_descriptor(self.input.spec_bytes()) == Some(self.return_index as int)
    }

    /// The bytes of the descriptor.
    pub open(crate) spec fn spec_bytes(self) -> Seq<u8> {
        self.input.spec_bytes()
    }

    /// Where the return type starts.
    pub open(crate) spec fn spec_return_index(self) -> int {
        self.return_index as int
    }

    /// Parses a method descriptor as described in §4.3.3 of the JVM specification.
    pub fn parse(input: MStr<'a>) -> (r: Result<MethodDescriptor<'a>, DecodeError>)
        ensures
            match spec_method_descriptor(input.spec_bytes()) {
                Some(ri) => r is Ok && r->Ok_0.spec_bytes() == input.spec_bytes() && r->Ok_0.spec_return_index()
                    == ri,
                None => r == Err::<MethodDescriptor<'a>, DecodeError>(
                    spec_error(DecodeErrorKind::InvalidDescriptor, None, Context::NoContext),
                ),
            },
    {
        let bytes = input.as_bytes();
        let ghost b = bytes@;
        if bytes.len() == 0 || bytes[0] != 0x28 {
            return Err(DecodeError::new(DecodeErrorKind::InvalidDescriptor));
        }
        let mut p: usize = 1;
        loop
            invariant
                1 <= p <= b.len(),
                b == bytes@,
                b == input.spec_bytes(),
                b.len() > 0 && b[0] == 0x28,
                params_end(b, 1) == params_end(b, p as int),
            ensures
                p < b.len() && b[p as int] == 0x29 && params_end(b, 1) == Some(p as int),
            decreases b.len() - p,
        {
            if p >= bytes.len() {
                return Err(DecodeError::new(DecodeErrorKind::InvalidDescriptor));
            }
            if bytes[p] == 0x29 {
                break;
            }
            proof {
                lemma_field_type_end(b, p as int, false);
            }
            match validate_type(bytes, p, false) {
                Ok(e) => {
                    p = e;
                },
                Err(err) => return Err(err),
            }
        }
        let return_index = p + 1;
        proof {
            lemma_field_type_end(b, return_index as int, true);
        }
        match validate_type(bytes, return_index, true) {
            Ok(e) => {
                if e == bytes.len() {
                    Ok(MethodDescriptor { input, return_index })
                } else {
                    Err(DecodeError::new(DecodeErrorKind::InvalidDescriptor))
                }
            },
            Err(err) => Err(err),
        }
    }

    /// Returns the parameter types, in order.
    pub fn parameters(&self) -> (r: Vec<TypeDescriptor<'a>>)
        ensures
            r@.map_values(|td: TypeDescriptor<'a>| td.view()) == spec_parameters(self.spec_bytes(), 1),
    {
        proof {
            use_type_invariant(self);
        }
        let bytes = self.input.as_bytes();
        let ghost b = bytes@;
        let mut out: Vec<TypeDescriptor<'a>> = Vec::new();
        let mut p: usize = 1;
        loop
            invariant
                1 <= p <= b.len(),
                b == bytes@,
                b == self.input.spec_bytes(),
                params_end(b, p as int) is Some,
                spec_parameters(b, 1) == out@.map_values(|td: TypeDescriptor<'a>| td.view())
                    + spec_parameters(b, p as int),
            ensures
                spec_parameters(b, 1) == out@.map_values(|td: TypeDescriptor<'a>| td.view()),
            decreases b.len() - p,
        {
            if bytes[p] == 0x29 {
                assert(out@.map_values(|td: TypeDescriptor<'a>| td.view()) + spec_parameters(b, p as int)
                    =~= out@.map_values(|td: TypeDescriptor<'a>| td.view()));
                break;
            }
            proof {
                lemma_field_type_end(b, p as int, false);
            }
            let (td, e) = read_type(self.input, p);
            let ghost old_out = out@;
            out.push(td);
            assert(out@.map_values(|td: TypeDescriptor<'a>| td.view()) =~= old_out.map_values(
                |td: TypeDescriptor<'a>| td.view(),
            ).push(td.view()));
            assert(old_out.map_values(|td: TypeDescriptor<'a>| td.view()).push(td.view()) + spec_parameters(
                b,
                e as int,
            ) =~= old_out.map_values(|td: TypeDescriptor<'a>| td.view()) + spec_parameters(b, p as int));
            p = e;
        }
        out
    }

    /// Returns the return type of this method descriptor.
    /// If the return type is void (`V`), then `None` is returned.
    pub fn return_type(&self) -> (r: Option<TypeDescriptor<'a>>)
        ensures
            ({
                let rest = self.spec_bytes().skip(self.spec_return_index());
                &&& (rest == seq![0x56u8]) ==> r is None
                &&& (rest != seq![0x56u8]) ==> r is Some && spec_type_descriptor(rest) is Some
                    && r->Some_0.view() == spec_type_descriptor(rest)->0
            }),
    {
        proof {
            use_type_invariant(self);
        }
        let bytes = self.input.as_bytes();
        let ghost b = bytes@;
        let ri = self.return_index;
        proof {
            lemma_field_type_end(b, ri as int, true);
        }
        if bytes.len() - ri == 1 && bytes[ri] == 0x56 {
            assert(b.skip(ri as int) =~= seq![0x56u8]);
            None
        } else {
            proof {
                assert(b[ri as int] != 0x56) by {
                    if b[ri as int] == 0x56 {
                        assert(field_type_end(b, ri as int, true) == Some(ri + 1));
                    }
                }
                assert(field_type_end(b, ri as int, false) == field_type_end(b, ri as int, true));
                assert(b.subrange(ri as int, b.len() as int) =~= b.skip(ri as int));
                lemma_type_slice(b, ri as int);
            }
            let (td, e) = read_type(self.input, ri);
            assert(e == b.len());
            assert(b.subrange(ri as int, e as int) =~= b.skip(ri as int));
            assert(b.skip(ri as int) != seq![0x56u8]);
            Some(td)
        }
    }
}

/// The text of a base type as it stands in a descriptor; an object's name has unpaired surrogates replaced.
pub open spec fn spec_base_text(base: SpecBase) -> Seq<char> {
    match base {
        SpecBase::Boolean => "Z"@,
        SpecBase::Byte => "B"@,
        SpecBase::Short => "S"@,
        SpecBase::Integer => "I"@,
        SpecBase::Long => "J"@,
        SpecBase::Float => "F"@,
        SpecBase::Double => "D"@,
        SpecBase::Char => "C"@,
        SpecBase::Object(name) => "L"@ + spec_chars_lossy(name) + ";"@,
    }
}

/// The text of a type descriptor: a `[` for each dimension, then the base type.
pub open spec fn spec_type_text(dimensions: nat, base: SpecBase) -> Seq<char> {
    Seq::new(dimensions, |i: int| '[') + spec_base_text(base)
}

impl<'a> BaseType<'a> {
    /// The base type as it stands in a descriptor.
    pub fn to_string(&self) -> (r: String)
        ensures
            r@ == spec_base_text(self.view()),
    {
        let mut out = String::new();
        match self {
            BaseType::Boolean => push_str(&mut out, "Z"),
            BaseType::Byte => push_str(&mut out, "B"),
            BaseType::Short => push_str(&mut out, "S"),
            BaseType::Integer => push_str(&mut out, "I"),
            BaseType::Long => push_str(&mut out, "J"),
            BaseType::Float => push_str(&mut out, "F"),
            BaseType::Double => push_str(&mut out, "D"),
            BaseType::Char => push_str(&mut out, "C"),
            BaseType::Object(name) => {
                push_str(&mut out, "L");
                let text = name.display().to_string();
                push_str(&mut out, text.as_str());
                push_str(&mut out, ";");
            },
        }
        out
    }
}

impl<'a> TypeDescriptor<'a> {
    /// The type as it stands in a descriptor.
    pub fn to_string(&self) -> (r: String)
        ensures
            r@ == spec_type_text(self.dimensions as nat, self.base.view()),
    {
        let mut out = String::new();
        let mut i: u8 = 0;
        while i < self.dimensions
            invariant
                i <= self.dimensions,
                out@ == Seq::new(i as nat, |k: int| '['),
            decreases self.dimensions - i,
        {
            push_str(&mut out, "[");
            proof {
                reveal_strlit("[");
            }
            assert(out@ =~= Seq::new((i + 1) as nat, |k: int| '['));
            i = i + 1;
        }
        let base = self.base.to_string();
        push_str(&mut out, base.as_str());
        out
    }
}


/// Brackets in front of a valid string add a `[` each.
proof fn lemma_chars_brackets(s: Seq<u8>, d: int)
    requires
        0 <= d <= s.len(),
        valid_mutf8(s.skip(d)),
        forall|i: int| 0 <= i < d ==> s[i] == 0x5B,
    ensures
        valid_mutf8(s),
        spec_chars(s) == Seq::new(d as nat, |i: int| Ok::<char, u32>('[')) + spec_chars(s.skip(d)),
    decreases d,
{
    if d == 0 {
        assert(s.skip(0) =~= s);
        assert(spec_chars(s) =~= Seq::new(0, |i: int| Ok::<char, u32>('[')) + spec_chars(s));
    } else {
        let t = s.skip(1);
        assert(t.skip(d - 1) =~= s.skip(d));
        lemma_chars_brackets(t, d - 1);
        assert(s =~= seq![0x5Bu8] + t);
        crate::mutf8::lemma_chars_ascii_front(0x5B, t);
        assert(((0x5Bu8 as u32) as char) == '[');
        assert(spec_chars(s) =~= Seq::new(d as nat, |i: int| Ok::<char, u32>('[')) + spec_chars(s.skip(d)));
    }
}

/// A field descriptor reads back as the characters it was parsed from.
pub proof fn lemma_type_text_round_trip(s: Seq<u8>)
    requires
        valid_mutf8(s),
        spec_type_descriptor(s) is Some,
    ensures
        spec_type_text((spec_type_descriptor(s)->0).0 as nat, (spec_type_descriptor(s)->0).1) == spec_chars_lossy(s),
{
    reveal_strlit("Z");
    reveal_strlit("B");
    reveal_strlit("S");
    reveal_strlit("I");
    reveal_strlit("J");
    reveal_strlit("F");
    reveal_strlit("D");
    reveal_strlit("C");
    reveal_strlit("L");
    reveal_strlit(";");
    let d = leading_brackets(s, 0) as int;
    lemma_leading_brackets(s, 0);
    let rest = s.skip(d);
    crate::mutf8::lemma_valid_split(s, d);
    lemma_chars_brackets(s, d);
    let brackets = Seq::new(d as nat, |i: int| Ok::<char, u32>('['));
    if tag_base(s[d]) is Some {
        assert(rest =~= seq![s[d]] + Seq::<u8>::empty());
        assert(valid_mutf8(Seq::<u8>::empty()));
        crate::mutf8::lemma_chars_ascii_front(s[d], Seq::<u8>::empty());
        assert(spec_chars(Seq::<u8>::empty()) =~= Seq::<Result<char, u32>>::empty());
        assert(spec_chars(s) =~= brackets + seq![Ok::<char, u32>((s[d] as u32) as char)]);
        assert(spec_chars_lossy(s) =~= Seq::new(d as nat, |i: int| '[') + seq![(s[d] as u32) as char]);
    } else {
        let n = s.len() as int;
        let name = s.subrange(d + 1, n - 1);
        lemma_first_semicolon(s, d + 1);
        lemma_ascii_boundary(s, d);
        crate::mutf8::lemma_valid_split(rest, 1);
        let after_l = rest.skip(1);
        assert(after_l =~= name + seq![0x3Bu8]);
        crate::mutf8::lemma_valid_split(after_l, name.len() as int);
        assert(after_l.take(name.len() as int) =~= name);
        crate::mutf8::lemma_chars_ascii_back(name, 0x3B);
        assert(rest =~= seq![0x4Cu8] + after_l);
        crate::mutf8::lemma_chars_ascii_front(0x4C, after_l);
        assert(((0x4Cu8 as u32) as char) == 'L');
        assert(((0x3Bu8 as u32) as char) == ';');
        assert(spec_chars(s) =~= brackets + (seq![Ok::<char, u32>('L')] + (spec_chars(name) + seq![Ok::<char, u32>(';')])));
        assert(spec_chars_lossy(s) =~= Seq::new(d as nat, |i: int| '[') + ("L"@ + spec_chars_lossy(name) + ";"@));
    }
}

} // verus!
