//! Annotations and the values of their elements.

use crate::error::{DecodeError, DecodeErrorKind};
use crate::reader::cpool;
use crate::reader::decoding::{
    lemma_read_byte, lemma_read_u16, spec_map, spec_skip_many, Decode, DecodeMany, DecodeManyIter, Decoder,
};
use core::marker::PhantomData;
use vstd::prelude::*;

verus! {

pub type Annotations<'input> = DecodeMany<'input, Annotation<'input>, u16>;

pub type AnnotationIter<'input> = DecodeManyIter<'input, Annotation<'input>, u16>;

pub type ParameterAnnotations<'input> = DecodeMany<'input, Annotations<'input>, u8>;

pub type ParameterAnnotationIter<'input> = DecodeManyIter<'input, Annotations<'input>, u8>;

pub type ElementValuePairIter<'input> = DecodeManyIter<'input, ElementValuePair<'input>, u16>;

pub type ElementArray<'input> = DecodeMany<'input, ElementValue<'input>, u16>;

pub type ElementArrayIter<'input> = DecodeManyIter<'input, ElementValue<'input>, u16>;

/// An annotation: the index of its type and its element-value pairs.
#[derive(Debug, Clone, Copy)]
pub struct Annotation<'input> {
    pub(crate) type_: cpool::Index<cpool::Utf8<'input>>,
    pub(crate) pairs: ElementValuePairIter<'input>,
}

impl<'input> Annotation<'input> {
    pub open(crate) spec fn spec_new(type_: cpool::Index<cpool::Utf8<'input>>, pairs: ElementValuePairIter<'input>) -> Annotation<'input> {
        Annotation { type_, pairs }
    }

    pub open(crate) spec fn spec_type(self) -> cpool::Index<cpool::Utf8<'input>> {
        self.type_
    }

    pub open(crate) spec fn spec_pairs(self) -> ElementValuePairIter<'input> {
        self.pairs
    }

    pub fn type_(&self) -> (r: cpool::Index<cpool::Utf8<'input>>)
        ensures
            r == self.spec_type(),
    {
        self.type_
    }

    pub fn pairs(&self) -> (r: ElementValuePairIter<'input>)
        ensures
            r == self.spec_pairs(),
    {
        self.pairs
    }
}

/// A named element of an annotation and its value.
#[derive(Debug, Clone, Copy)]
pub struct ElementValuePair<'input> {
    pub(crate) name: cpool::Index<cpool::Utf8<'input>>,
    pub(crate) value: ElementValue<'input>,
}

impl<'input> ElementValuePair<'input> {
    pub open(crate) spec fn spec_new(name: cpool::Index<cpool::Utf8<'input>>, value: ElementValue<'input>) -> ElementValuePair<'input> {
        ElementValuePair { name, value }
    }

    pub open(crate) spec fn spec_name(self) -> cpool::Index<cpool::Utf8<'input>> {
        self.name
    }

    pub open(crate) spec fn spec_value(self) -> ElementValue<'input> {
        self.value
    }

    pub fn name(&self) -> (r: cpool::Index<cpool::Utf8<'input>>)
        ensures
            r == self.spec_name(),
    {
        self.name
    }

    pub fn value(&self) -> (r: ElementValue<'input>)
        ensures
            r == self.spec_value(),
    {
        self.value
    }
}

/// The value of an element of an annotation.
///
/// Its tag is the character `Z`, `B`, `S`, `I`, `J`, `F`, `D`, `C`, `s`, `c`, `e`, `@` or `[`,
/// in the order of the variants.
#[derive(Debug, Clone, Copy)]
pub enum ElementValue<'input> {
    Boolean(cpool::Index<cpool::Integer>),
    Byte(cpool::Index<cpool::Integer>),
    Short(cpool::Index<cpool::Integer>),
    Int(cpool::Index<cpool::Integer>),
    Long(cpool::Index<cpool::Long>),
    Float(cpool::Index<cpool::Float>),
    Double(cpool::Index<cpool::Double>),
    Char(cpool::Index<cpool::Integer>),
    String(cpool::Index<cpool::Utf8<'input>>),
    Class(cpool::Index<cpool::Utf8<'input>>),
    Enum { enum_type_name: cpool::Index<cpool::Utf8<'input>>, const_name: cpool::Index<cpool::Utf8<'input>> },
    Annotation(Annotation<'input>),
    Array(ElementArray<'input>),
}

/// Reading an element value: a tag, then the value that it announces.
pub open spec fn spec_element_value<'input>(d: Decoder<'input>) -> (Result<ElementValue<'input>, DecodeError>, Decoder<'input>)
    decreases d.remaining(), 0int,
{
    let (rt, d1) = <u8 as Decode<'input>>::spec_decode(d);
    match rt {
        Err(e) => (Err(e), d1),
        Ok(tag) => 
if tag == 0x5a {
                spec_map(<cpool::Index<cpool::Integer> as Decode<'input>>::spec_decode(d1), |v: cpool::Index<cpool::Integer>| ElementValue::Boolean(v))
            } else 
            if tag == 0x42 {
                spec_map(<cpool::Index<cpool::Integer> as Decode<'input>>::spec_decode(d1), |v: cpool::Index<cpool::Integer>| ElementValue::Byte(v))
            } else 
            if tag == 0x53 {
                spec_map(<cpool::Index<cpool::Integer> as Decode<'input>>::spec_decode(d1), |v: cpool::Index<cpool::Integer>| ElementValue::Short(v))
            } else 
            if tag == 0x49 {
                spec_map(<cpool::Index<cpool::Integer> as Decode<'input>>::spec_decode(d1), |v: cpool::Index<cpool::Integer>| ElementValue::Int(v))
            } else 
            if tag == 0x4a {
                spec_map(<cpool::Index<cpool::Long> as Decode<'input>>::spec_decode(d1), |v: cpool::Index<cpool::Long>| ElementValue::Long(v))
            } else 
            if tag == 0x46 {
                spec_map(<cpool::Index<cpool::Float> as Decode<'input>>::spec_decode(d1), |v: cpool::Index<cpool::Float>| ElementValue::Float(v))
            } else 
            if tag == 0x44 {
                spec_map(<cpool::Index<cpool::Double> as Decode<'input>>::spec_decode(d1), |v: cpool::Index<cpool::Double>| ElementValue::Double(v))
            } else 
            if tag == 0x43 {
                spec_map(<cpool::Index<cpool::Integer> as Decode<'input>>::spec_decode(d1), |v: cpool::Index<cpool::Integer>| ElementValue::Char(v))
            } else 
            if tag == 0x73 {
                spec_map(<cpool::Index<cpool::Utf8<'input>> as Decode<'input>>::spec_decode(d1), |v: cpool::Index<cpool::Utf8<'input>>| ElementValue::String(v))
            } else 
            if tag == 0x63 {
                spec_map(<cpool::Index<cpool::Utf8<'input>> as Decode<'input>>::spec_decode(d1), |v: cpool::Index<cpool::Utf8<'input>>| ElementValue::Class(v))
            } else 
            if tag == 0x65 {
                spec_map(
                    <(cpool::Index<cpool::Utf8<'input>>, cpool::Index<cpool::Utf8<'input>>) as Decode<'input>>::spec_decode(d1),
                    |p: (cpool::Index<cpool::Utf8<'input>>, cpool::Index<cpool::Utf8<'input>>)|
                        ElementValue::Enum { enum_type_name: p.0, const_name: p.1 },
                )
            } else if tag == 0x40 {
                spec_map(spec_annotation(d1), |a: Annotation<'input>| ElementValue::Annotation(a))
            } else if tag == 0x5b {
                let (rc, d2) = <u16 as Decode<'input>>::spec_decode(d1);
                match rc {
                    Err(e) => (Err(e), d2),
                    Ok(count) => {
                        let (rs, d3) = spec_skip_values(d2, count as nat);
                        match rs {
                            Err(e) => (Err(e), d3),
                            Ok(_) => (Ok(ElementValue::Array(DecodeMany::spec_from(DecodeManyIter::spec_from(d2, count)))), d3),
                        }
                    },
                }
            } else {
                (Err(d1.error_here(DecodeErrorKind::InvalidTag)), d1)
            },
    }
}

/// The element value tags (JVMS §4.7.16.1, Table 4.7.16.1-A): `B` byte, `C` char, `D` double,
/// `F` float, `I` int, `J` long, `S` short, `Z` boolean, `s` String and `c` Class hold one
/// constant pool index, which must not be 0, and take three bytes; `e` is an enum constant, `@`
/// a nested annotation and `[` an array; every other tag is refused.
pub proof fn lemma_element_value_tags<'input>(d: Decoder<'input>)
    requires
        d.in_bounds(),
        d.remaining() >= 1,
    ensures
        ({
            let tag = d.bytes()[0];
            let (r, after) = spec_element_value(d);
            &&& d.remaining() >= 3 ==> {
                let a = (d.bytes()[1] as nat * 256 + d.bytes()[2] as nat) as u16;
                &&& tag == 0x42 && a != 0 ==> r == Ok::<ElementValue<'input>, DecodeError>(ElementValue::Byte(cpool::Index::spec_new(a))) && after == d.spec_advance(3)
                &&& tag == 0x43 && a != 0 ==> r == Ok::<ElementValue<'input>, DecodeError>(ElementValue::Char(cpool::Index::spec_new(a))) && after == d.spec_advance(3)
                &&& tag == 0x44 && a != 0 ==> r == Ok::<ElementValue<'input>, DecodeError>(ElementValue::Double(cpool::Index::spec_new(a))) && after == d.spec_advance(3)
                &&& tag == 0x46 && a != 0 ==> r == Ok::<ElementValue<'input>, DecodeError>(ElementValue::Float(cpool::Index::spec_new(a))) && after == d.spec_advance(3)
                &&& tag == 0x49 && a != 0 ==> r == Ok::<ElementValue<'input>, DecodeError>(ElementValue::Int(cpool::Index::spec_new(a))) && after == d.spec_advance(3)
                &&& tag == 0x4a && a != 0 ==> r == Ok::<ElementValue<'input>, DecodeError>(ElementValue::Long(cpool::Index::spec_new(a))) && after == d.spec_advance(3)
                &&& tag == 0x53 && a != 0 ==> r == Ok::<ElementValue<'input>, DecodeError>(ElementValue::Short(cpool::Index::spec_new(a))) && after == d.spec_advance(3)
                &&& tag == 0x5a && a != 0 ==> r == Ok::<ElementValue<'input>, DecodeError>(ElementValue::Boolean(cpool::Index::spec_new(a))) && after == d.spec_advance(3)
                &&& tag == 0x73 && a != 0 ==> r == Ok::<ElementValue<'input>, DecodeError>(ElementValue::String(cpool::Index::spec_new(a))) && after == d.spec_advance(3)
                &&& tag == 0x63 && a != 0 ==> r == Ok::<ElementValue<'input>, DecodeError>(ElementValue::Class(cpool::Index::spec_new(a))) && after == d.spec_advance(3)
            }
            &&& tag == 0x65 ==> (r is Ok ==> r->Ok_0 is Enum)
            &&& tag == 0x40 ==> (r is Ok ==> r->Ok_0 is Annotation)
            &&& tag == 0x5b ==> (r is Ok ==> r->Ok_0 is Array)
            &&& !(tag == 0x42 || tag == 0x43 || tag == 0x44 || tag == 0x46 || tag == 0x49 || tag == 0x4a || tag == 0x53 || tag == 0x5a || tag == 0x73 || tag == 0x63 || tag == 0x65 || tag == 0x40 || tag == 0x5b) ==> r is Err
        }),
{
    lemma_read_byte(d);
    if d.remaining() >= 3 {
        let d1 = d.spec_advance(1);
        lemma_read_u16(d1);
        assert(d1.bytes()[0] == d.bytes()[1] && d1.bytes()[1] == d.bytes()[2]);
        assert(d1.spec_advance(2) == d.spec_advance(3));
    }
}

/// Reading an annotation: the index of its type, then its element-value pairs, which are checked now
/// and read again on demand.
pub open spec fn spec_annotation<'input>(d: Decoder<'input>) -> (Result<Annotation<'input>, DecodeError>, Decoder<'input>)
    decreases d.remaining(), 2int,
{
    let (rt, d1) = <cpool::Index<cpool::Utf8<'input>> as Decode<'input>>::spec_decode(d);
    match rt {
        Err(e) => (Err(e), d1),
        Ok(type_) => {
            let (rc, d2) = <u16 as Decode<'input>>::spec_decode(d1);
            match rc {
                Err(e) => (Err(e), d2),
                Ok(count) => {
                    let (rs, d3) = spec_skip_pairs(d2, count as nat);
                    match rs {
                        Err(e) => (Err(e), d3),
                        Ok(_) => (Ok(Annotation::spec_new(type_, DecodeManyIter::spec_from(d2, count))), d3),
                    }
                },
            }
        },
    }
}

/// Skipping `n` element values one after the other. Each value takes up at least one byte.
pub open spec fn spec_skip_values<'input>(d: Decoder<'input>, n: nat) -> (Result<(), DecodeError>, Decoder<'input>)
    decreases d.remaining(), 1int,
{
    if n == 0 {
        (Ok(()), d)
    } else {
        let (r, d1) = spec_element_value(d);
        match r {
            Err(e) => (Err(e), d1),
            Ok(_) => if 0 <= d1.remaining() < d.remaining() {
                spec_skip_values(d1, (n - 1) as nat)
            } else {
                (Err(d1.error_here(DecodeErrorKind::UnexpectedEoi)), d1)
            },
        }
    }
}

/// Skipping `n` element-value pairs one after the other.
pub open spec fn spec_skip_pairs<'input>(d: Decoder<'input>, n: nat) -> (Result<(), DecodeError>, Decoder<'input>)
    decreases d.remaining(), 1int,
{
    if n == 0 {
        (Ok(()), d)
    } else {
        let (rn, d1) = <cpool::Index<cpool::Utf8<'input>> as Decode<'input>>::spec_decode(d);
        match rn {
            Err(e) => (Err(e), d1),
            Ok(_) => {
                let (rv, d2) = spec_element_value(d1);
                match rv {
                    Err(e) => (Err(e), d2),
                    Ok(_) => if 0 <= d2.remaining() < d.remaining() {
                        spec_skip_pairs(d2, (n - 1) as nat)
                    } else {
                        (Err(d2.error_here(DecodeErrorKind::UnexpectedEoi)), d2)
                    },
                }
            },
        }
    }
}

/// A value that reads consumes at least its tag and stays inside the input.
proof fn lemma_value_consumes<'input>(d: Decoder<'input>)
    ensures
        spec_element_value(d).0 is Ok ==> 0 <= spec_element_value(d).1.remaining() < d.remaining(),
    decreases d.remaining(), 0int,
{
    let (rt, d1) = <u8 as Decode<'input>>::spec_decode(d);
    if let Ok(tag) = rt {
        if tag == 0x40 {
            lemma_annotation_consumes(d1);
        } else if tag == 0x5b {
            let (rc, d2) = <u16 as Decode<'input>>::spec_decode(d1);
            if let Ok(count) = rc {
                lemma_skip_values_keeps(d2, count as nat);
            }
        }
    }
}

/// An annotation that reads consumes at least its type index and stays inside the input.
proof fn lemma_annotation_consumes<'input>(d: Decoder<'input>)
    ensures
        spec_annotation(d).0 is Ok ==> 0 <= spec_annotation(d).1.remaining() < d.remaining(),
    decreases d.remaining(), 2int,
{
    let (rt, d1) = <cpool::Index<cpool::Utf8<'input>> as Decode<'input>>::spec_decode(d);
    if rt is Ok {
        let (rc, d2) = <u16 as Decode<'input>>::spec_decode(d1);
        if let Ok(count) = rc {
            lemma_skip_pairs_keeps(d2, count as nat);
        }
    }
}

/// Skipping values that all read stays inside the input.
proof fn lemma_skip_values_keeps<'input>(d: Decoder<'input>, n: nat)
    requires
        0 <= d.remaining(),
    ensures
        spec_skip_values(d, n).0 is Ok ==> 0 <= spec_skip_values(d, n).1.remaining() <= d.remaining(),
    decreases d.remaining(), 1int,
{
    if n > 0 {
        lemma_value_consumes(d);
        let (r, d1) = spec_element_value(d);
        if r is Ok {
            lemma_skip_values_keeps(d1, (n - 1) as nat);
        }
    }
}

/// Skipping pairs that all read stays inside the input.
proof fn lemma_skip_pairs_keeps<'input>(d: Decoder<'input>, n: nat)
    requires
        0 <= d.remaining(),
    ensures
        spec_skip_pairs(d, n).0 is Ok ==> 0 <= spec_skip_pairs(d, n).1.remaining() <= d.remaining(),
    decreases d.remaining(), 1int,
{
    if n > 0 {
        let (rn, d1) = <cpool::Index<cpool::Utf8<'input>> as Decode<'input>>::spec_decode(d);
        if rn is Ok {
            lemma_value_consumes(d1);
            let (rv, d2) = spec_element_value(d1);
            if rv is Ok {
                lemma_skip_pairs_keeps(d2, (n - 1) as nat);
            }
        }
    }
}

/// Checking the values of an element array agrees with reading them as a counted sequence of
/// element values.
pub proof fn lemma_skip_values_is_skip_many<'input>(d: Decoder<'input>, n: nat)
    ensures
        spec_skip_values(d, n) == spec_skip_many::<ElementValue<'input>>(d, n),
    decreases n,
{
    if n > 0 {
        lemma_value_consumes(d);
        let (r, d1) = spec_element_value(d);
        if r is Ok {
            lemma_skip_values_is_skip_many(d1, (n - 1) as nat);
        }
    }
}

/// Checking the element-value pairs of an annotation agrees with reading them as a counted
/// sequence of pairs.
pub proof fn lemma_skip_pairs_is_skip_many<'input>(d: Decoder<'input>, n: nat)
    ensures
        spec_skip_pairs(d, n) == spec_skip_many::<ElementValuePair<'input>>(d, n),
    decreases n,
{
    if n > 0 {
        let (rn, d1) = <cpool::Index<cpool::Utf8<'input>> as Decode<'input>>::spec_decode(d);
        if rn is Ok {
            lemma_value_consumes(d1);
            let (rv, d2) = spec_element_value(d1);
            if rv is Ok {
                lemma_skip_pairs_is_skip_many(d2, (n - 1) as nat);
            }
        }
    }
}

/// An annotation reads as the index of its type followed by a counted sequence of element-value pairs.
pub proof fn lemma_annotation_is_counted_pairs<'input>(d: Decoder<'input>)
    ensures
        spec_annotation(d) == ({
            let (rt, d1) = <cpool::Index<cpool::Utf8<'input>> as Decode<'input>>::spec_decode(d);
            match rt {
                Err(e) => (Err(e), d1),
                Ok(type_) => spec_map(
                    <ElementValuePairIter<'input> as Decode<'input>>::spec_decode(d1),
                    |pairs: ElementValuePairIter<'input>| Annotation::spec_new(type_, pairs),
                ),
            }
        }),
{
    let (rt, d1) = <cpool::Index<cpool::Utf8<'input>> as Decode<'input>>::spec_decode(d);
    if rt is Ok {
        let (rc, d2) = <u16 as Decode<'input>>::spec_decode(d1);
        if let Ok(count) = rc {
            lemma_skip_pairs_is_skip_many(d2, count as nat);
        }
    }
}

fn read_element_value<'input>(decoder: &mut Decoder<'input>) -> (r: Result<ElementValue<'input>, DecodeError>)
    ensures
        (r, *final(decoder)) == spec_element_value(*old(decoder)),
        final(decoder).follows(*old(decoder)),
        r is Ok ==> final(decoder).pos() > old(decoder).pos(),
    decreases old(decoder).remaining(), 0int,
{
    proof {
        use_type_invariant(&*decoder);
    }
    let tag: u8 = match decoder.read() {
        Ok(tag) => tag,
        Err(e) => return Err(e),
    };
    proof {
        use_type_invariant(&*decoder);
    }
    match tag {
        0x5a => match decoder.read::<cpool::Index<cpool::Integer>>() {
            Ok(v) => Ok(ElementValue::Boolean(v)),
            Err(e) => Err(e),
        },
        0x42 => match decoder.read::<cpool::Index<cpool::Integer>>() {
            Ok(v) => Ok(ElementValue::Byte(v)),
            Err(e) => Err(e),
        },
        0x53 => match decoder.read::<cpool::Index<cpool::Integer>>() {
            Ok(v) => Ok(ElementValue::Short(v)),
            Err(e) => Err(e),
        },
        0x49 => match decoder.read::<cpool::Index<cpool::Integer>>() {
            Ok(v) => Ok(ElementValue::Int(v)),
            Err(e) => Err(e),
        },
        0x4a => match decoder.read::<cpool::Index<cpool::Long>>() {
            Ok(v) => Ok(ElementValue::Long(v)),
            Err(e) => Err(e),
        },
        0x46 => match decoder.read::<cpool::Index<cpool::Float>>() {
            Ok(v) => Ok(ElementValue::Float(v)),
            Err(e) => Err(e),
        },
        0x44 => match decoder.read::<cpool::Index<cpool::Double>>() {
            Ok(v) => Ok(ElementValue::Double(v)),
            Err(e) => Err(e),
        },
        0x43 => match decoder.read::<cpool::Index<cpool::Integer>>() {
            Ok(v) => Ok(ElementValue::Char(v)),
            Err(e) => Err(e),
        },
        0x73 => match decoder.read::<cpool::Index<cpool::Utf8<'input>>>() {
            Ok(v) => Ok(ElementValue::String(v)),
            Err(e) => Err(e),
        },
        0x63 => match decoder.read::<cpool::Index<cpool::Utf8<'input>>>() {
            Ok(v) => Ok(ElementValue::Class(v)),
            Err(e) => Err(e),
        },
        0x65 => match decoder.read::<(cpool::Index<cpool::Utf8<'input>>, cpool::Index<cpool::Utf8<'input>>)>() {
            Ok((enum_type_name, const_name)) => Ok(ElementValue::Enum { enum_type_name, const_name }),
            Err(e) => Err(e),
        },
        0x40 => match read_annotation(decoder) {
            Ok(a) => Ok(ElementValue::Annotation(a)),
            Err(e) => Err(e),
        },
        0x5b => {
            let count: u16 = match decoder.read() {
                Ok(count) => count,
                Err(e) => return Err(e),
            };
            let start = *decoder;
            match skip_values(decoder, count) {
                Ok(()) => Ok(
                    ElementValue::Array(
                        DecodeMany { iter: DecodeManyIter { decoder: start, remaining: count, marker: PhantomData } },
                    ),
                ),
                Err(e) => Err(e),
            }
        },
        _ => Err(DecodeError::from_decoder(DecodeErrorKind::InvalidTag, decoder)),
    }
}

fn read_annotation<'input>(decoder: &mut Decoder<'input>) -> (r: Result<Annotation<'input>, DecodeError>)
    ensures
        (r, *final(decoder)) == spec_annotation(*old(decoder)),
        final(decoder).follows(*old(decoder)),
        r is Ok ==> final(decoder).pos() > old(decoder).pos(),
    decreases old(decoder).remaining(), 2int,
{
    let type_: cpool::Index<cpool::Utf8<'input>> = match decoder.read() {
        Ok(type_) => type_,
        Err(e) => return Err(e),
    };
    let count: u16 = match decoder.read() {
        Ok(count) => count,
        Err(e) => return Err(e),
    };
    proof {
        use_type_invariant(&*decoder);
    }
    let start = *decoder;
    match skip_pairs(decoder, count) {
        Ok(()) => Ok(Annotation { type_, pairs: DecodeManyIter { decoder: start, remaining: count, marker: PhantomData } }),
        Err(e) => Err(e),
    }
}

fn skip_values<'input>(decoder: &mut Decoder<'input>, count: u16) -> (r: Result<(), DecodeError>)
    ensures
        (r, *final(decoder)) == spec_skip_values(*old(decoder), count as nat),
        final(decoder).follows(*old(decoder)),
    decreases old(decoder).remaining(), 1int,
{
    let ghost start = *decoder;
    let mut i: u16 = 0;
    while i < count
        invariant
            i <= count,
            start == *old(decoder),
            decoder.follows(start),
            spec_skip_values(*decoder, (count - i) as nat) == spec_skip_values(start, count as nat),
        decreases count - i,
    {
        proof {
            use_type_invariant(&*decoder);
        }
        match read_element_value(decoder) {
            Ok(_) => {},
            Err(e) => return Err(e),
        }
        proof {
            use_type_invariant(&*decoder);
        }
        i = i + 1;
    }
    Ok(())
}

fn skip_pairs<'input>(decoder: &mut Decoder<'input>, count: u16) -> (r: Result<(), DecodeError>)
    ensures
        (r, *final(decoder)) == spec_skip_pairs(*old(decoder), count as nat),
        final(decoder).follows(*old(decoder)),
    decreases old(decoder).remaining(), 1int,
{
    let ghost start = *decoder;
    let mut i: u16 = 0;
    while i < count
        invariant
            i <= count,
            start == *old(decoder),
            decoder.follows(start),
            spec_skip_pairs(*decoder, (count - i) as nat) == spec_skip_pairs(start, count as nat),
        decreases count - i,
    {
        proof {
            use_type_invariant(&*decoder);
        }
        match decoder.read::<cpool::Index<cpool::Utf8<'input>>>() {
            Ok(_) => {},
            Err(e) => return Err(e),
        }
        match read_element_value(decoder) {
            Ok(_) => {},
            Err(e) => return Err(e),
        }
        proof {
            use_type_invariant(&*decoder);
        }
        i = i + 1;
    }
    Ok(())
}

impl<'input> Decode<'input> for ElementValue<'input> {
    open spec fn spec_decode(decoder: Decoder<'input>) -> (Result<ElementValue<'input>, DecodeError>, Decoder<'input>) {
        spec_element_value(decoder)
    }

    fn decode(decoder: &mut Decoder<'input>) -> (r: Result<ElementValue<'input>, DecodeError>) {
        read_element_value(decoder)
    }
}

impl<'input> Decode<'input> for Annotation<'input> {
    open spec fn spec_decode(decoder: Decoder<'input>) -> (Result<Annotation<'input>, DecodeError>, Decoder<'input>) {
        spec_annotation(decoder)
    }

    fn decode(decoder: &mut Decoder<'input>) -> (r: Result<Annotation<'input>, DecodeError>) {
        read_annotation(decoder)
    }
}

impl<'input> Decode<'input> for ElementValuePair<'input> {
    /// Reads the index of the element's name, then its value.
    open spec fn spec_decode(decoder: Decoder<'input>) -> (Result<ElementValuePair<'input>, DecodeError>, Decoder<'input>) {
        let (rn, d1) = <cpool::Index<cpool::Utf8<'input>> as Decode<'input>>::spec_decode(decoder);
        match rn {
            Err(e) => (Err(e), d1),
            Ok(name) => spec_map(spec_element_value(d1), |v: ElementValue<'input>| ElementValuePair::spec_new(name, v)),
        }
    }

    fn decode(decoder: &mut Decoder<'input>) -> (r: Result<ElementValuePair<'input>, DecodeError>) {
        let name: cpool::Index<cpool::Utf8<'input>> = match decoder.read() {
            Ok(name) => name,
            Err(e) => return Err(e),
        };
        match read_element_value(decoder) {
            Ok(value) => Ok(ElementValuePair { name, value }),
            Err(e) => Err(e),
        }
    }
}

} // verus!
