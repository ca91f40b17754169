//! The local variable tables of a method's code.

use crate::error::DecodeError;
use crate::reader::attributes::code;
use crate::reader::cpool;
use crate::reader::decoding::{lemma_read_u16, Decode, DecodeInto, DecodeMany, Decoder};
use core::marker::PhantomData;
use core::ops::Range;
use vstd::prelude::*;

verus! {

/// The content of a `LocalVariableTable` attribute.
#[derive(Debug, Clone, Copy)]
pub struct LocalVariableTable<'input> {
    pub(crate) locals: DecodeMany<'input, LocalVariable, u16>,
    pub(crate) marker: PhantomData<&'input ()>,
}

impl<'input> LocalVariableTable<'input> {
    pub open(crate) spec fn spec_new(locals: DecodeMany<'input, LocalVariable, u16>) -> LocalVariableTable<'input> {
        LocalVariableTable { locals, marker: PhantomData }
    }

    pub open(crate) spec fn spec_locals(self) -> DecodeMany<'input, LocalVariable, u16> {
        self.locals
    }

    pub fn locals(&self) -> (r: DecodeMany<'input, LocalVariable, u16>)
        ensures
            r == self.spec_locals(),
    {
        self.locals
    }
}

impl<'input> DecodeInto<'input> for LocalVariableTable<'input> {
    open spec fn spec_decode_into(decoder: Decoder<'input>) -> Result<LocalVariableTable<'input>, DecodeError> {
        let (r_locals, d1) = <DecodeMany<'input, LocalVariable, u16> as Decode<'input>>::spec_decode(decoder);
        match r_locals {
            Err(e) => Err(e),
            Ok(v_locals) => {
                Ok(LocalVariableTable::spec_new(v_locals))
            },
        }
    }

    fn decode_into(decoder: Decoder<'input>) -> (r: Result<LocalVariableTable<'input>, DecodeError>) {
        let mut decoder = decoder;
        let locals: DecodeMany<'input, LocalVariable, u16> = match decoder.read() {
            Ok(v) => v,
            Err(e) => return Err(e),
        };
        Ok(LocalVariableTable { locals, marker: PhantomData })
    }
}

/// A local variable: the range of code in which it lives, its name, its descriptor and its slot.
#[derive(Debug, Clone, Copy)]
pub struct LocalVariable {
    pub(crate) start: code::Index,
    pub(crate) end: code::Index,
    pub(crate) name: cpool::Index<cpool::Utf8<'static>>,
    pub(crate) descriptor: cpool::Index<cpool::Utf8<'static>>,
    pub(crate) index: u16,
}

impl LocalVariable {
    /// The variable that starts at `start` and lives for `length` bytes of code.
    pub open(crate) spec fn spec_new(
        start: u16,
        length: u16,
        name: cpool::Index<cpool::Utf8<'static>>,
        descriptor: cpool::Index<cpool::Utf8<'static>>,
        index: u16,
    ) -> LocalVariable {
        LocalVariable {
            start: code::Index::spec_new(start as u32),
            end: code::Index::spec_new((start + length) as u32),
            name,
            descriptor,
            index,
        }
    }

    pub open(crate) spec fn spec_start(self) -> code::Index {
        self.start
    }

    pub open(crate) spec fn spec_end(self) -> code::Index {
        self.end
    }

    pub open(crate) spec fn spec_name(self) -> cpool::Index<cpool::Utf8<'static>> {
        self.name
    }

    pub open(crate) spec fn spec_descriptor(self) -> cpool::Index<cpool::Utf8<'static>> {
        self.descriptor
    }

    pub open(crate) spec fn spec_index(self) -> u16 {
        self.index
    }

    /// The code in which the variable lives.
    pub fn range(&self) -> (r: Range<code::Index>)
        ensures
            r.start == self.spec_start(),
            r.end == self.spec_end(),
    {
        Range { start: self.start, end: self.end }
    }

    pub fn name(&self) -> (r: cpool::Index<cpool::Utf8<'static>>)
        ensures
            r == self.spec_name(),
    {
        self.name
    }

    pub fn descriptor(&self) -> (r: cpool::Index<cpool::Utf8<'static>>)
        ensures
            r == self.spec_descriptor(),
    {
        self.descriptor
    }

    /// The slot of the variable in the local variable array.
    pub fn index(&self) -> (r: u16)
        ensures
            r == self.spec_index(),
    {
        self.index
    }
}

impl<'input> Decode<'input> for LocalVariable {
    /// Reads the start and length of the range, the name, the descriptor and the slot.
    open spec fn spec_decode(decoder: Decoder<'input>) -> (Result<LocalVariable, DecodeError>, Decoder<'input>) {
        let (r1, d1) = <(u16, u16) as Decode<'input>>::spec_decode(decoder);
        match r1 {
            Err(e) => (Err(e), d1),
            Ok(range) => {
                let (r2, d2) = <(cpool::Index<cpool::Utf8<'static>>, cpool::Index<cpool::Utf8<'static>>, u16) as Decode<'input>>::spec_decode(d1);
                match r2 {
                    Err(e) => (Err(e), d2),
                    Ok(rest) => (Ok(LocalVariable::spec_new(range.0, range.1, rest.0, rest.1, rest.2)), d2),
                }
            },
        }
    }

    fn decode(decoder: &mut Decoder<'input>) -> (r: Result<LocalVariable, DecodeError>) {
        let (start, length): (u16, u16) = match decoder.read() {
            Ok(range) => range,
            Err(e) => return Err(e),
        };
        let (name, descriptor, index): (cpool::Index<cpool::Utf8<'static>>, cpool::Index<cpool::Utf8<'static>>, u16) = match decoder.read() {
            Ok(rest) => rest,
            Err(e) => return Err(e),
        };
        Ok(
            LocalVariable {
                start: code::Index::new(start as u32),
                end: code::Index::new(start as u32 + length as u32),
                name,
                descriptor,
                index,
            },
        )
    }
}

/// The layout of a local variable table entry (JVMS §4.7.13): `start_pc`, `length`, the name
/// index, the descriptor index and the slot `index`, each a big-endian `u16`; the variable lives
/// from `start_pc` up to `start_pc + length`.
pub proof fn lemma_local_variable_layout<'input>(d: Decoder<'input>)
    requires
        d.in_bounds(),
        d.remaining() >= 10,
    ensures
        ({
            let b = d.bytes();
            let (r, after) = <LocalVariable as Decode<'input>>::spec_decode(d);
            ((b[4] as nat * 256 + b[5] as nat) as u16 != 0 && (b[6] as nat * 256 + b[7] as nat) as u16 != 0) ==> {
                &&& r is Ok
                &&& after == d.spec_advance(10)
                &&& r->Ok_0.spec_start() == code::Index::spec_new((b[0] as nat * 256 + b[1] as nat) as u16 as u32)
                &&& r->Ok_0.spec_end() == code::Index::spec_new(((b[0] as nat * 256 + b[1] as nat) as u16 + (b[2] as nat * 256 + b[3] as nat) as u16) as u32)
                &&& r->Ok_0.spec_name() == cpool::Index::<cpool::Utf8<'static>>::spec_new((b[4] as nat * 256 + b[5] as nat) as u16)
                &&& r->Ok_0.spec_descriptor() == cpool::Index::<cpool::Utf8<'static>>::spec_new((b[6] as nat * 256 + b[7] as nat) as u16)
                &&& r->Ok_0.spec_index() == (b[8] as nat * 256 + b[9] as nat) as u16
            }
        }),
{
    let b = d.bytes();
    lemma_read_u16(d);
    let d2 = d.spec_advance(2);
    lemma_read_u16(d2);
    assert(d2.bytes()[0] == b[2] && d2.bytes()[1] == b[3]);
    let d4 = d2.spec_advance(2);
    lemma_read_u16(d4);
    assert(d4.bytes()[0] == b[4] && d4.bytes()[1] == b[5]);
    let d6 = d4.spec_advance(2);
    lemma_read_u16(d6);
    assert(d6.bytes()[0] == b[6] && d6.bytes()[1] == b[7]);
    let d8 = d6.spec_advance(2);
    lemma_read_u16(d8);
    assert(d8.bytes()[0] == b[8] && d8.bytes()[1] == b[9]);
    assert(d8.spec_advance(2) == d.spec_advance(10));
}

/// The content of a `LocalVariableTypeTable` attribute.
#[derive(Debug, Clone, Copy)]
pub struct LocalVariableTypeTable<'input> {
    pub(crate) locals: DecodeMany<'input, LocalVariableType<'input>, u16>,
    pub(crate) marker: PhantomData<&'input ()>,
}

impl<'input> LocalVariableTypeTable<'input> {
    pub open(crate) spec fn spec_new(locals: DecodeMany<'input, LocalVariableType<'input>, u16>) -> LocalVariableTypeTable<'input> {
        LocalVariableTypeTable { locals, marker: PhantomData }
    }

    pub open(crate) spec fn spec_locals(self) -> DecodeMany<'input, LocalVariableType<'input>, u16> {
        self.locals
    }

    pub fn locals(&self) -> (r: DecodeMany<'input, LocalVariableType<'input>, u16>)
        ensures
            r == self.spec_locals(),
    {
        self.locals
    }
}

impl<'input> DecodeInto<'input> for LocalVariableTypeTable<'input> {
    open spec fn spec_decode_into(decoder: Decoder<'input>) -> Result<LocalVariableTypeTable<'input>, DecodeError> {
        let (r_locals, d1) = <DecodeMany<'input, LocalVariableType<'input>, u16> as Decode<'input>>::spec_decode(decoder);
        match r_locals {
            Err(e) => Err(e),
            Ok(v_locals) => {
                Ok(LocalVariableTypeTable::spec_new(v_locals))
            },
        }
    }

    fn decode_into(decoder: Decoder<'input>) -> (r: Result<LocalVariableTypeTable<'input>, DecodeError>) {
        let mut decoder = decoder;
        let locals: DecodeMany<'input, LocalVariableType<'input>, u16> = match decoder.read() {
            Ok(v) => v,
            Err(e) => return Err(e),
        };
        Ok(LocalVariableTypeTable { locals, marker: PhantomData })
    }
}

/// A local variable: the range of code in which it lives, its name, its signature and its slot.
#[derive(Debug, Clone, Copy)]
pub struct LocalVariableType<'input> {
    pub(crate) start: code::Index,
    pub(crate) end: code::Index,
    pub(crate) name: cpool::Index<cpool::Utf8<'input>>,
    pub(crate) signature: cpool::Index<cpool::Utf8<'input>>,
    pub(crate) index: u16,
}

impl<'input> LocalVariableType<'input> {
    /// The variable that starts at `start` and lives for `length` bytes of code.
    pub open(crate) spec fn spec_new(
        start: u16,
        length: u16,
        name: cpool::Index<cpool::Utf8<'input>>,
        signature: cpool::Index<cpool::Utf8<'input>>,
        index: u16,
    ) -> LocalVariableType<'input> {
        LocalVariableType {
            start: code::Index::spec_new(start as u32),
            end: code::Index::spec_new((start + length) as u32),
            name,
            signature,
            index,
        }
    }

    pub open(crate) spec fn spec_start(self) -> code::Index {
        self.start
    }

    pub open(crate) spec fn spec_end(self) -> code::Index {
        self.end
    }

    pub open(crate) spec fn spec_name(self) -> cpool::Index<cpool::Utf8<'input>> {
        self.name
    }

    pub open(crate) spec fn spec_signature(self) -> cpool::Index<cpool::Utf8<'input>> {
        self.signature
    }

    pub open(crate) spec fn spec_index(self) -> u16 {
        self.index
    }

    /// The code in which the variable lives.
    pub fn range(&self) -> (r: Range<code::Index>)
        ensures
            r.start == self.spec_start(),
            r.end == self.spec_end(),
    {
        Range { start: self.start, end: self.end }
    }

    pub fn name(&self) -> (r: cpool::Index<cpool::Utf8<'input>>)
        ensures
            r == self.spec_name(),
    {
        self.name
    }

    pub fn signature(&self) -> (r: cpool::Index<cpool::Utf8<'input>>)
        ensures
            r == self.spec_signature(),
    {
        self.signature
    }

    /// The slot of the variable in the local variable array.
    pub fn index(&self) -> (r: u16)
        ensures
            r == self.spec_index(),
    {
        self.index
    }
}

impl<'input> Decode<'input> for LocalVariableType<'input> {
    /// Reads the start and length of the range, the name, the signature and the slot.
    open spec fn spec_decode(decoder: Decoder<'input>) -> (Result<LocalVariableType<'input>, DecodeError>, Decoder<'input>) {
        let (r1, d1) = <(u16, u16) as Decode<'input>>::spec_decode(decoder);
        match r1 {
            Err(e) => (Err(e), d1),
            Ok(range) => {
                let (r2, d2) = <(cpool::Index<cpool::Utf8<'input>>, cpool::Index<cpool::Utf8<'input>>, u16) as Decode<'input>>::spec_decode(d1);
                match r2 {
                    Err(e) => (Err(e), d2),
                    Ok(rest) => (Ok(LocalVariableType::spec_new(range.0, range.1, rest.0, rest.1, rest.2)), d2),
                }
            },
        }
    }

    fn decode(decoder: &mut Decoder<'input>) -> (r: Result<LocalVariableType<'input>, DecodeError>) {
        let (start, length): (u16, u16) = match decoder.read() {
            Ok(range) => range,
            Err(e) => return Err(e),
        };
        let (name, signature, index): (cpool::Index<cpool::Utf8<'input>>, cpool::Index<cpool::Utf8<'input>>, u16) = match decoder.read() {
            Ok(rest) => rest,
            Err(e) => return Err(e),
        };
        Ok(
            LocalVariableType {
                start: code::Index::new(start as u32),
                end: code::Index::new(start as u32 + length as u32),
                name,
                signature,
                index,
            },
        )
    }
}

} // verus!
