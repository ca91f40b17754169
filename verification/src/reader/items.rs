//! The fields and methods of a class.

use crate::error::DecodeError;
use crate::header::AccessFlags;
use crate::reader::attributes::AttributeIter;
use crate::reader::cpool;
use crate::reader::decoding::{lemma_read_u16, Decode, DecodeManyIter, Decoder};
use core::marker::PhantomData;
use vstd::prelude::*;

verus! {

pub type FieldIter<'input> = DecodeManyIter<'input, Field<'input>, u16>;

/// A field of a class: its access flags, the indices of its name and descriptor, and its attributes.
#[derive(Debug, Clone, Copy)]
pub struct Field<'input> {
    pub(crate) access_flags: AccessFlags,
    pub(crate) name: cpool::Index<cpool::Utf8<'input>>,
    pub(crate) descriptor: cpool::Index<cpool::Utf8<'input>>,
    pub(crate) attributes: AttributeIter<'input>,
    pub(crate) marker: PhantomData<&'input ()>,
}

impl<'input> Field<'input> {
    pub open(crate) spec fn spec_new(access_flags: AccessFlags, name: cpool::Index<cpool::Utf8<'input>>, descriptor: cpool::Index<cpool::Utf8<'input>>, attributes: AttributeIter<'input>) -> Field<'input> {
        Field { access_flags, name, descriptor, attributes, marker: PhantomData }
    }

    pub open(crate) spec fn spec_access_flags(self) -> AccessFlags {
        self.access_flags
    }

    pub open(crate) spec fn spec_name(self) -> cpool::Index<cpool::Utf8<'input>> {
        self.name
    }

    pub open(crate) spec fn spec_descriptor(self) -> cpool::Index<cpool::Utf8<'input>> {
        self.descriptor
    }

    pub open(crate) spec fn spec_attributes(self) -> AttributeIter<'input> {
        self.attributes
    }

    pub fn access_flags(&self) -> (r: AccessFlags)
        ensures
            r == self.spec_access_flags(),
    {
        self.access_flags
    }

    pub fn name(&self) -> (r: cpool::Index<cpool::Utf8<'input>>)
        ensures
            r == self.spec_name(),
    {
        self.name
    }

    pub fn descriptor(&self) -> (r: cpool::Index<cpool::Utf8<'input>>)
        ensures
            r == self.spec_descriptor(),
    {
        self.descriptor
    }

    pub fn attributes(&self) -> (r: AttributeIter<'input>)
        ensures
            r == self.spec_attributes(),
    {
        self.attributes
    }
}

impl<'input> Decode<'input> for Field<'input> {
    open spec fn spec_decode(decoder: Decoder<'input>) -> (Result<Field<'input>, DecodeError>, Decoder<'input>) {
        let (r_access_flags, d1) = <AccessFlags as Decode<'input>>::spec_decode(decoder);
        match r_access_flags {
            Err(e) => (Err(e), d1),
            Ok(v_access_flags) => {
                let (r_name, d2) = <cpool::Index<cpool::Utf8<'input>> as Decode<'input>>::spec_decode(d1);
                match r_name {
                    Err(e) => (Err(e), d2),
                    Ok(v_name) => {
                        let (r_descriptor, d3) = <cpool::Index<cpool::Utf8<'input>> as Decode<'input>>::spec_decode(d2);
                        match r_descriptor {
                            Err(e) => (Err(e), d3),
                            Ok(v_descriptor) => {
                                let (r_attributes, d4) = <AttributeIter<'input> as Decode<'input>>::spec_decode(d3);
                                match r_attributes {
                                    Err(e) => (Err(e), d4),
                                    Ok(v_attributes) => {
                                        (Ok(Field::spec_new(v_access_flags, v_name, v_descriptor, v_attributes)), d4)
                                    },
                                }
                            },
                        }
                    },
                }
            },
        }
    }

    fn decode(decoder: &mut Decoder<'input>) -> (r: Result<Field<'input>, DecodeError>) {
        let access_flags: AccessFlags = match decoder.read() {
            Ok(v) => v,
            Err(e) => return Err(e),
        };
        let name: cpool::Index<cpool::Utf8<'input>> = match decoder.read() {
            Ok(v) => v,
            Err(e) => return Err(e),
        };
        let descriptor: cpool::Index<cpool::Utf8<'input>> = match decoder.read() {
            Ok(v) => v,
            Err(e) => return Err(e),
        };
        let attributes: AttributeIter<'input> = match decoder.read() {
            Ok(v) => v,
            Err(e) => return Err(e),
        };
        Ok(Field { access_flags, name, descriptor, attributes, marker: PhantomData })
    }
}

impl<'input> Field<'input> {
    /// The attributes of the field.
    pub fn attribute_indices(&self) -> (r: AttributeIter<'input>)
        ensures
            r == self.spec_attributes(),
    {
        self.attributes
    }
}

pub type MethodIter<'input> = DecodeManyIter<'input, Method<'input>, u16>;

/// A method of a class: its access flags, the indices of its name and descriptor, and its attributes.
#[derive(Debug, Clone, Copy)]
pub struct Method<'input> {
    pub(crate) access_flags: AccessFlags,
    pub(crate) name: cpool::Index<cpool::Utf8<'input>>,
    pub(crate) descriptor: cpool::Index<cpool::Utf8<'input>>,
    pub(crate) attributes: AttributeIter<'input>,
    pub(crate) marker: PhantomData<&'input ()>,
}

impl<'input> Method<'input> {
    pub open(crate) spec fn spec_new(access_flags: AccessFlags, name: cpool::Index<cpool::Utf8<'input>>, descriptor: cpool::Index<cpool::Utf8<'input>>, attributes: AttributeIter<'input>) -> Method<'input> {
        Method { access_flags, name, descriptor, attributes, marker: PhantomData }
    }

    pub open(crate) spec fn spec_access_flags(self) -> AccessFlags {
        self.access_flags
    }

    pub open(crate) spec fn spec_name(self) -> cpool::Index<cpool::Utf8<'input>> {
        self.name
    }

    pub open(crate) spec fn spec_descriptor(self) -> cpool::Index<cpool::Utf8<'input>> {
        self.descriptor
    }

    pub open(crate) spec fn spec_attributes(self) -> AttributeIter<'input> {
        self.attributes
    }

    pub fn access_flags(&self) -> (r: AccessFlags)
        ensures
            r == self.spec_access_flags(),
    {
        self.access_flags
    }

    pub fn name(&self) -> (r: cpool::Index<cpool::Utf8<'input>>)
        ensures
            r == self.spec_name(),
    {
        self.name
    }

    pub fn descriptor(&self) -> (r: cpool::Index<cpool::Utf8<'input>>)
        ensures
            r == self.spec_descriptor(),
    {
        self.descriptor
    }

    pub fn attributes(&self) -> (r: AttributeIter<'input>)
        ensures
            r == self.spec_attributes(),
    {
        self.attributes
    }
}

impl<'input> Decode<'input> for Method<'input> {
    open spec fn spec_decode(decoder: Decoder<'input>) -> (Result<Method<'input>, DecodeError>, Decoder<'input>) {
        let (r_access_flags, d1) = <AccessFlags as Decode<'input>>::spec_decode(decoder);
        match r_access_flags {
            Err(e) => (Err(e), d1),
            Ok(v_access_flags) => {
                let (r_name, d2) = <cpool::Index<cpool::Utf8<'input>> as Decode<'input>>::spec_decode(d1);
                match r_name {
                    Err(e) => (Err(e), d2),
                    Ok(v_name) => {
                        let (r_descriptor, d3) = <cpool::Index<cpool::Utf8<'input>> as Decode<'input>>::spec_decode(d2);
                        match r_descriptor {
                            Err(e) => (Err(e), d3),
                            Ok(v_descriptor) => {
                                let (r_attributes, d4) = <AttributeIter<'input> as Decode<'input>>::spec_decode(d3);
                                match r_attributes {
                                    Err(e) => (Err(e), d4),
                                    Ok(v_attributes) => {
                                        (Ok(Method::spec_new(v_access_flags, v_name, v_descriptor, v_attributes)), d4)
                                    },
                                }
                            },
                        }
                    },
                }
            },
        }
    }

    fn decode(decoder: &mut Decoder<'input>) -> (r: Result<Method<'input>, DecodeError>) {
        let access_flags: AccessFlags = match decoder.read() {
            Ok(v) => v,
            Err(e) => return Err(e),
        };
        let name: cpool::Index<cpool::Utf8<'input>> = match decoder.read() {
            Ok(v) => v,
            Err(e) => return Err(e),
        };
        let descriptor: cpool::Index<cpool::Utf8<'input>> = match decoder.read() {
            Ok(v) => v,
            Err(e) => return Err(e),
        };
        let attributes: AttributeIter<'input> = match decoder.read() {
            Ok(v) => v,
            Err(e) => return Err(e),
        };
        Ok(Method { access_flags, name, descriptor, attributes, marker: PhantomData })
    }
}

impl<'input> Method<'input> {
    /// The attributes of the method.
    pub fn attribute_indices(&self) -> (r: AttributeIter<'input>)
        ensures
            r == self.spec_attributes(),
    {
        self.attributes
    }
}

/// The layout of a field (JVMS §4.5): its access flags, the index of its name and the
/// index of its descriptor, each a big-endian `u16`, then its attributes.
pub proof fn lemma_field_layout<'input>(d: Decoder<'input>)
    requires
        d.in_bounds(),
        d.remaining() >= 6,
    ensures
        ({
            let b = d.bytes();
            let r = <Field<'input> as Decode<'input>>::spec_decode(d).0;
            r is Ok ==> {
                let v = r->Ok_0;
                &&& v.spec_access_flags().spec_bits() == (b[0] as nat * 256 + b[1] as nat) as u16
                &&& v.spec_name().spec_index() == (b[2] as nat * 256 + b[3] as nat) as u16
                &&& v.spec_descriptor().spec_index() == (b[4] as nat * 256 + b[5] as nat) as u16
            }
        }),
{
    let b = d.bytes();
    lemma_read_u16(d);
    let d2 = d.spec_advance(2);
    lemma_read_u16(d2);
    let d4 = d2.spec_advance(2);
    lemma_read_u16(d4);
    assert(d2.bytes()[0] == b[2] && d2.bytes()[1] == b[3]);
    assert(d4.bytes()[0] == b[4] && d4.bytes()[1] == b[5]);
}

/// The layout of a method (JVMS §4.6): its access flags, the index of its name and the
/// index of its descriptor, each a big-endian `u16`, then its attributes.
pub proof fn lemma_method_layout<'input>(d: Decoder<'input>)
    requires
        d.in_bounds(),
        d.remaining() >= 6,
    ensures
        ({
            let b = d.bytes();
            let r = <Method<'input> as Decode<'input>>::spec_decode(d).0;
            r is Ok ==> {
                let v = r->Ok_0;
                &&& v.spec_access_flags().spec_bits() == (b[0] as nat * 256 + b[1] as nat) as u16
                &&& v.spec_name().spec_index() == (b[2] as nat * 256 + b[3] as nat) as u16
                &&& v.spec_descriptor().spec_index() == (b[4] as nat * 256 + b[5] as nat) as u16
            }
        }),
{
    let b = d.bytes();
    lemma_read_u16(d);
    let d2 = d.spec_advance(2);
    lemma_read_u16(d2);
    let d4 = d2.spec_advance(2);
    lemma_read_u16(d4);
    assert(d2.bytes()[0] == b[2] && d2.bytes()[1] == b[3]);
    assert(d4.bytes()[0] == b[4] && d4.bytes()[1] == b[5]);
}

} // verus!
