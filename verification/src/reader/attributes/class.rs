//! The attributes of classes.

use crate::error::DecodeError;
use crate::header::AccessFlags;
use crate::reader::attributes::AttributeIter;
use crate::reader::cpool;
use crate::reader::decoding::{lemma_read_u16, Decode, DecodeInto, DecodeMany, DecodeManyIter, Decoder};
use core::marker::PhantomData;
use vstd::prelude::*;

verus! {

/// The content of an `EnclosingMethod` attribute: the class that encloses a local or anonymous class, and the method, if any.
#[derive(Debug, Clone, Copy)]
pub struct EnclosingMethod<'input> {
    pub(crate) class: cpool::Index<cpool::Class>,
    pub(crate) method: Option<cpool::Index<cpool::NameAndType>>,
    pub(crate) marker: PhantomData<&'input ()>,
}

impl<'input> EnclosingMethod<'input> {
    pub open(crate) spec fn spec_new(class: cpool::Index<cpool::Class>, method: Option<cpool::Index<cpool::NameAndType>>) -> EnclosingMethod<'input> {
        EnclosingMethod { class, method, marker: PhantomData }
    }

    pub open(crate) spec fn spec_class(self) -> cpool::Index<cpool::Class> {
        self.class
    }

    pub open(crate) spec fn spec_method(self) -> Option<cpool::Index<cpool::NameAndType>> {
        self.method
    }

    pub fn class(&self) -> (r: cpool::Index<cpool::Class>)
        ensures
            r == self.spec_class(),
    {
        self.class
    }

    pub fn method(&self) -> (r: Option<cpool::Index<cpool::NameAndType>>)
        ensures
            r == self.spec_method(),
    {
        self.method
    }
}

/// The layout of an `InnerClasses` entry (JVMS §4.7.6): the inner class, the outer class, the
/// inner name and the inner access flags, each a big-endian `u16`; an outer class or inner name
/// of 0 means there is none.
pub proof fn lemma_inner_class_layout<'input>(d: Decoder<'input>)
    requires
        d.in_bounds(),
        d.remaining() >= 8,
    ensures
        ({
            let b = d.bytes();
            let outer = (b[2] as nat * 256 + b[3] as nat) as u16;
            let name = (b[4] as nat * 256 + b[5] as nat) as u16;
            let (r, after) = <InnerClass<'input> as Decode<'input>>::spec_decode(d);
            (b[0] as nat * 256 + b[1] as nat) as u16 != 0 ==> {
                &&& r is Ok
                &&& after == d.spec_advance(8)
                &&& r->Ok_0.spec_inner_class() == cpool::Index::<cpool::Class>::spec_new((b[0] as nat * 256 + b[1] as nat) as u16)
                &&& r->Ok_0.spec_outer_class() == (if outer == 0 {
                    None
                } else {
                    Some(cpool::Index::<cpool::Class>::spec_new(outer))
                })
                &&& r->Ok_0.spec_inner_name() == (if name == 0 {
                    None
                } else {
                    Some(cpool::Index::<cpool::Utf8<'input>>::spec_new(name))
                })
                &&& r->Ok_0.spec_inner_access_flags().spec_bits() == (b[6] as nat * 256 + b[7] as nat) as u16
            }
        }),
{
    let b = d.bytes();
    lemma_read_u16(d);
    let d2 = d.spec_advance(2);
    lemma_read_u16(d2);
    assert(d2.bytes()[0] == b[2] && d2.bytes()[1] == b[3]);
    let d4 = d2.spec_advance(2);
    lemma_read_u16(d4);
    assert(d4.bytes()[0] == b[4] && d4.bytes()[1] == b[5]);
    let d6 = d4.spec_advance(2);
    lemma_read_u16(d6);
    assert(d6.bytes()[0] == b[6] && d6.bytes()[1] == b[7]);
    assert(d6.spec_advance(2) == d.spec_advance(8));
}

/// The layout of an `EnclosingMethod` attribute (JVMS §4.7.7): the class index and the method
/// index, each a big-endian `u16`; a method index of 0 means the class is not enclosed by a
/// method.
pub proof fn lemma_enclosing_method_layout<'input>(d: Decoder<'input>)
    requires
        d.in_bounds(),
        d.remaining() >= 4,
    ensures
        ({
            let b = d.bytes();
            let m = (b[2] as nat * 256 + b[3] as nat) as u16;
            let r = <EnclosingMethod<'input> as DecodeInto<'input>>::spec_decode_into(d);
            (b[0] as nat * 256 + b[1] as nat) as u16 != 0 ==> {
                &&& r is Ok
                &&& r->Ok_0.spec_class() == cpool::Index::<cpool::Class>::spec_new((b[0] as nat * 256 + b[1] as nat) as u16)
                &&& r->Ok_0.spec_method() == (if m == 0 {
                    None
                } else {
                    Some(cpool::Index::<cpool::NameAndType>::spec_new(m))
                })
            }
        }),
{
    let b = d.bytes();
    lemma_read_u16(d);
    let d2 = d.spec_advance(2);
    lemma_read_u16(d2);
    assert(d2.bytes()[0] == b[2] && d2.bytes()[1] == b[3]);
    assert(d2.spec_advance(2) == d.spec_advance(4));
}

impl<'input> DecodeInto<'input> for EnclosingMethod<'input> {
    open spec fn spec_decode_into(decoder: Decoder<'input>) -> Result<EnclosingMethod<'input>, DecodeError> {
        let (r_class, d1) = <cpool::Index<cpool::Class> as Decode<'input>>::spec_decode(decoder);
        match r_class {
            Err(e) => Err(e),
            Ok(v_class) => {
                let (r_method, d2) = <Option<cpool::Index<cpool::NameAndType>> as Decode<'input>>::spec_decode(d1);
                match r_method {
                    Err(e) => Err(e),
                    Ok(v_method) => {
                        Ok(EnclosingMethod::spec_new(v_class, v_method))
                    },
                }
            },
        }
    }

    fn decode_into(decoder: Decoder<'input>) -> (r: Result<EnclosingMethod<'input>, DecodeError>) {
        let mut decoder = decoder;
        let class: cpool::Index<cpool::Class> = match decoder.read() {
            Ok(v) => v,
            Err(e) => return Err(e),
        };
        let method: Option<cpool::Index<cpool::NameAndType>> = match decoder.read() {
            Ok(v) => v,
            Err(e) => return Err(e),
        };
        Ok(EnclosingMethod { class, method, marker: PhantomData })
    }
}

/// The content of a `NestHost` attribute.
#[derive(Debug, Clone, Copy)]
pub struct NestHost<'input> {
    pub(crate) host_class: cpool::Index<cpool::Class>,
    pub(crate) marker: PhantomData<&'input ()>,
}

impl<'input> NestHost<'input> {
    pub open(crate) spec fn spec_new(host_class: cpool::Index<cpool::Class>) -> NestHost<'input> {
        NestHost { host_class, marker: PhantomData }
    }

    pub open(crate) spec fn spec_host_class(self) -> cpool::Index<cpool::Class> {
        self.host_class
    }

    pub fn host_class(&self) -> (r: cpool::Index<cpool::Class>)
        ensures
            r == self.spec_host_class(),
    {
        self.host_class
    }
}

impl<'input> DecodeInto<'input> for NestHost<'input> {
    open spec fn spec_decode_into(decoder: Decoder<'input>) -> Result<NestHost<'input>, DecodeError> {
        let (r_host_class, d1) = <cpool::Index<cpool::Class> as Decode<'input>>::spec_decode(decoder);
        match r_host_class {
            Err(e) => Err(e),
            Ok(v_host_class) => {
                Ok(NestHost::spec_new(v_host_class))
            },
        }
    }

    fn decode_into(decoder: Decoder<'input>) -> (r: Result<NestHost<'input>, DecodeError>) {
        let mut decoder = decoder;
        let host_class: cpool::Index<cpool::Class> = match decoder.read() {
            Ok(v) => v,
            Err(e) => return Err(e),
        };
        Ok(NestHost { host_class, marker: PhantomData })
    }
}

/// The content of a `NestMembers` attribute.
pub type NestMembers<'input> = DecodeMany<'input, cpool::Index<cpool::Class>, u16>;

pub type NestMemberIter<'input> = DecodeManyIter<'input, cpool::Index<cpool::Class>, u16>;

/// The content of an `InnerClasses` attribute.
pub type InnerClasses<'input> = DecodeMany<'input, InnerClass<'input>, u16>;

pub type InnerClassIter<'input> = DecodeManyIter<'input, InnerClass<'input>, u16>;

/// An entry of the `InnerClasses` attribute.
#[derive(Debug, Clone, Copy)]
pub struct InnerClass<'input> {
    pub(crate) inner_class: cpool::Index<cpool::Class>,
    pub(crate) outer_class: Option<cpool::Index<cpool::Class>>,
    pub(crate) inner_name: Option<cpool::Index<cpool::Utf8<'input>>>,
    pub(crate) inner_access_flags: AccessFlags,
    pub(crate) marker: PhantomData<&'input ()>,
}

impl<'input> InnerClass<'input> {
    pub open(crate) spec fn spec_new(inner_class: cpool::Index<cpool::Class>, outer_class: Option<cpool::Index<cpool::Class>>, inner_name: Option<cpool::Index<cpool::Utf8<'input>>>, inner_access_flags: AccessFlags) -> InnerClass<'input> {
        InnerClass { inner_class, outer_class, inner_name, inner_access_flags, marker: PhantomData }
    }

    pub open(crate) spec fn spec_inner_class(self) -> cpool::Index<cpool::Class> {
        self.inner_class
    }

    pub open(crate) spec fn spec_outer_class(self) -> Option<cpool::Index<cpool::Class>> {
        self.outer_class
    }

    pub open(crate) spec fn spec_inner_name(self) -> Option<cpool::Index<cpool::Utf8<'input>>> {
        self.inner_name
    }

    pub open(crate) spec fn spec_inner_access_flags(self) -> AccessFlags {
        self.inner_access_flags
    }

    pub fn inner_class(&self) -> (r: cpool::Index<cpool::Class>)
        ensures
            r == self.spec_inner_class(),
    {
        self.inner_class
    }

    pub fn outer_class(&self) -> (r: Option<cpool::Index<cpool::Class>>)
        ensures
            r == self.spec_outer_class(),
    {
        self.outer_class
    }

    pub fn inner_name(&self) -> (r: Option<cpool::Index<cpool::Utf8<'input>>>)
        ensures
            r == self.spec_inner_name(),
    {
        self.inner_name
    }

    pub fn inner_access_flags(&self) -> (r: AccessFlags)
        ensures
            r == self.spec_inner_access_flags(),
    {
        self.inner_access_flags
    }
}

impl<'input> Decode<'input> for InnerClass<'input> {
    open spec fn spec_decode(decoder: Decoder<'input>) -> (Result<InnerClass<'input>, DecodeError>, Decoder<'input>) {
        let (r_inner_class, d1) = <cpool::Index<cpool::Class> as Decode<'input>>::spec_decode(decoder);
        match r_inner_class {
            Err(e) => (Err(e), d1),
            Ok(v_inner_class) => {
                let (r_outer_class, d2) = <Option<cpool::Index<cpool::Class>> as Decode<'input>>::spec_decode(d1);
                match r_outer_class {
                    Err(e) => (Err(e), d2),
                    Ok(v_outer_class) => {
                        let (r_inner_name, d3) = <Option<cpool::Index<cpool::Utf8<'input>>> as Decode<'input>>::spec_decode(d2);
                        match r_inner_name {
                            Err(e) => (Err(e), d3),
                            Ok(v_inner_name) => {
                                let (r_inner_access_flags, d4) = <AccessFlags as Decode<'input>>::spec_decode(d3);
                                match r_inner_access_flags {
                                    Err(e) => (Err(e), d4),
                                    Ok(v_inner_access_flags) => {
                                        (Ok(InnerClass::spec_new(v_inner_class, v_outer_class, v_inner_name, v_inner_access_flags)), d4)
                                    },
                                }
                            },
                        }
                    },
                }
            },
        }
    }

    fn decode(decoder: &mut Decoder<'input>) -> (r: Result<InnerClass<'input>, DecodeError>) {
        let inner_class: cpool::Index<cpool::Class> = match decoder.read() {
            Ok(v) => v,
            Err(e) => return Err(e),
        };
        let outer_class: Option<cpool::Index<cpool::Class>> = match decoder.read() {
            Ok(v) => v,
            Err(e) => return Err(e),
        };
        let inner_name: Option<cpool::Index<cpool::Utf8<'input>>> = match decoder.read() {
            Ok(v) => v,
            Err(e) => return Err(e),
        };
        let inner_access_flags: AccessFlags = match decoder.read() {
            Ok(v) => v,
            Err(e) => return Err(e),
        };
        Ok(InnerClass { inner_class, outer_class, inner_name, inner_access_flags, marker: PhantomData })
    }
}

/// The content of a `BootstrapMethods` attribute.
pub type BootstrapMethods<'input> = DecodeMany<'input, BootstrapMethod<'input>, u16>;

pub type BootstrapMethodIter<'input> = DecodeManyIter<'input, BootstrapMethod<'input>, u16>;

/// A bootstrap method and its static arguments.
#[derive(Debug, Clone, Copy)]
pub struct BootstrapMethod<'input> {
    pub(crate) method_ref: cpool::Index<cpool::MethodRef>,
    pub(crate) arguments: BootstrapArguments<'input>,
    pub(crate) marker: PhantomData<&'input ()>,
}

impl<'input> BootstrapMethod<'input> {
    pub open(crate) spec fn spec_new(method_ref: cpool::Index<cpool::MethodRef>, arguments: BootstrapArguments<'input>) -> BootstrapMethod<'input> {
        BootstrapMethod { method_ref, arguments, marker: PhantomData }
    }

    pub open(crate) spec fn spec_method_ref(self) -> cpool::Index<cpool::MethodRef> {
        self.method_ref
    }

    pub open(crate) spec fn spec_arguments(self) -> BootstrapArguments<'input> {
        self.arguments
    }

    pub fn method_ref(&self) -> (r: cpool::Index<cpool::MethodRef>)
        ensures
            r == self.spec_method_ref(),
    {
        self.method_ref
    }

    pub fn arguments(&self) -> (r: BootstrapArguments<'input>)
        ensures
            r == self.spec_arguments(),
    {
        self.arguments
    }
}

impl<'input> Decode<'input> for BootstrapMethod<'input> {
    open spec fn spec_decode(decoder: Decoder<'input>) -> (Result<BootstrapMethod<'input>, DecodeError>, Decoder<'input>) {
        let (r_method_ref, d1) = <cpool::Index<cpool::MethodRef> as Decode<'input>>::spec_decode(decoder);
        match r_method_ref {
            Err(e) => (Err(e), d1),
            Ok(v_method_ref) => {
                let (r_arguments, d2) = <BootstrapArguments<'input> as Decode<'input>>::spec_decode(d1);
                match r_arguments {
                    Err(e) => (Err(e), d2),
                    Ok(v_arguments) => {
                        (Ok(BootstrapMethod::spec_new(v_method_ref, v_arguments)), d2)
                    },
                }
            },
        }
    }

    fn decode(decoder: &mut Decoder<'input>) -> (r: Result<BootstrapMethod<'input>, DecodeError>) {
        let method_ref: cpool::Index<cpool::MethodRef> = match decoder.read() {
            Ok(v) => v,
            Err(e) => return Err(e),
        };
        let arguments: BootstrapArguments<'input> = match decoder.read() {
            Ok(v) => v,
            Err(e) => return Err(e),
        };
        Ok(BootstrapMethod { method_ref, arguments, marker: PhantomData })
    }
}

pub type BootstrapArguments<'input> = DecodeMany<'input, cpool::Index<cpool::MethodHandle>, u16>;

pub type BootstrapArgumentIter<'input> = DecodeManyIter<'input, cpool::Index<cpool::MethodHandle>, u16>;

/// The content of a `Record` attribute.
#[derive(Debug, Clone, Copy)]
pub struct Record<'input> {
    pub(crate) components: RecordComponents<'input>,
    pub(crate) marker: PhantomData<&'input ()>,
}

impl<'input> Record<'input> {
    pub open(crate) spec fn spec_new(components: RecordComponents<'input>) -> Record<'input> {
        Record { components, marker: PhantomData }
    }

    pub open(crate) spec fn spec_components(self) -> RecordComponents<'input> {
        self.components
    }

    pub fn components(&self) -> (r: RecordComponents<'input>)
        ensures
            r == self.spec_components(),
    {
        self.components
    }
}

impl<'input> DecodeInto<'input> for Record<'input> {
    open spec fn spec_decode_into(decoder: Decoder<'input>) -> Result<Record<'input>, DecodeError> {
        let (r_components, d1) = <RecordComponents<'input> as Decode<'input>>::spec_decode(decoder);
        match r_components {
            Err(e) => Err(e),
            Ok(v_components) => {
                Ok(Record::spec_new(v_components))
            },
        }
    }

    fn decode_into(decoder: Decoder<'input>) -> (r: Result<Record<'input>, DecodeError>) {
        let mut decoder = decoder;
        let components: RecordComponents<'input> = match decoder.read() {
            Ok(v) => v,
            Err(e) => return Err(e),
        };
        Ok(Record { components, marker: PhantomData })
    }
}

/// A component of a record.
#[derive(Debug, Clone, Copy)]
pub struct RecordComponent<'input> {
    pub(crate) name: cpool::Index<cpool::Utf8<'input>>,
    pub(crate) descriptor: cpool::Index<cpool::Utf8<'input>>,
    pub(crate) attributes: AttributeIter<'input>,
    pub(crate) marker: PhantomData<&'input ()>,
}

impl<'input> RecordComponent<'input> {
    pub open(crate) spec fn spec_new(name: cpool::Index<cpool::Utf8<'input>>, descriptor: cpool::Index<cpool::Utf8<'input>>, attributes: AttributeIter<'input>) -> RecordComponent<'input> {
        RecordComponent { name, descriptor, attributes, marker: PhantomData }
    }

    pub open(crate) spec fn spec_name(self) -> cpool::Index<cpool::Utf8<'input>> {
        self.name
    }

    pub open(crate) spec fn spec_descriptor(self) -> cpool::Index<cpool::Utf8<'input>> {
        self.descriptor
    }

    pub open(crate) spec fn spec_attributes(self) -> AttributeIter<'input> {
        self.attributes
    }

    pub fn name(&self) -> (r: cpool::Index<cpool::Utf8<'input>>)
        ensures
            r == self.spec_name(),
    {
        self.name
    }

    pub fn descriptor(&self) -> (r: cpool::Index<cpool::Utf8<'input>>)
        ensures
            r == self.spec_descriptor(),
    {
        self.descriptor
    }

    pub fn attributes(&self) -> (r: AttributeIter<'input>)
        ensures
            r == self.spec_attributes(),
    {
        self.attributes
    }
}

impl<'input> Decode<'input> for RecordComponent<'input> {
    open spec fn spec_decode(decoder: Decoder<'input>) -> (Result<RecordComponent<'input>, DecodeError>, Decoder<'input>) {
        let (r_name, d1) = <cpool::Index<cpool::Utf8<'input>> as Decode<'input>>::spec_decode(decoder);
        match r_name {
            Err(e) => (Err(e), d1),
            Ok(v_name) => {
                let (r_descriptor, d2) = <cpool::Index<cpool::Utf8<'input>> as Decode<'input>>::spec_decode(d1);
                match r_descriptor {
                    Err(e) => (Err(e), d2),
                    Ok(v_descriptor) => {
                        let (r_attributes, d3) = <AttributeIter<'input> as Decode<'input>>::spec_decode(d2);
                        match r_attributes {
                            Err(e) => (Err(e), d3),
                            Ok(v_attributes) => {
                                (Ok(RecordComponent::spec_new(v_name, v_descriptor, v_attributes)), d3)
                            },
                        }
                    },
                }
            },
        }
    }

    fn decode(decoder: &mut Decoder<'input>) -> (r: Result<RecordComponent<'input>, DecodeError>) {
        let name: cpool::Index<cpool::Utf8<'input>> = match decoder.read() {
            Ok(v) => v,
            Err(e) => return Err(e),
        };
        let descriptor: cpool::Index<cpool::Utf8<'input>> = match decoder.read() {
            Ok(v) => v,
            Err(e) => return Err(e),
        };
        let attributes: AttributeIter<'input> = match decoder.read() {
            Ok(v) => v,
            Err(e) => return Err(e),
        };
        Ok(RecordComponent { name, descriptor, attributes, marker: PhantomData })
    }
}

pub type RecordComponents<'input> = DecodeMany<'input, RecordComponent<'input>, u16>;

pub type RecordComponentIter<'input> = DecodeManyIter<'input, RecordComponent<'input>, u16>;

/// The content of a `PermittedSubclasses` attribute.
pub type PermittedSubclasses<'input> = DecodeMany<'input, cpool::Index<cpool::Class>, u16>;

pub type PermittedSubclassesIter<'input> = DecodeManyIter<'input, cpool::Index<cpool::Class>, u16>;

/// The first part of a record component (JVMS §4.7.30): the name index, then the descriptor
/// index, each a big-endian `u16`; its attributes follow.
pub proof fn lemma_record_component_layout<'input>(d: Decoder<'input>)
    requires
        d.in_bounds(),
        d.remaining() >= 4,
    ensures
        ({
            let b = d.bytes();
            let r = <RecordComponent<'input> as Decode<'input>>::spec_decode(d).0;
            r is Ok ==> r->Ok_0.spec_name() == cpool::Index::<cpool::Utf8<'input>>::spec_new((b[0] as nat * 256 + b[1] as nat) as u16)
                && r->Ok_0.spec_descriptor() == cpool::Index::<cpool::Utf8<'input>>::spec_new((b[2] as nat * 256 + b[3] as nat) as u16)
        }),
{
    let b = d.bytes();
    lemma_read_u16(d);
    let d2 = d.spec_advance(2);
    lemma_read_u16(d2);
    assert(d2.bytes()[0] == b[2] && d2.bytes()[1] == b[3]);
}

} // verus!
