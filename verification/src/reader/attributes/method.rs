//! The attributes of methods.

use crate::error::DecodeError;
use crate::header::AccessFlags;
use crate::reader::cpool;
use crate::reader::decoding::{lemma_read_u16, Decode, DecodeInto, DecodeMany, Decoder};
use core::marker::PhantomData;
use vstd::prelude::*;

verus! {

/// The content of an `Exceptions` attribute: the exceptions that a method declares.
#[derive(Debug, Clone, Copy)]
pub struct Exceptions<'input> {
    pub(crate) exceptions: DecodeMany<'input, cpool::Index<cpool::Class>, u16>,
    pub(crate) marker: PhantomData<&'input ()>,
}

impl<'input> Exceptions<'input> {
    pub open(crate) spec fn spec_new(exceptions: DecodeMany<'input, cpool::Index<cpool::Class>, u16>) -> Exceptions<'input> {
        Exceptions { exceptions, marker: PhantomData }
    }

    pub open(crate) spec fn spec_exceptions(self) -> DecodeMany<'input, cpool::Index<cpool::Class>, u16> {
        self.exceptions
    }

    pub fn exceptions(&self) -> (r: DecodeMany<'input, cpool::Index<cpool::Class>, u16>)
        ensures
            r == self.spec_exceptions(),
    {
        self.exceptions
    }
}

impl<'input> DecodeInto<'input> for Exceptions<'input> {
    open spec fn spec_decode_into(decoder: Decoder<'input>) -> Result<Exceptions<'input>, DecodeError> {
        let (r_exceptions, d1) = <DecodeMany<'input, cpool::Index<cpool::Class>, u16> as Decode<'input>>::spec_decode(decoder);
        match r_exceptions {
            Err(e) => Err(e),
            Ok(v_exceptions) => {
                Ok(Exceptions::spec_new(v_exceptions))
            },
        }
    }

    fn decode_into(decoder: Decoder<'input>) -> (r: Result<Exceptions<'input>, DecodeError>) {
        let mut decoder = decoder;
        let exceptions: DecodeMany<'input, cpool::Index<cpool::Class>, u16> = match decoder.read() {
            Ok(v) => v,
            Err(e) => return Err(e),
        };
        Ok(Exceptions { exceptions, marker: PhantomData })
    }
}

/// The content of a `MethodParameters` attribute.
#[derive(Debug, Clone, Copy)]
pub struct MethodParameters<'input> {
    pub(crate) parameters: DecodeMany<'input, MethodParameter<'input>, u8>,
    pub(crate) marker: PhantomData<&'input ()>,
}

impl<'input> MethodParameters<'input> {
    pub open(crate) spec fn spec_new(parameters: DecodeMany<'input, MethodParameter<'input>, u8>) -> MethodParameters<'input> {
        MethodParameters { parameters, marker: PhantomData }
    }

    pub open(crate) spec fn spec_parameters(self) -> DecodeMany<'input, MethodParameter<'input>, u8> {
        self.parameters
    }

    pub fn parameters(&self) -> (r: DecodeMany<'input, MethodParameter<'input>, u8>)
        ensures
            r == self.spec_parameters(),
    {
        self.parameters
    }
}

impl<'input> DecodeInto<'input> for MethodParameters<'input> {
    open spec fn spec_decode_into(decoder: Decoder<'input>) -> Result<MethodParameters<'input>, DecodeError> {
        let (r_parameters, d1) = <DecodeMany<'input, MethodParameter<'input>, u8> as Decode<'input>>::spec_decode(decoder);
        match r_parameters {
            Err(e) => Err(e),
            Ok(v_parameters) => {
                Ok(MethodParameters::spec_new(v_parameters))
            },
        }
    }

    fn decode_into(decoder: Decoder<'input>) -> (r: Result<MethodParameters<'input>, DecodeError>) {
        let mut decoder = decoder;
        let parameters: DecodeMany<'input, MethodParameter<'input>, u8> = match decoder.read() {
            Ok(v) => v,
            Err(e) => return Err(e),
        };
        Ok(MethodParameters { parameters, marker: PhantomData })
    }
}

/// A parameter of a method.
#[derive(Debug, Clone, Copy)]
pub struct MethodParameter<'input> {
    pub(crate) name: cpool::Index<cpool::Utf8<'input>>,
    pub(crate) access_flags: AccessFlags,
    pub(crate) marker: PhantomData<&'input ()>,
}

impl<'input> MethodParameter<'input> {
    pub open(crate) spec fn spec_new(name: cpool::Index<cpool::Utf8<'input>>, access_flags: AccessFlags) -> MethodParameter<'input> {
        MethodParameter { name, access_flags, marker: PhantomData }
    }

    pub open(crate) spec fn spec_name(self) -> cpool::Index<cpool::Utf8<'input>> {
        self.name
    }

    pub open(crate) spec fn spec_access_flags(self) -> AccessFlags {
        self.access_flags
    }

    pub fn name(&self) -> (r: cpool::Index<cpool::Utf8<'input>>)
        ensures
            r == self.spec_name(),
    {
        self.name
    }

    pub fn access_flags(&self) -> (r: AccessFlags)
        ensures
            r == self.spec_access_flags(),
    {
        self.access_flags
    }
}

impl<'input> Decode<'input> for MethodParameter<'input> {
    open spec fn spec_decode(decoder: Decoder<'input>) -> (Result<MethodParameter<'input>, DecodeError>, Decoder<'input>) {
        let (r_name, d1) = <cpool::Index<cpool::Utf8<'input>> as Decode<'input>>::spec_decode(decoder);
        match r_name {
            Err(e) => (Err(e), d1),
            Ok(v_name) => {
                let (r_access_flags, d2) = <AccessFlags as Decode<'input>>::spec_decode(d1);
                match r_access_flags {
                    Err(e) => (Err(e), d2),
                    Ok(v_access_flags) => {
                        (Ok(MethodParameter::spec_new(v_name, v_access_flags)), d2)
                    },
                }
            },
        }
    }

    fn decode(decoder: &mut Decoder<'input>) -> (r: Result<MethodParameter<'input>, DecodeError>) {
        let name: cpool::Index<cpool::Utf8<'input>> = match decoder.read() {
            Ok(v) => v,
            Err(e) => return Err(e),
        };
        let access_flags: AccessFlags = match decoder.read() {
            Ok(v) => v,
            Err(e) => return Err(e),
        };
        Ok(MethodParameter { name, access_flags, marker: PhantomData })
    }
}

/// The layout of a `MethodParameters` entry (JVMS §4.7.24): the name index, then the access
/// flags, each a big-endian `u16`.
pub proof fn lemma_method_parameter_layout<'input>(d: Decoder<'input>)
    requires
        d.in_bounds(),
        d.remaining() >= 4,
    ensures
        ({
            let b = d.bytes();
            let (r, after) = <MethodParameter<'input> as Decode<'input>>::spec_decode(d);
            (b[0] as nat * 256 + b[1] as nat) as u16 != 0 ==> {
                &&& r is Ok
                &&& after == d.spec_advance(4)
                &&& r->Ok_0.spec_name() == cpool::Index::<cpool::Utf8<'input>>::spec_new((b[0] as nat * 256 + b[1] as nat) as u16)
                &&& r->Ok_0.spec_access_flags().spec_bits() == (b[2] as nat * 256 + b[3] as nat) as u16
            }
        }),
{
    let b = d.bytes();
    lemma_read_u16(d);
    let d2 = d.spec_advance(2);
    lemma_read_u16(d2);
    assert(d2.bytes()[0] == b[2] && d2.bytes()[1] == b[3]);
    assert(d2.spec_advance(2) == d.spec_advance(4));
}

} // verus!
