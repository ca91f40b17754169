//! The attributes that carry debugging information.

use crate::error::DecodeError;
use crate::mutf8::MStr;
use crate::reader::cpool;
use crate::reader::decoding::{Decode, DecodeInto, Decoder};
use core::marker::PhantomData;
use vstd::prelude::*;

verus! {

/// The content of a `Deprecated` attribute, which is empty.
#[derive(Debug, Clone, Copy)]
pub struct Deprecated<'input> {
    pub(crate) marker: PhantomData<&'input ()>,
}

impl<'input> Deprecated<'input> {
    pub open(crate) spec fn spec_new() -> Deprecated<'input> {
        Deprecated { marker: PhantomData }
    }
}

impl<'input> DecodeInto<'input> for Deprecated<'input> {
    open spec fn spec_decode_into(decoder: Decoder<'input>) -> Result<Deprecated<'input>, DecodeError> {
        Ok(Deprecated::spec_new())
    }

    fn decode_into(decoder: Decoder<'input>) -> (r: Result<Deprecated<'input>, DecodeError>) {
        Ok(Deprecated { marker: PhantomData })
    }
}

/// The content of a `Signature` attribute.
#[derive(Debug, Clone, Copy)]
pub struct Signature<'input> {
    pub(crate) signature: cpool::Index<cpool::Utf8<'input>>,
    pub(crate) marker: PhantomData<&'input ()>,
}

impl<'input> Signature<'input> {
    pub open(crate) spec fn spec_new(signature: cpool::Index<cpool::Utf8<'input>>) -> Signature<'input> {
        Signature { signature, marker: PhantomData }
    }

    pub open(crate) spec fn spec_signature(self) -> cpool::Index<cpool::Utf8<'input>> {
        self.signature
    }

    pub fn signature(&self) -> (r: cpool::Index<cpool::Utf8<'input>>)
        ensures
            r == self.spec_signature(),
    {
        self.signature
    }
}

impl<'input> DecodeInto<'input> for Signature<'input> {
    open spec fn spec_decode_into(decoder: Decoder<'input>) -> Result<Signature<'input>, DecodeError> {
        let (r_signature, d1) = <cpool::Index<cpool::Utf8<'input>> as Decode<'input>>::spec_decode(decoder);
        match r_signature {
            Err(e) => Err(e),
            Ok(v_signature) => {
                Ok(Signature::spec_new(v_signature))
            },
        }
    }

    fn decode_into(decoder: Decoder<'input>) -> (r: Result<Signature<'input>, DecodeError>) {
        let mut decoder = decoder;
        let signature: cpool::Index<cpool::Utf8<'input>> = match decoder.read() {
            Ok(v) => v,
            Err(e) => return Err(e),
        };
        Ok(Signature { signature, marker: PhantomData })
    }
}

/// The content of a `SourceFile` attribute.
#[derive(Debug, Clone, Copy)]
pub struct SourceFile<'input> {
    pub(crate) source_file: cpool::Index<cpool::Utf8<'input>>,
    pub(crate) marker: PhantomData<&'input ()>,
}

impl<'input> SourceFile<'input> {
    pub open(crate) spec fn spec_new(source_file: cpool::Index<cpool::Utf8<'input>>) -> SourceFile<'input> {
        SourceFile { source_file, marker: PhantomData }
    }

    pub open(crate) spec fn spec_source_file(self) -> cpool::Index<cpool::Utf8<'input>> {
        self.source_file
    }

    pub fn source_file(&self) -> (r: cpool::Index<cpool::Utf8<'input>>)
        ensures
            r == self.spec_source_file(),
    {
        self.source_file
    }
}

impl<'input> DecodeInto<'input> for SourceFile<'input> {
    open spec fn spec_decode_into(decoder: Decoder<'input>) -> Result<SourceFile<'input>, DecodeError> {
        let (r_source_file, d1) = <cpool::Index<cpool::Utf8<'input>> as Decode<'input>>::spec_decode(decoder);
        match r_source_file {
            Err(e) => Err(e),
            Ok(v_source_file) => {
                Ok(SourceFile::spec_new(v_source_file))
            },
        }
    }

    fn decode_into(decoder: Decoder<'input>) -> (r: Result<SourceFile<'input>, DecodeError>) {
        let mut decoder = decoder;
        let source_file: cpool::Index<cpool::Utf8<'input>> = match decoder.read() {
            Ok(v) => v,
            Err(e) => return Err(e),
        };
        Ok(SourceFile { source_file, marker: PhantomData })
    }
}

/// The content of a `SourceDebugExtension` attribute.
#[derive(Debug, Clone, Copy)]
pub struct SourceDebugExtension<'input> {
    pub(crate) content: MStr<'input>,
}

impl<'input> SourceDebugExtension<'input> {
    pub open(crate) spec fn spec_new(content: MStr<'input>) -> SourceDebugExtension<'input> {
        SourceDebugExtension { content }
    }

    pub open(crate) spec fn spec_content(self) -> MStr<'input> {
        self.content
    }

    pub fn content(&self) -> (r: MStr<'input>)
        ensures
            r == self.spec_content(),
    {
        self.content
    }
}

impl<'input> DecodeInto<'input> for SourceDebugExtension<'input> {
    /// Takes the whole content as a modified UTF-8 string.
    open spec fn spec_decode_into(decoder: Decoder<'input>) -> Result<SourceDebugExtension<'input>, DecodeError> {
        match decoder.spec_split_mstr(decoder.remaining()).0 {
            Ok(content) => Ok(SourceDebugExtension::spec_new(content)),
            Err(e) => Err(e),
        }
    }

    fn decode_into(decoder: Decoder<'input>) -> (r: Result<SourceDebugExtension<'input>, DecodeError>) {
        let mut decoder = decoder;
        let length = decoder.bytes_remaining();
        match decoder.split_mstr(length) {
            Ok(content) => Ok(SourceDebugExtension { content }),
            Err(e) => Err(e),
        }
    }
}

/// The content of a `Synthetic` attribute, which is empty.
#[derive(Debug, Clone, Copy)]
pub struct Synthetic<'input> {
    pub(crate) marker: PhantomData<&'input ()>,
}

impl<'input> Synthetic<'input> {
    pub open(crate) spec fn spec_new() -> Synthetic<'input> {
        Synthetic { marker: PhantomData }
    }
}

impl<'input> DecodeInto<'input> for Synthetic<'input> {
    open spec fn spec_decode_into(decoder: Decoder<'input>) -> Result<Synthetic<'input>, DecodeError> {
        Ok(Synthetic::spec_new())
    }

    fn decode_into(decoder: Decoder<'input>) -> (r: Result<Synthetic<'input>, DecodeError>) {
        Ok(Synthetic { marker: PhantomData })
    }
}

} // verus!
