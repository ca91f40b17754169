//! The attributes that hold annotations.

pub mod annotation;
pub mod type_annotation;

pub use annotation::{
    Annotation, AnnotationIter, Annotations, ElementArray, ElementArrayIter, ElementValue, ElementValuePair,
    ElementValuePairIter, ParameterAnnotationIter, ParameterAnnotations,
};
pub use type_annotation::{
    LocalVariable, LocalVariableTargetIter, LocalVariableTargetTable, SuperTypeIndex, TargetInfo, TargetType,
    TypeAnnotation, TypeAnnotationIter, TypeAnnotations, TypePath, TypePathSegment, TypePathSegmentIter,
    TypePathSegmentKind,
};

use crate::error::DecodeError;
use crate::reader::decoding::{Decode, DecodeInto, DecodeMany, Decoder};
use core::marker::PhantomData;
use vstd::prelude::*;

verus! {

/// The content of an `AnnotationDefault` attribute: the default value of an annotation's element.
#[derive(Debug, Clone, Copy)]
pub struct AnnotationDefault<'input> {
    pub(crate) value: ElementValue<'input>,
    pub(crate) marker: PhantomData<&'input ()>,
}

impl<'input> AnnotationDefault<'input> {
    pub open(crate) spec fn spec_new(value: ElementValue<'input>) -> AnnotationDefault<'input> {
        AnnotationDefault { value, marker: PhantomData }
    }

    pub open(crate) spec fn spec_value(self) -> ElementValue<'input> {
        self.value
    }

    pub fn value(&self) -> (r: ElementValue<'input>)
        ensures
            r == self.spec_value(),
    {
        self.value
    }
}

impl<'input> DecodeInto<'input> for AnnotationDefault<'input> {
    open spec fn spec_decode_into(decoder: Decoder<'input>) -> Result<AnnotationDefault<'input>, DecodeError> {
        let (r_value, d1) = <ElementValue<'input> as Decode<'input>>::spec_decode(decoder);
        match r_value {
            Err(e) => Err(e),
            Ok(v_value) => {
                Ok(AnnotationDefault::spec_new(v_value))
            },
        }
    }

    fn decode_into(decoder: Decoder<'input>) -> (r: Result<AnnotationDefault<'input>, DecodeError>) {
        let mut decoder = decoder;
        let value: ElementValue<'input> = match decoder.read() {
            Ok(v) => v,
            Err(e) => return Err(e),
        };
        Ok(AnnotationDefault { value, marker: PhantomData })
    }
}

/// The content of a `RuntimeInvisibleAnnotations` attribute.
#[derive(Debug, Clone, Copy)]
pub struct RuntimeInvisibleAnnotations<'input> {
    pub(crate) annotations: DecodeMany<'input, Annotation<'input>, u16>,
    pub(crate) marker: PhantomData<&'input ()>,
}

impl<'input> RuntimeInvisibleAnnotations<'input> {
    pub open(crate) spec fn spec_new(annotations: DecodeMany<'input, Annotation<'input>, u16>) -> RuntimeInvisibleAnnotations<'input> {
        RuntimeInvisibleAnnotations { annotations, marker: PhantomData }
    }

    pub open(crate) spec fn spec_annotations(self) -> DecodeMany<'input, Annotation<'input>, u16> {
        self.annotations
    }

    pub fn annotations(&self) -> (r: DecodeMany<'input, Annotation<'input>, u16>)
        ensures
            r == self.spec_annotations(),
    {
        self.annotations
    }
}

impl<'input> DecodeInto<'input> for RuntimeInvisibleAnnotations<'input> {
    open spec fn spec_decode_into(decoder: Decoder<'input>) -> Result<RuntimeInvisibleAnnotations<'input>, DecodeError> {
        let (r_annotations, d1) = <DecodeMany<'input, Annotation<'input>, u16> as Decode<'input>>::spec_decode(decoder);
        match r_annotations {
            Err(e) => Err(e),
            Ok(v_annotations) => {
                Ok(RuntimeInvisibleAnnotations::spec_new(v_annotations))
            },
        }
    }

    fn decode_into(decoder: Decoder<'input>) -> (r: Result<RuntimeInvisibleAnnotations<'input>, DecodeError>) {
        let mut decoder = decoder;
        let annotations: DecodeMany<'input, Annotation<'input>, u16> = match decoder.read() {
            Ok(v) => v,
            Err(e) => return Err(e),
        };
        Ok(RuntimeInvisibleAnnotations { annotations, marker: PhantomData })
    }
}

/// The content of a `RuntimeInvisibleParameterAnnotations` attribute.
#[derive(Debug, Clone, Copy)]
pub struct RuntimeInvisibleParameterAnnotations<'input> {
    pub(crate) annotations: DecodeMany<'input, Annotation<'input>, u8>,
    pub(crate) marker: PhantomData<&'input ()>,
}

impl<'input> RuntimeInvisibleParameterAnnotations<'input> {
    pub open(crate) spec fn spec_new(annotations: DecodeMany<'input, Annotation<'input>, u8>) -> RuntimeInvisibleParameterAnnotations<'input> {
        RuntimeInvisibleParameterAnnotations { annotations, marker: PhantomData }
    }

    pub open(crate) spec fn spec_annotations(self) -> DecodeMany<'input, Annotation<'input>, u8> {
        self.annotations
    }

    pub fn annotations(&self) -> (r: DecodeMany<'input, Annotation<'input>, u8>)
        ensures
            r == self.spec_annotations(),
    {
        self.annotations
    }
}

impl<'input> DecodeInto<'input> for RuntimeInvisibleParameterAnnotations<'input> {
    open spec fn spec_decode_into(decoder: Decoder<'input>) -> Result<RuntimeInvisibleParameterAnnotations<'input>, DecodeError> {
        let (r_annotations, d1) = <DecodeMany<'input, Annotation<'input>, u8> as Decode<'input>>::spec_decode(decoder);
        match r_annotations {
            Err(e) => Err(e),
            Ok(v_annotations) => {
                Ok(RuntimeInvisibleParameterAnnotations::spec_new(v_annotations))
            },
        }
    }

    fn decode_into(decoder: Decoder<'input>) -> (r: Result<RuntimeInvisibleParameterAnnotations<'input>, DecodeError>) {
        let mut decoder = decoder;
        let annotations: DecodeMany<'input, Annotation<'input>, u8> = match decoder.read() {
            Ok(v) => v,
            Err(e) => return Err(e),
        };
        Ok(RuntimeInvisibleParameterAnnotations { annotations, marker: PhantomData })
    }
}

/// The content of a `RuntimeInvisibleTypeAnnotations` attribute.
#[derive(Debug, Clone, Copy)]
pub struct RuntimeInvisibleTypeAnnotations<'input> {
    pub(crate) annotations: DecodeMany<'input, TypeAnnotation<'input>, u16>,
    pub(crate) marker: PhantomData<&'input ()>,
}

impl<'input> RuntimeInvisibleTypeAnnotations<'input> {
    pub open(crate) spec fn spec_new(annotations: DecodeMany<'input, TypeAnnotation<'input>, u16>) -> RuntimeInvisibleTypeAnnotations<'input> {
        RuntimeInvisibleTypeAnnotations { annotations, marker: PhantomData }
    }

    pub open(crate) spec fn spec_annotations(self) -> DecodeMany<'input, TypeAnnotation<'input>, u16> {
        self.annotations
    }

    pub fn annotations(&self) -> (r: DecodeMany<'input, TypeAnnotation<'input>, u16>)
        ensures
            r == self.spec_annotations(),
    {
        self.annotations
    }
}

impl<'input> DecodeInto<'input> for RuntimeInvisibleTypeAnnotations<'input> {
    open spec fn spec_decode_into(decoder: Decoder<'input>) -> Result<RuntimeInvisibleTypeAnnotations<'input>, DecodeError> {
        let (r_annotations, d1) = <DecodeMany<'input, TypeAnnotation<'input>, u16> as Decode<'input>>::spec_decode(decoder);
        match r_annotations {
            Err(e) => Err(e),
            Ok(v_annotations) => {
                Ok(RuntimeInvisibleTypeAnnotations::spec_new(v_annotations))
            },
        }
    }

    fn decode_into(decoder: Decoder<'input>) -> (r: Result<RuntimeInvisibleTypeAnnotations<'input>, DecodeError>) {
        let mut decoder = decoder;
        let annotations: DecodeMany<'input, TypeAnnotation<'input>, u16> = match decoder.read() {
            Ok(v) => v,
            Err(e) => return Err(e),
        };
        Ok(RuntimeInvisibleTypeAnnotations { annotations, marker: PhantomData })
    }
}

/// The content of a `RuntimeVisibleAnnotations` attribute.
#[derive(Debug, Clone, Copy)]
pub struct RuntimeVisibleAnnotations<'input> {
    pub(crate) annotations: DecodeMany<'input, Annotation<'input>, u16>,
    pub(crate) marker: PhantomData<&'input ()>,
}

impl<'input> RuntimeVisibleAnnotations<'input> {
    pub open(crate) spec fn spec_new(annotations: DecodeMany<'input, Annotation<'input>, u16>) -> RuntimeVisibleAnnotations<'input> {
        RuntimeVisibleAnnotations { annotations, marker: PhantomData }
    }

    pub open(crate) spec fn spec_annotations(self) -> DecodeMany<'input, Annotation<'input>, u16> {
        self.annotations
    }

    pub fn annotations(&self) -> (r: DecodeMany<'input, Annotation<'input>, u16>)
        ensures
            r == self.spec_annotations(),
    {
        self.annotations
    }
}

impl<'input> DecodeInto<'input> for RuntimeVisibleAnnotations<'input> {
    open spec fn spec_decode_into(decoder: Decoder<'input>) -> Result<RuntimeVisibleAnnotations<'input>, DecodeError> {
        let (r_annotations, d1) = <DecodeMany<'input, Annotation<'input>, u16> as Decode<'input>>::spec_decode(decoder);
        match r_annotations {
            Err(e) => Err(e),
            Ok(v_annotations) => {
                Ok(RuntimeVisibleAnnotations::spec_new(v_annotations))
            },
        }
    }

    fn decode_into(decoder: Decoder<'input>) -> (r: Result<RuntimeVisibleAnnotations<'input>, DecodeError>) {
        let mut decoder = decoder;
        let annotations: DecodeMany<'input, Annotation<'input>, u16> = match decoder.read() {
            Ok(v) => v,
            Err(e) => return Err(e),
        };
        Ok(RuntimeVisibleAnnotations { annotations, marker: PhantomData })
    }
}

/// The content of a `RuntimeVisibleParameterAnnotations` attribute.
#[derive(Debug, Clone, Copy)]
pub struct RuntimeVisibleParameterAnnotations<'input> {
    pub(crate) annotations: DecodeMany<'input, Annotation<'input>, u8>,
    pub(crate) marker: PhantomData<&'input ()>,
}

impl<'input> RuntimeVisibleParameterAnnotations<'input> {
    pub open(crate) spec fn spec_new(annotations: DecodeMany<'input, Annotation<'input>, u8>) -> RuntimeVisibleParameterAnnotations<'input> {
        RuntimeVisibleParameterAnnotations { annotations, marker: PhantomData }
    }

    pub open(crate) spec fn spec_annotations(self) -> DecodeMany<'input, Annotation<'input>, u8> {
        self.annotations
    }

    pub fn annotations(&self) -> (r: DecodeMany<'input, Annotation<'input>, u8>)
        ensures
            r == self.spec_annotations(),
    {
        self.annotations
    }
}

impl<'input> DecodeInto<'input> for RuntimeVisibleParameterAnnotations<'input> {
    open spec fn spec_decode_into(decoder: Decoder<'input>) -> Result<RuntimeVisibleParameterAnnotations<'input>, DecodeError> {
        let (r_annotations, d1) = <DecodeMany<'input, Annotation<'input>, u8> as Decode<'input>>::spec_decode(decoder);
        match r_annotations {
            Err(e) => Err(e),
            Ok(v_annotations) => {
                Ok(RuntimeVisibleParameterAnnotations::spec_new(v_annotations))
            },
        }
    }

    fn decode_into(decoder: Decoder<'input>) -> (r: Result<RuntimeVisibleParameterAnnotations<'input>, DecodeError>) {
        let mut decoder = decoder;
        let annotations: DecodeMany<'input, Annotation<'input>, u8> = match decoder.read() {
            Ok(v) => v,
            Err(e) => return Err(e),
        };
        Ok(RuntimeVisibleParameterAnnotations { annotations, marker: PhantomData })
    }
}

/// The content of a `RuntimeVisibleTypeAnnotations` attribute.
#[derive(Debug, Clone, Copy)]
pub struct RuntimeVisibleTypeAnnotations<'input> {
    pub(crate) annotations: DecodeMany<'input, TypeAnnotation<'input>, u16>,
    pub(crate) marker: PhantomData<&'input ()>,
}

impl<'input> RuntimeVisibleTypeAnnotations<'input> {
    pub open(crate) spec fn spec_new(annotations: DecodeMany<'input, TypeAnnotation<'input>, u16>) -> RuntimeVisibleTypeAnnotations<'input> {
        RuntimeVisibleTypeAnnotations { annotations, marker: PhantomData }
    }

    pub open(crate) spec fn spec_annotations(self) -> DecodeMany<'input, TypeAnnotation<'input>, u16> {
        self.annotations
    }

    pub fn annotations(&self) -> (r: DecodeMany<'input, TypeAnnotation<'input>, u16>)
        ensures
            r == self.spec_annotations(),
    {
        self.annotations
    }
}

impl<'input> DecodeInto<'input> for RuntimeVisibleTypeAnnotations<'input> {
    open spec fn spec_decode_into(decoder: Decoder<'input>) -> Result<RuntimeVisibleTypeAnnotations<'input>, DecodeError> {
        let (r_annotations, d1) = <DecodeMany<'input, TypeAnnotation<'input>, u16> as Decode<'input>>::spec_decode(decoder);
        match r_annotations {
            Err(e) => Err(e),
            Ok(v_annotations) => {
                Ok(RuntimeVisibleTypeAnnotations::spec_new(v_annotations))
            },
        }
    }

    fn decode_into(decoder: Decoder<'input>) -> (r: Result<RuntimeVisibleTypeAnnotations<'input>, DecodeError>) {
        let mut decoder = decoder;
        let annotations: DecodeMany<'input, TypeAnnotation<'input>, u16> = match decoder.read() {
            Ok(v) => v,
            Err(e) => return Err(e),
        };
        Ok(RuntimeVisibleTypeAnnotations { annotations, marker: PhantomData })
    }
}

} // verus!
