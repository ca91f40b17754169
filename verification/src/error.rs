//! The errors that reading a class file can end in.

use crate::reader::decoding::Decoder;
use crate::text::{decimal, push_decimal, push_str};
use vstd::prelude::*;

verus! {

/// What went wrong while decoding.
#[derive(Debug, Clone, Copy, PartialEq, Eq, Structural)]
#[non_exhaustive]
pub enum DecodeErrorKind {
    UnexpectedEoi,
    InvalidPrefix,
    InvalidMutf8,
    InvalidIndex,
    InvalidLength,
    TagMismatch,
    TagReserved,
    InvalidTag,
    InvalidDescriptor,
    UnknownAttributeName,
    InvalidInstruction,
    AttributeNotFound,
}

impl DecodeErrorKind {
    /// A human readable description of the error kind.
    pub fn message(&self) -> (r: &'static str)
        ensures
            r@ == spec_decode_error_message(*self),
    {
        match self {
            DecodeErrorKind::UnexpectedEoi => "unexpected end of input",
            DecodeErrorKind::InvalidPrefix => "invalid file prefix",
            DecodeErrorKind::InvalidMutf8 => "invalid modified utf8",
            DecodeErrorKind::InvalidIndex => "invalid index into a table or the constant pool",
            DecodeErrorKind::InvalidLength => "invalid length of a table or the constant pool",
            DecodeErrorKind::TagMismatch => "tag mismatch",
            DecodeErrorKind::TagReserved => "tag reserved",
            DecodeErrorKind::InvalidTag => "invalid tag",
            DecodeErrorKind::InvalidDescriptor => "invalid descriptor",
            DecodeErrorKind::UnknownAttributeName => "unknown attribute name",
            DecodeErrorKind::InvalidInstruction => "invalid instruction",
            DecodeErrorKind::AttributeNotFound => "attribute was not found",
        }
    }
}

/// The description that [`DecodeErrorKind::message`] gives for each kind.
pub open spec fn spec_decode_error_message(kind: DecodeErrorKind) -> Seq<char> {
    match kind {
        DecodeErrorKind::UnexpectedEoi => "unexpected end of input"@,
        DecodeErrorKind::InvalidPrefix => "invalid file prefix"@,
        DecodeErrorKind::InvalidMutf8 => "invalid modified utf8"@,
        DecodeErrorKind::InvalidIndex => "invalid index into a table or the constant pool"@,
        DecodeErrorKind::InvalidLength => "invalid length of a table or the constant pool"@,
        DecodeErrorKind::TagMismatch => "tag mismatch"@,
        DecodeErrorKind::TagReserved => "tag reserved"@,
        DecodeErrorKind::InvalidTag => "invalid tag"@,
        DecodeErrorKind::InvalidDescriptor => "invalid descriptor"@,
        DecodeErrorKind::UnknownAttributeName => "unknown attribute name"@,
        DecodeErrorKind::InvalidInstruction => "invalid instruction"@,
        DecodeErrorKind::AttributeNotFound => "attribute was not found"@,
    }
}

/// An error that occurred while decoding a class file.
#[derive(Debug, Clone, Copy, PartialEq, Eq, Structural)]
pub struct DecodeError {
    pub(crate) kind: DecodeErrorKind,
    pub(crate) position: Option<usize>,
    pub(crate) context: Context,
}

/// The error value with the given kind, position and context.
pub open(crate) spec fn spec_error(kind: DecodeErrorKind, position: Option<usize>, context: Context) -> DecodeError {
    DecodeError { kind, position, context }
}

impl DecodeError {
    pub open(crate) spec fn spec_kind(self) -> DecodeErrorKind {
        self.kind
    }

    pub open(crate) spec fn spec_position(self) -> Option<usize> {
        self.position
    }

    pub open(crate) spec fn spec_context(self) -> Context {
        self.context
    }

    /// An error without position and context.
    pub(crate) fn new(kind: DecodeErrorKind) -> (r: DecodeError)
        ensures
            r == spec_error(kind, None, Context::NoContext),
    {
        DecodeError { kind, position: None, context: Context::NoContext }
    }

    /// An error with a context but without position.
    pub(crate) fn with_context(kind: DecodeErrorKind, context: Context) -> (r: DecodeError)
        ensures
            r == spec_error(kind, None, context),
    {
        DecodeError { kind, position: None, context }
    }

    /// An error with position and context.
    pub(crate) fn with_info(kind: DecodeErrorKind, position: usize, context: Context) -> (r: DecodeError)
        ensures
            r == spec_error(kind, Some(position), context),
    {
        DecodeError { kind, position: Some(position), context }
    }

    /// An error at the decoder's position, in its context.
    pub(crate) fn from_decoder(kind: DecodeErrorKind, decoder: &Decoder<'_>) -> (r: DecodeError)
        ensures
            r == decoder.error_here(kind),
    {
        DecodeError { kind, position: Some(decoder.file_position()), context: decoder.context() }
    }

    pub fn kind(&self) -> (r: DecodeErrorKind)
        ensures
            r == self.spec_kind(),
    {
        self.kind
    }

    /// The absolute byte position at which the error occurred.
    pub fn position(&self) -> (r: Option<usize>)
        ensures
            r == self.spec_position(),
    {
        self.position
    }

    pub fn context(&self) -> (r: Context)
        ensures
            r == self.spec_context(),
    {
        self.context
    }
}

/// What went wrong while encoding.
#[derive(Debug)]
#[non_exhaustive]
pub enum EncodeErrorKind {
    TooManyItems,
    TooManyBytes,
    StringTooLong,
    ValuesMissing,
    CantChangeAnymore,
    ErroredBefore,
    IndexNotFitting,
    LabelNotFound,
    LabelTooFar,
    NegativeOffset,
    IncorrectBounds,
    InvalidKeyOrder,
    /// Some other error, described by its message.
    Other(String),
}

/// An error that occurred while encoding a class file.
#[derive(Debug)]
pub struct EncodeError {
    pub(crate) kind: EncodeErrorKind,
    pub(crate) context: Context,
}

impl EncodeError {
    pub open(crate) spec fn spec_kind(&self) -> &EncodeErrorKind {
        &self.kind
    }

    pub open(crate) spec fn spec_context(&self) -> Context {
        self.context
    }

    /// An error of kind [`EncodeErrorKind::Other`] that carries the message of another error.
    pub fn from_err(message: String, context: Context) -> (r: EncodeError)
        ensures
            r.spec_kind() matches EncodeErrorKind::Other(m) && m@ == message@,
            r.spec_context() == context,
    {
        EncodeError { kind: EncodeErrorKind::Other(message), context }
    }

    pub(crate) fn with_context(kind: EncodeErrorKind, context: Context) -> (r: EncodeError)
        ensures
            *r.spec_kind() == kind,
            r.spec_context() == context,
    {
        EncodeError { kind, context }
    }

    pub fn kind(&self) -> (r: &EncodeErrorKind)
        ensures
            r == self.spec_kind(),
    {
        &self.kind
    }

    pub fn context(&self) -> (r: Context)
        ensures
            r == self.spec_context(),
    {
        self.context
    }
}

/// The context in which a error occurred in.
#[derive(Debug, Clone, Copy, PartialEq, Eq, Structural)]
#[non_exhaustive]
pub enum Context {
    /// No context.
    NoContext,
    /// Either the `0xCAFEBABE` prefix or the major and minor versions.
    Start,
    ConstantPool,
    ClassInfo,
    Interfaces,
    Fields,
    Methods,
    Attributes,
    AttributeContent,
    Code,
}

/// The description that [`EncodeErrorKind::message`] gives for each kind.
pub open spec fn spec_encode_error_message(kind: &EncodeErrorKind) -> Seq<char> {
    match kind {
        EncodeErrorKind::TooManyItems => "too many items"@,
        EncodeErrorKind::TooManyBytes => "too many bytes"@,
        EncodeErrorKind::StringTooLong => "string is too long"@,
        EncodeErrorKind::ValuesMissing => "some values are missing"@,
        EncodeErrorKind::CantChangeAnymore => "can't change some values anymore"@,
        EncodeErrorKind::ErroredBefore => "some error occured in this data structure before"@,
        EncodeErrorKind::IndexNotFitting => "the index does not fit into this instruction"@,
        EncodeErrorKind::LabelNotFound => "label was not found"@,
        EncodeErrorKind::LabelTooFar => "label is not close enough to jump point, code start or -- in the case of the stack map table -- the previous label"@,
        EncodeErrorKind::NegativeOffset => "the previous label points to a greater offset than the current label"@,
        EncodeErrorKind::IncorrectBounds => "incorrect bounds (low > high)"@,
        EncodeErrorKind::InvalidKeyOrder => "the keys in the lookupswitch instruction must be in an increasing numerical order"@,
        EncodeErrorKind::Other(message) => "other: "@ + message@,
    }
}

impl EncodeErrorKind {
    /// A human readable description of the error kind.
    pub fn message(&self) -> (r: String)
        ensures
            r@ == spec_encode_error_message(self),
    {
        let mut out = String::new();
        match self {
            EncodeErrorKind::TooManyItems => push_str(&mut out, "too many items"),
            EncodeErrorKind::TooManyBytes => push_str(&mut out, "too many bytes"),
            EncodeErrorKind::StringTooLong => push_str(&mut out, "string is too long"),
            EncodeErrorKind::ValuesMissing => push_str(&mut out, "some values are missing"),
            EncodeErrorKind::CantChangeAnymore => push_str(&mut out, "can't change some values anymore"),
            EncodeErrorKind::ErroredBefore => push_str(&mut out, "some error occured in this data structure before"),
            EncodeErrorKind::IndexNotFitting => push_str(&mut out, "the index does not fit into this instruction"),
            EncodeErrorKind::LabelNotFound => push_str(&mut out, "label was not found"),
            EncodeErrorKind::LabelTooFar => push_str(&mut out, "label is not close enough to jump point, code start or -- in the case of the stack map table -- the previous label"),
            EncodeErrorKind::NegativeOffset => push_str(&mut out, "the previous label points to a greater offset than the current label"),
            EncodeErrorKind::IncorrectBounds => push_str(&mut out, "incorrect bounds (low > high)"),
            EncodeErrorKind::InvalidKeyOrder => push_str(&mut out, "the keys in the lookupswitch instruction must be in an increasing numerical order"),
            EncodeErrorKind::Other(message) => {
                push_str(&mut out, "other: ");
                push_str(&mut out, message.as_str());
            },
        }
        out
    }
}

/// The name that [`Context::name`] gives for each context.
pub open spec fn spec_context_name(context: Context) -> Seq<char> {
    match context {
        Context::NoContext => "none"@,
        Context::Start => "start"@,
        Context::ConstantPool => "constant pool"@,
        Context::ClassInfo => "class information"@,
        Context::Interfaces => "interfaces"@,
        Context::Fields => "fields"@,
        Context::Methods => "methods"@,
        Context::Attributes => "attributes"@,
        Context::AttributeContent => "attribute content"@,
        Context::Code => "code"@,
    }
}

impl Context {
    /// A human readable name of the context.
    pub fn name(&self) -> (r: &'static str)
        ensures
            r@ == spec_context_name(*self),
    {
        match self {
            Context::NoContext => "none",
            Context::Start => "start",
            Context::ConstantPool => "constant pool",
            Context::ClassInfo => "class information",
            Context::Interfaces => "interfaces",
            Context::Fields => "fields",
            Context::Methods => "methods",
            Context::Attributes => "attributes",
            Context::AttributeContent => "attribute content",
            Context::Code => "code",
        }
    }
}

/// The description of a decode error: its kind, and where it occurred if that is known.
pub open spec fn spec_decode_error_text(e: DecodeError) -> Seq<char> {
    match e.spec_position() {
        Some(position) => spec_decode_error_message(e.spec_kind()) + " at "@ + decimal(position as nat) + " in "@
            + spec_context_name(e.spec_context()),
        None => spec_decode_error_message(e.spec_kind()),
    }
}

impl DecodeError {
    /// A human readable description of the error.
    pub fn to_string(&self) -> (r: String)
        ensures
            r@ == spec_decode_error_text(*self),
    {
        let mut out = String::new();
        push_str(&mut out, self.kind.message());
        if let Some(position) = self.position {
            push_str(&mut out, " at ");
            push_decimal(&mut out, position);
            push_str(&mut out, " in ");
            push_str(&mut out, self.context.name());
        }
        out
    }
}

/// The description of an encode error: its kind and its context.
pub open spec fn spec_encode_error_text(e: &EncodeError) -> Seq<char> {
    spec_encode_error_message(e.spec_kind()) + " in "@ + spec_context_name(e.spec_context())
}

impl EncodeError {
    /// A human readable description of the error.
    pub fn to_string(&self) -> (r: String)
        ensures
            r@ == spec_encode_error_text(self),
    {
        let mut out = self.kind.message();
        push_str(&mut out, " in ");
        push_str(&mut out, self.context.name());
        out
    }
}

} // verus!
