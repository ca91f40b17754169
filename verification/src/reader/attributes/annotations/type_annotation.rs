//! Type annotations: what they annotate and where.

use crate::error::{DecodeError, DecodeErrorKind};
use crate::reader::attributes::annotations::ElementValuePairIter;
use crate::reader::attributes::code;
use crate::reader::cpool;
use crate::reader::decoding::{lemma_read_byte, lemma_read_u16, spec_map, Decode, DecodeMany, DecodeManyIter, Decoder};
use core::ops::Range;
use vstd::prelude::*;

verus! {

pub type TypeAnnotations<'a> = DecodeMany<'a, TypeAnnotation<'a>, u16>;

pub type TypeAnnotationIter<'a> = DecodeManyIter<'a, TypeAnnotation<'a>, u16>;

/// The path to the annotated part of a type.
pub type TypePath<'a> = DecodeMany<'a, TypePathSegment, u8>;

pub type TypePathSegmentIter<'a> = DecodeManyIter<'a, TypePathSegment, u8>;

pub type LocalVariableTargetTable<'a> = DecodeMany<'a, LocalVariable, u16>;

pub type LocalVariableTargetIter<'a> = DecodeManyIter<'a, LocalVariable, u16>;

/// An annotation on a use of a type.
#[derive(Debug, Clone, Copy)]
pub struct TypeAnnotation<'a> {
    pub(crate) target_type: TargetType,
    pub(crate) target_info: TargetInfo<'a>,
    pub(crate) target_path: TypePath<'a>,
    pub(crate) type_: cpool::Index<cpool::Utf8<'a>>,
    pub(crate) pairs: ElementValuePairIter<'a>,
}

impl<'a> TypeAnnotation<'a> {
    pub open(crate) spec fn spec_new(
        target_type: TargetType,
        target_info: TargetInfo<'a>,
        target_path: TypePath<'a>,
        type_: cpool::Index<cpool::Utf8<'a>>,
        pairs: ElementValuePairIter<'a>,
    ) -> TypeAnnotation<'a> {
        TypeAnnotation { target_type, target_info, target_path, type_, pairs }
    }

    pub open(crate) spec fn spec_target_type(self) -> TargetType {
        self.target_type
    }

    pub open(crate) spec fn spec_target_info(self) -> TargetInfo<'a> {
        self.target_info
    }

    pub open(crate) spec fn spec_target_path(self) -> TypePath<'a> {
        self.target_path
    }

    pub open(crate) spec fn spec_type(self) -> cpool::Index<cpool::Utf8<'a>> {
        self.type_
    }

    pub open(crate) spec fn spec_pairs(self) -> ElementValuePairIter<'a> {
        self.pairs
    }

    pub fn target_type(&self) -> (r: TargetType)
        ensures
            r == self.spec_target_type(),
    {
        self.target_type
    }

    pub fn target_info(&self) -> (r: &TargetInfo<'a>)
        ensures
            *r == self.spec_target_info(),
    {
        &self.target_info
    }

    pub fn target_path(&self) -> (r: &TypePath<'a>)
        ensures
            *r == self.spec_target_path(),
    {
        &self.target_path
    }

    pub fn type_(&self) -> (r: cpool::Index<cpool::Utf8<'a>>)
        ensures
            r == self.spec_type(),
    {
        self.type_
    }

    pub fn pairs(&self) -> (r: ElementValuePairIter<'a>)
        ensures
            r == self.spec_pairs(),
    {
        self.pairs
    }
}

/// Reading the target information, whose form the target type decides.
pub open spec fn spec_target_info<'a>(target_type: TargetType, d: Decoder<'a>) -> (Result<TargetInfo<'a>, DecodeError>, Decoder<'a>) {
    match target_type {
        TargetType::ClassTypeParameter | TargetType::MethodTypeParameter => spec_map(
            <u8 as Decode<'a>>::spec_decode(d),
            |v: u8| TargetInfo::TypeParameter { parameter_index: v },
        ),
        TargetType::ClassExtends => spec_map(
            <SuperTypeIndex as Decode<'a>>::spec_decode(d),
            |v: SuperTypeIndex| TargetInfo::SuperType { supertype_index: v },
        ),
        TargetType::ClassTypeParameterBound | TargetType::MethodTypeParameterBound => spec_map(
            <(u8, u8) as Decode<'a>>::spec_decode(d),
            |p: (u8, u8)| TargetInfo::TypeParameterBound { type_parameter_index: p.0, bound_index: p.1 },
        ),
        TargetType::Field | TargetType::MethodReturn | TargetType::MethodReceiver => (Ok(TargetInfo::Empty), d),
        TargetType::LocalVariable | TargetType::ResourceVariable => spec_map(
            <LocalVariableTargetTable<'a> as Decode<'a>>::spec_decode(d),
            |v: LocalVariableTargetTable<'a>| TargetInfo::LocalVariable(v),
        ),
        TargetType::MethodFormalParameter => spec_map(
            <u8 as Decode<'a>>::spec_decode(d),
            |v: u8| TargetInfo::FormalParameter { formal_parameter_index: v },
        ),
        TargetType::Throws => spec_map(
            <u16 as Decode<'a>>::spec_decode(d),
            |v: u16| TargetInfo::Throws { throws_type_index: v },
        ),
        TargetType::ExceptionParameter => spec_map(
            <u16 as Decode<'a>>::spec_decode(d),
            |v: u16| TargetInfo::Catch { exception_table_index: v },
        ),
        TargetType::InstanceOf | TargetType::New | TargetType::ConstructorReference | TargetType::MethodReference => spec_map(
            <u16 as Decode<'a>>::spec_decode(d),
            |v: u16| TargetInfo::Offset { offset: code::Index::spec_new(v as u32) },
        ),
        _ => spec_map(
            <(u16, u8) as Decode<'a>>::spec_decode(d),
            |p: (u16, u8)| TargetInfo::TypeArgument { offset: code::Index::spec_new(p.0 as u32), type_argument_index: p.1 },
        ),
    }
}

fn read_target_info<'a>(target_type: TargetType, decoder: &mut Decoder<'a>) -> (r: Result<TargetInfo<'a>, DecodeError>)
    ensures
        (r, *final(decoder)) == spec_target_info(target_type, *old(decoder)),
        final(decoder).follows(*old(decoder)),
{
    match target_type {
        TargetType::ClassTypeParameter | TargetType::MethodTypeParameter => match decoder.read::<u8>() {
            Ok(v) => Ok(TargetInfo::TypeParameter { parameter_index: v }),
            Err(e) => Err(e),
        },
        TargetType::ClassExtends => match decoder.read::<SuperTypeIndex>() {
            Ok(v) => Ok(TargetInfo::SuperType { supertype_index: v }),
            Err(e) => Err(e),
        },
        TargetType::ClassTypeParameterBound | TargetType::MethodTypeParameterBound => match decoder.read::<(u8, u8)>() {
            Ok((type_parameter_index, bound_index)) => Ok(TargetInfo::TypeParameterBound { type_parameter_index, bound_index }),
            Err(e) => Err(e),
        },
        TargetType::Field | TargetType::MethodReturn | TargetType::MethodReceiver => Ok(TargetInfo::Empty),
        TargetType::LocalVariable | TargetType::ResourceVariable => match decoder.read::<LocalVariableTargetTable<'a>>() {
            Ok(v) => Ok(TargetInfo::LocalVariable(v)),
            Err(e) => Err(e),
        },
        TargetType::MethodFormalParameter => match decoder.read::<u8>() {
            Ok(v) => Ok(TargetInfo::FormalParameter { formal_parameter_index: v }),
            Err(e) => Err(e),
        },
        TargetType::Throws => match decoder.read::<u16>() {
            Ok(v) => Ok(TargetInfo::Throws { throws_type_index: v }),
            Err(e) => Err(e),
        },
        TargetType::ExceptionParameter => match decoder.read::<u16>() {
            Ok(v) => Ok(TargetInfo::Catch { exception_table_index: v }),
            Err(e) => Err(e),
        },
        TargetType::InstanceOf | TargetType::New | TargetType::ConstructorReference | TargetType::MethodReference => {
            match decoder.read::<u16>() {
                Ok(v) => Ok(TargetInfo::Offset { offset: code::Index::new(v as u32) }),
                Err(e) => Err(e),
            }
        },
        _ => match decoder.read::<(u16, u8)>() {
            Ok((offset, type_argument_index)) => Ok(
                TargetInfo::TypeArgument { offset: code::Index::new(offset as u32), type_argument_index },
            ),
            Err(e) => Err(e),
        },
    }
}

impl<'a> Decode<'a> for TypeAnnotation<'a> {
    /// Reads the target type, the target information that it decides, the type path,
    /// the index of the annotation's type and its element-value pairs.
    open spec fn spec_decode(decoder: Decoder<'a>) -> (Result<TypeAnnotation<'a>, DecodeError>, Decoder<'a>) {
        let (rt, d1) = <TargetType as Decode<'a>>::spec_decode(decoder);
        match rt {
            Err(e) => (Err(e), d1),
            Ok(target_type) => {
                let (ri, d2) = spec_target_info(target_type, d1);
                match ri {
                    Err(e) => (Err(e), d2),
                    Ok(target_info) => {
                        let (rest, d3) = <(TypePath<'a>, cpool::Index<cpool::Utf8<'a>>, ElementValuePairIter<'a>) as Decode<
                            'a,
                        >>::spec_decode(d2);
                        match rest {
                            Err(e) => (Err(e), d3),
                            Ok(p) => (Ok(TypeAnnotation::spec_new(target_type, target_info, p.0, p.1, p.2)), d3),
                        }
                    },
                }
            },
        }
    }

    fn decode(decoder: &mut Decoder<'a>) -> (r: Result<TypeAnnotation<'a>, DecodeError>) {
        let target_type: TargetType = match decoder.read() {
            Ok(t) => t,
            Err(e) => return Err(e),
        };
        let target_info = match read_target_info(target_type, decoder) {
            Ok(info) => info,
            Err(e) => return Err(e),
        };
        match decoder.read::<(TypePath<'a>, cpool::Index<cpool::Utf8<'a>>, ElementValuePairIter<'a>)>() {
            Ok((target_path, type_, pairs)) => Ok(TypeAnnotation { target_type, target_info, target_path, type_, pairs }),
            Err(e) => Err(e),
        }
    }
}

/// The kind of thing that a type annotation is on.
#[derive(Debug, Copy, Clone, PartialEq, Eq, Structural)]
pub enum TargetType {
    ClassTypeParameter,
    MethodTypeParameter,
    ClassExtends,
    ClassTypeParameterBound,
    MethodTypeParameterBound,
    Field,
    MethodReturn,
    MethodReceiver,
    MethodFormalParameter,
    Throws,
    LocalVariable,
    ResourceVariable,
    ExceptionParameter,
    InstanceOf,
    New,
    ConstructorReference,
    MethodReference,
    Cast,
    ConstructorInvocationTypeArgument,
    MethodInvocationTypeArgument,
    ConstructorReferenceTypeArgument,
    MethodReferenceTypeArgument,
}

/// The target type that a tag stands for.
pub open spec fn target_type_of_tag(tag: u8) -> Option<TargetType> {
    match tag {
        0x00 => Some(TargetType::ClassTypeParameter),
        0x01 => Some(TargetType::MethodTypeParameter),
        0x10 => Some(TargetType::ClassExtends),
        0x11 => Some(TargetType::ClassTypeParameterBound),
        0x12 => Some(TargetType::MethodTypeParameterBound),
        0x13 => Some(TargetType::Field),
        0x14 => Some(TargetType::MethodReturn),
        0x15 => Some(TargetType::MethodReceiver),
        0x16 => Some(TargetType::MethodFormalParameter),
        0x17 => Some(TargetType::Throws),
        0x40 => Some(TargetType::LocalVariable),
        0x41 => Some(TargetType::ResourceVariable),
        0x42 => Some(TargetType::ExceptionParameter),
        0x43 => Some(TargetType::InstanceOf),
        0x44 => Some(TargetType::New),
        0x45 => Some(TargetType::ConstructorReference),
        0x46 => Some(TargetType::MethodReference),
        0x47 => Some(TargetType::Cast),
        0x48 => Some(TargetType::ConstructorInvocationTypeArgument),
        0x49 => Some(TargetType::MethodInvocationTypeArgument),
        0x4a => Some(TargetType::ConstructorReferenceTypeArgument),
        0x4b => Some(TargetType::MethodReferenceTypeArgument),
        _ => None,
    }
}

impl<'a> Decode<'a> for TargetType {
    /// Reads a tag and the target type that it stands for.
    open spec fn spec_decode(decoder: Decoder<'a>) -> (Result<TargetType, DecodeError>, Decoder<'a>) {
        let (r, after) = <u8 as Decode<'a>>::spec_decode(decoder);
        match r {
            Err(e) => (Err(e), after),
            Ok(tag) => match target_type_of_tag(tag) {
                Some(t) => (Ok(t), after),
                None => (Err(after.error_here(DecodeErrorKind::InvalidTag)), after),
            },
        }
    }

    fn decode(decoder: &mut Decoder<'a>) -> (r: Result<TargetType, DecodeError>) {
        let tag: u8 = match decoder.read() {
            Ok(tag) => tag,
            Err(e) => return Err(e),
        };
        match tag {
            0x00 => Ok(TargetType::ClassTypeParameter),
            0x01 => Ok(TargetType::MethodTypeParameter),
            0x10 => Ok(TargetType::ClassExtends),
            0x11 => Ok(TargetType::ClassTypeParameterBound),
            0x12 => Ok(TargetType::MethodTypeParameterBound),
            0x13 => Ok(TargetType::Field),
            0x14 => Ok(TargetType::MethodReturn),
            0x15 => Ok(TargetType::MethodReceiver),
            0x16 => Ok(TargetType::MethodFormalParameter),
            0x17 => Ok(TargetType::Throws),
            0x40 => Ok(TargetType::LocalVariable),
            0x41 => Ok(TargetType::ResourceVariable),
            0x42 => Ok(TargetType::ExceptionParameter),
            0x43 => Ok(TargetType::InstanceOf),
            0x44 => Ok(TargetType::New),
            0x45 => Ok(TargetType::ConstructorReference),
            0x46 => Ok(TargetType::MethodReference),
            0x47 => Ok(TargetType::Cast),
            0x48 => Ok(TargetType::ConstructorInvocationTypeArgument),
            0x49 => Ok(TargetType::MethodInvocationTypeArgument),
            0x4a => Ok(TargetType::ConstructorReferenceTypeArgument),
            0x4b => Ok(TargetType::MethodReferenceTypeArgument),
            _ => Err(DecodeError::from_decoder(DecodeErrorKind::InvalidTag, decoder)),
        }
    }
}

/// Where a type annotation is, depending on its target type.
#[derive(Debug, Clone, Copy)]
pub enum TargetInfo<'a> {
    TypeParameter { parameter_index: u8 },
    SuperType { supertype_index: SuperTypeIndex },
    TypeParameterBound { type_parameter_index: u8, bound_index: u8 },
    Empty,
    FormalParameter { formal_parameter_index: u8 },
    Throws { throws_type_index: u16 },
    LocalVariable(LocalVariableTargetTable<'a>),
    Catch { exception_table_index: u16 },
    Offset { offset: code::Index },
    TypeArgument { offset: code::Index, type_argument_index: u8 },
}

/// The supertype that an annotation is on: the superclass, or one of the interfaces.
#[derive(Debug, Copy, Clone, PartialEq, Eq, Structural)]
pub enum SuperTypeIndex {
    Class,
    Interface { index: u16 },
}

impl<'a> Decode<'a> for SuperTypeIndex {
    /// Reads a `u16`; `u16::MAX` stands for the superclass.
    open spec fn spec_decode(decoder: Decoder<'a>) -> (Result<SuperTypeIndex, DecodeError>, Decoder<'a>) {
        let (r, after) = <u16 as Decode<'a>>::spec_decode(decoder);
        match r {
            Err(e) => (Err(e), after),
            Ok(index) => if index == u16::MAX {
                (Ok(SuperTypeIndex::Class), after)
            } else {
                (Ok(SuperTypeIndex::Interface { index }), after)
            },
        }
    }

    fn decode(decoder: &mut Decoder<'a>) -> (r: Result<SuperTypeIndex, DecodeError>) {
        let index: u16 = match decoder.read() {
            Ok(index) => index,
            Err(e) => return Err(e),
        };
        if index == u16::MAX {
            Ok(SuperTypeIndex::Class)
        } else {
            Ok(SuperTypeIndex::Interface { index })
        }
    }
}

/// A local variable that a type annotation is on: where it lives, and its slot.
#[derive(Debug, Clone, Copy)]
pub struct LocalVariable {
    pub(crate) start: u16,
    pub(crate) length: u16,
    pub(crate) index: u16,
}

impl LocalVariable {
    pub open(crate) spec fn spec_new(start: u16, length: u16, index: u16) -> LocalVariable {
        LocalVariable { start, length, index }
    }

    pub open(crate) spec fn spec_start(self) -> u16 {
        self.start
    }

    pub open(crate) spec fn spec_length(self) -> u16 {
        self.length
    }

    pub open(crate) spec fn spec_index(self) -> u16 {
        self.index
    }

    /// The code in which the variable lives: `length` bytes from `start`.
    pub fn range(&self) -> (r: Range<code::Index>)
        ensures
            r.start == code::Index::spec_new(self.spec_start() as u32),
            r.end == code::Index::spec_new((self.spec_start() + self.spec_length()) as u32),
    {
        let start = code::Index::new(self.start as u32);
        let end = code::Index::new(self.start as u32 + self.length as u32);
        Range { start, end }
    }

    /// The slot of the variable in the local variable array.
    pub fn index(&self) -> (r: u16)
        ensures
            r == self.spec_index(),
    {
        self.index
    }
}

impl<'a> Decode<'a> for LocalVariable {
    /// Reads the start, the length and the slot.
    open spec fn spec_decode(decoder: Decoder<'a>) -> (Result<LocalVariable, DecodeError>, Decoder<'a>) {
        spec_map(
            <(u16, u16, u16) as Decode<'a>>::spec_decode(decoder),
            |p: (u16, u16, u16)| LocalVariable::spec_new(p.0, p.1, p.2),
        )
    }

    fn decode(decoder: &mut Decoder<'a>) -> (r: Result<LocalVariable, DecodeError>) {
        match decoder.read::<(u16, u16, u16)>() {
            Ok((start, length, index)) => Ok(LocalVariable { start, length, index }),
            Err(e) => Err(e),
        }
    }
}

/// A step of a type path.
#[derive(Debug, Clone, Copy)]
pub struct TypePathSegment {
    pub(crate) kind: TypePathSegmentKind,
    pub(crate) type_argument_index: u8,
}

impl TypePathSegment {
    pub open(crate) spec fn spec_new(kind: TypePathSegmentKind, type_argument_index: u8) -> TypePathSegment {
        TypePathSegment { kind, type_argument_index }
    }

    pub open(crate) spec fn spec_kind(self) -> TypePathSegmentKind {
        self.kind
    }

    pub open(crate) spec fn spec_type_argument_index(self) -> u8 {
        self.type_argument_index
    }

    pub fn kind(&self) -> (r: TypePathSegmentKind)
        ensures
            r == self.spec_kind(),
    {
        self.kind
    }

    pub fn type_argument_index(&self) -> (r: u8)
        ensures
            r == self.spec_type_argument_index(),
    {
        self.type_argument_index
    }
}

impl<'a> Decode<'a> for TypePathSegment {
    /// Reads the kind, then the index of the type argument.
    open spec fn spec_decode(decoder: Decoder<'a>) -> (Result<TypePathSegment, DecodeError>, Decoder<'a>) {
        spec_map(
            <(TypePathSegmentKind, u8) as Decode<'a>>::spec_decode(decoder),
            |p: (TypePathSegmentKind, u8)| TypePathSegment::spec_new(p.0, p.1),
        )
    }

    fn decode(decoder: &mut Decoder<'a>) -> (r: Result<TypePathSegment, DecodeError>) {
        match decoder.read::<(TypePathSegmentKind, u8)>() {
            Ok((kind, type_argument_index)) => Ok(TypePathSegment { kind, type_argument_index }),
            Err(e) => Err(e),
        }
    }
}

/// The kind of step that a type path segment takes.
#[derive(Debug, Copy, Clone, PartialEq, Eq, Structural)]
pub enum TypePathSegmentKind {
    ArrayElement,
    InnerType,
    WildcardBound,
    TypeArgument,
}

impl<'a> Decode<'a> for TypePathSegmentKind {
    /// Reads a tag between 0 and 3.
    open spec fn spec_decode(decoder: Decoder<'a>) -> (Result<TypePathSegmentKind, DecodeError>, Decoder<'a>) {
        let (r, after) = <u8 as Decode<'a>>::spec_decode(decoder);
        match r {
            Err(e) => (Err(e), after),
            Ok(tag) => if tag == 0 {
                (Ok(TypePathSegmentKind::ArrayElement), after)
            } else if tag == 1 {
                (Ok(TypePathSegmentKind::InnerType), after)
            } else if tag == 2 {
                (Ok(TypePathSegmentKind::WildcardBound), after)
            } else if tag == 3 {
                (Ok(TypePathSegmentKind::TypeArgument), after)
            } else {
                (Err(after.error_here(DecodeErrorKind::InvalidTag)), after)
            },
        }
    }

    fn decode(decoder: &mut Decoder<'a>) -> (r: Result<TypePathSegmentKind, DecodeError>) {
        let tag: u8 = match decoder.read() {
            Ok(tag) => tag,
            Err(e) => return Err(e),
        };
        match tag {
            0 => Ok(TypePathSegmentKind::ArrayElement),
            1 => Ok(TypePathSegmentKind::InnerType),
            2 => Ok(TypePathSegmentKind::WildcardBound),
            3 => Ok(TypePathSegmentKind::TypeArgument),
            _ => Err(DecodeError::from_decoder(DecodeErrorKind::InvalidTag, decoder)),
        }
    }
}

/// The target types of type annotations (JVMS §4.7.20, Tables 4.7.20-A to 4.7.20-C): each tag
/// stands for its kind of target, and every other tag is refused.
pub proof fn lemma_target_type_tags<'a>(d: Decoder<'a>)
    requires
        d.in_bounds(),
        d.remaining() >= 1,
    ensures
        ({
            let tag = d.bytes()[0];
            let r = <TargetType as Decode<'a>>::spec_decode(d).0;
            &&& tag == 0x00 ==> r == Ok::<TargetType, DecodeError>(TargetType::ClassTypeParameter)
            &&& tag == 0x01 ==> r == Ok::<TargetType, DecodeError>(TargetType::MethodTypeParameter)
            &&& tag == 0x10 ==> r == Ok::<TargetType, DecodeError>(TargetType::ClassExtends)
            &&& tag == 0x11 ==> r == Ok::<TargetType, DecodeError>(TargetType::ClassTypeParameterBound)
            &&& tag == 0x12 ==> r == Ok::<TargetType, DecodeError>(TargetType::MethodTypeParameterBound)
            &&& tag == 0x13 ==> r == Ok::<TargetType, DecodeError>(TargetType::Field)
            &&& tag == 0x14 ==> r == Ok::<TargetType, DecodeError>(TargetType::MethodReturn)
            &&& tag == 0x15 ==> r == Ok::<TargetType, DecodeError>(TargetType::MethodReceiver)
            &&& tag == 0x16 ==> r == Ok::<TargetType, DecodeError>(TargetType::MethodFormalParameter)
            &&& tag == 0x17 ==> r == Ok::<TargetType, DecodeError>(TargetType::Throws)
            &&& tag == 0x40 ==> r == Ok::<TargetType, DecodeError>(TargetType::LocalVariable)
            &&& tag == 0x41 ==> r == Ok::<TargetType, DecodeError>(TargetType::ResourceVariable)
            &&& tag == 0x42 ==> r == Ok::<TargetType, DecodeError>(TargetType::ExceptionParameter)
            &&& tag == 0x43 ==> r == Ok::<TargetType, DecodeError>(TargetType::InstanceOf)
            &&& tag == 0x44 ==> r == Ok::<TargetType, DecodeError>(TargetType::New)
            &&& tag == 0x45 ==> r == Ok::<TargetType, DecodeError>(TargetType::ConstructorReference)
            &&& tag == 0x46 ==> r == Ok::<TargetType, DecodeError>(TargetType::MethodReference)
            &&& tag == 0x47 ==> r == Ok::<TargetType, DecodeError>(TargetType::Cast)
            &&& tag == 0x48 ==> r == Ok::<TargetType, DecodeError>(TargetType::ConstructorInvocationTypeArgument)
            &&& tag == 0x49 ==> r == Ok::<TargetType, DecodeError>(TargetType::MethodInvocationTypeArgument)
            &&& tag == 0x4a ==> r == Ok::<TargetType, DecodeError>(TargetType::ConstructorReferenceTypeArgument)
            &&& tag == 0x4b ==> r == Ok::<TargetType, DecodeError>(TargetType::MethodReferenceTypeArgument)
            &&& !(tag == 0x00 || tag == 0x01 || tag == 0x10 || tag == 0x11 || tag == 0x12 || tag == 0x13 || tag == 0x14 || tag == 0x15 || tag == 0x16 || tag == 0x17 || tag == 0x40 || tag == 0x41 || tag == 0x42 || tag == 0x43 || tag == 0x44 || tag == 0x45 || tag == 0x46 || tag == 0x47 || tag == 0x48 || tag == 0x49 || tag == 0x4a || tag == 0x4b) ==> r is Err
        }),
{
    lemma_read_byte(d);
}

/// The form of the target information follows the target type (JVMS §4.7.20.1):
/// `type_parameter_target`, `supertype_target`, `type_parameter_bound_target`, `empty_target`,
/// `formal_parameter_target`, `throws_target`, `localvar_target`, `catch_target`,
/// `offset_target` or `type_argument_target`; an empty target reads nothing.
pub proof fn lemma_target_info_forms<'a>(target_type: TargetType, d: Decoder<'a>)
    ensures
        ({
            let (r, after) = spec_target_info(target_type, d);
            &&& target_type == TargetType::ClassTypeParameter ==> (r is Ok ==> r->Ok_0 is TypeParameter)
            &&& target_type == TargetType::MethodTypeParameter ==> (r is Ok ==> r->Ok_0 is TypeParameter)
            &&& target_type == TargetType::ClassExtends ==> (r is Ok ==> r->Ok_0 is SuperType)
            &&& target_type == TargetType::ClassTypeParameterBound ==> (r is Ok ==> r->Ok_0 is TypeParameterBound)
            &&& target_type == TargetType::MethodTypeParameterBound ==> (r is Ok ==> r->Ok_0 is TypeParameterBound)
            &&& target_type == TargetType::Field ==> r == Ok::<TargetInfo<'a>, DecodeError>(TargetInfo::Empty) && after == d
            &&& target_type == TargetType::MethodReturn ==> r == Ok::<TargetInfo<'a>, DecodeError>(TargetInfo::Empty) && after == d
            &&& target_type == TargetType::MethodReceiver ==> r == Ok::<TargetInfo<'a>, DecodeError>(TargetInfo::Empty) && after == d
            &&& target_type == TargetType::MethodFormalParameter ==> (r is Ok ==> r->Ok_0 is FormalParameter)
            &&& target_type == TargetType::Throws ==> (r is Ok ==> r->Ok_0 is Throws)
            &&& target_type == TargetType::LocalVariable ==> (r is Ok ==> r->Ok_0 is LocalVariable)
            &&& target_type == TargetType::ResourceVariable ==> (r is Ok ==> r->Ok_0 is LocalVariable)
            &&& target_type == TargetType::ExceptionParameter ==> (r is Ok ==> r->Ok_0 is Catch)
            &&& target_type == TargetType::InstanceOf ==> (r is Ok ==> r->Ok_0 is Offset)
            &&& target_type == TargetType::New ==> (r is Ok ==> r->Ok_0 is Offset)
            &&& target_type == TargetType::ConstructorReference ==> (r is Ok ==> r->Ok_0 is Offset)
            &&& target_type == TargetType::MethodReference ==> (r is Ok ==> r->Ok_0 is Offset)
            &&& target_type == TargetType::Cast ==> (r is Ok ==> r->Ok_0 is TypeArgument)
            &&& target_type == TargetType::ConstructorInvocationTypeArgument ==> (r is Ok ==> r->Ok_0 is TypeArgument)
            &&& target_type == TargetType::MethodInvocationTypeArgument ==> (r is Ok ==> r->Ok_0 is TypeArgument)
            &&& target_type == TargetType::ConstructorReferenceTypeArgument ==> (r is Ok ==> r->Ok_0 is TypeArgument)
            &&& target_type == TargetType::MethodReferenceTypeArgument ==> (r is Ok ==> r->Ok_0 is TypeArgument)
        }),
{
}

/// The type path kinds (JVMS §4.7.20.2, Table 4.7.20.2-A): 0 deeper in an array type, 1 deeper in
/// a nested type, 2 on the bound of a wildcard type argument, 3 on a type argument; every other
/// kind is refused.
pub proof fn lemma_type_path_kinds<'a>(d: Decoder<'a>)
    requires
        d.in_bounds(),
        d.remaining() >= 1,
    ensures
        ({
            let k = d.bytes()[0];
            let r = <TypePathSegmentKind as Decode<'a>>::spec_decode(d).0;
            &&& k == 0 ==> r == Ok::<TypePathSegmentKind, DecodeError>(TypePathSegmentKind::ArrayElement)
            &&& k == 1 ==> r == Ok::<TypePathSegmentKind, DecodeError>(TypePathSegmentKind::InnerType)
            &&& k == 2 ==> r == Ok::<TypePathSegmentKind, DecodeError>(TypePathSegmentKind::WildcardBound)
            &&& k == 3 ==> r == Ok::<TypePathSegmentKind, DecodeError>(TypePathSegmentKind::TypeArgument)
            &&& k > 3 ==> r is Err
        }),
{
    lemma_read_byte(d);
}

/// The supertype of a `supertype_target` (JVMS §4.7.20.1): the index 65535 stands for the
/// superclass, any other index for that entry of the interfaces.
pub proof fn lemma_supertype_index<'a>(d: Decoder<'a>)
    requires
        d.in_bounds(),
        d.remaining() >= 2,
    ensures
        ({
            let v = (d.bytes()[0] as nat * 256 + d.bytes()[1] as nat) as u16;
            let r = <SuperTypeIndex as Decode<'a>>::spec_decode(d).0;
            &&& v == 65535 ==> r == Ok::<SuperTypeIndex, DecodeError>(SuperTypeIndex::Class)
            &&& v != 65535 ==> r == Ok::<SuperTypeIndex, DecodeError>(SuperTypeIndex::Interface { index: v })
        }),
{
    lemma_read_u16(d);
}

} // verus!
