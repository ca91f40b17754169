//! The constant pool of a class file.

pub mod value;

use crate::error::{spec_error, Context, DecodeError, DecodeErrorKind};
use crate::mutf8::MStr;
use crate::reader::decoding::{lemma_read_byte, lemma_read_u16, spec_map, Decode, Decoder};
use core::marker::PhantomData;
pub use value::ToValue;
use vstd::prelude::*;

verus! {

/// A 1-based index into the constant pool; `I` is the kind of item that it points to.
#[derive(Debug)]
pub struct Index<I> {
    pub(crate) index: u16,
    pub(crate) mark: PhantomData<I>,
}

impl<I> Clone for Index<I> {
    fn clone(&self) -> (r: Index<I>)
        ensures
            r == *self,
    {
        proof {
            use_type_invariant(self);
        }
        Index { index: self.index, mark: PhantomData }
    }
}

impl<I> Copy for Index<I> {
}

impl<I> PartialEq for Index<I> {
    fn eq(&self, other: &Index<I>) -> (r: bool) {
        self.index == other.index
    }
}

impl<I> vstd::std_specs::cmp::PartialEqSpecImpl for Index<I> {
    open spec fn obeys_eq_spec() -> bool {
        true
    }

    open spec fn eq_spec(&self, other: &Index<I>) -> bool {
        self.spec_index() == other.spec_index()
    }
}

impl<I> Index<I> {
    #[verifier::type_invariant]
    pub(crate) closed spec fn inv(self) -> bool {
        self.index != 0
    }

    /// The number that the index holds.
    pub open(crate) spec fn spec_index(self) -> u16 {
        self.index
    }

    /// The index that holds `index`.
    pub open(crate) spec fn spec_new(index: u16) -> Index<I> {
        Index { index, mark: PhantomData }
    }

    /// An index into the constant pool; 0 is not one.
    pub fn new(index: u16) -> (r: Result<Index<I>, DecodeError>)
        ensures
            index != 0 ==> r == Ok::<Index<I>, DecodeError>(Index::spec_new(index)),
            index == 0 ==> r == Err::<Index<I>, DecodeError>(
                spec_error(DecodeErrorKind::InvalidIndex, None, Context::NoContext),
            ),
    {
        if index != 0 {
            Ok(Index { index, mark: PhantomData })
        } else {
            Err(DecodeError::new(DecodeErrorKind::InvalidIndex))
        }
    }

    pub fn as_u16(self) -> (r: u16)
        ensures
            r == self.spec_index(),
            r != 0,
    {
        proof {
            use_type_invariant(self);
        }
        self.index
    }
}

/// An index made from a number gives that number back.
pub proof fn lemma_index_round_trip<I>(index: u16)
    requires
        index != 0,
    ensures
        Index::<I>::spec_new(index).spec_index() == index,
{
}

impl<'input, I> Decode<'input> for Index<I> {
    /// Reads a `u16` that is not 0.
    open spec fn spec_decode(decoder: Decoder<'input>) -> (Result<Index<I>, DecodeError>, Decoder<'input>) {
        let (r, after) = u16::spec_decode(decoder);
        match r {
            Err(e) => (Err(e), after),
            Ok(v) => if v == 0 {
                (Err(after.error_here(DecodeErrorKind::InvalidIndex)), after)
            } else {
                (Ok(Index::spec_new(v)), after)
            },
        }
    }

    fn decode(decoder: &mut Decoder<'input>) -> (r: Result<Index<I>, DecodeError>) {
        let v: u16 = match decoder.read() {
            Ok(v) => v,
            Err(e) => return Err(e),
        };
        match Index::new(v) {
            Ok(index) => Ok(index),
            Err(err) => Err(DecodeError::from_decoder(err.kind(), decoder)),
        }
    }
}

impl<'input, I> Decode<'input> for Option<Index<I>> {
    /// Reads a `u16`; 0 stands for no index.
    open spec fn spec_decode(decoder: Decoder<'input>) -> (Result<Option<Index<I>>, DecodeError>, Decoder<'input>) {
        let (r, after) = u16::spec_decode(decoder);
        match r {
            Err(e) => (Err(e), after),
            Ok(v) => if v == 0 {
                (Ok(None), after)
            } else {
                (Ok(Some(Index::spec_new(v))), after)
            },
        }
    }

    fn decode(decoder: &mut Decoder<'input>) -> (r: Result<Option<Index<I>>, DecodeError>) {
        let v: u16 = match decoder.read() {
            Ok(v) => v,
            Err(e) => return Err(e),
        };
        match Index::new(v) {
            Ok(index) => Ok(Some(index)),
            Err(_) => Ok(None),
        }
    }
}

#[derive(Debug, Clone, Copy, PartialEq)]
pub struct Class {
    pub name: Index<Utf8<'static>>,
}

#[derive(Debug, Clone, Copy, PartialEq)]
pub struct FieldRef {
    pub class: Index<Class>,
    pub name_and_type: Index<NameAndType>,
}

#[derive(Debug, Clone, Copy, PartialEq)]
pub struct MethodRef {
    pub class: Index<Class>,
    pub name_and_type: Index<NameAndType>,
}

#[derive(Debug, Clone, Copy, PartialEq)]
pub struct InterfaceMethodRef {
    pub class: Index<Class>,
    pub name_and_type: Index<NameAndType>,
}

#[derive(Debug, Clone, Copy, PartialEq)]
pub struct String {
    pub string: Index<Utf8<'static>>,
}

#[derive(Debug, Clone, Copy, PartialEq)]
pub struct Integer {
    pub value: i32,
}

#[derive(Debug, Clone, Copy, PartialEq)]
pub struct Long {
    pub value: i64,
}

/// A `float` constant, as the bits of its IEEE 754 representation.
#[derive(Debug, Clone, Copy, PartialEq)]
pub struct Float {
    pub bits: u32,
}

/// A `double` constant, as the bits of its IEEE 754 representation.
#[derive(Debug, Clone, Copy, PartialEq)]
pub struct Double {
    pub bits: u64,
}

#[derive(Debug, Clone, Copy, PartialEq)]
pub struct NameAndType {
    pub name: Index<Utf8<'static>>,
    pub descriptor: Index<Utf8<'static>>,
}

#[derive(Debug, Clone, Copy, PartialEq)]
pub struct Utf8<'a> {
    pub content: MStr<'a>,
}

#[derive(Debug, Clone, Copy, PartialEq)]
pub struct MethodHandle {
    pub kind: MethodKind,
    pub reference: Index<Item<'static>>,
}

#[derive(Debug, Clone, Copy, PartialEq)]
pub struct MethodType {
    pub descriptor: Index<Utf8<'static>>,
}

#[derive(Debug, Clone, Copy, PartialEq)]
pub struct Dynamic {
    /// An index into the bootstrap method table.
    pub bootstrap_method_attr: u16,
    pub name_and_type: Index<NameAndType>,
}

#[derive(Debug, Clone, Copy, PartialEq)]
pub struct InvokeDynamic {
    /// An index into the bootstrap method table.
    pub bootstrap_method_attr: u16,
    pub name_and_type: Index<NameAndType>,
}

#[derive(Debug, Clone, Copy, PartialEq)]
pub struct Module {
    pub name: Index<Utf8<'static>>,
}

#[derive(Debug, Clone, Copy, PartialEq)]
pub struct Package {
    pub name: Index<Utf8<'static>>,
}

#[derive(Debug, Clone, Copy, PartialEq, Eq, Structural)]
pub enum MethodKind {
    GetField,
    GetStatic,
    PutField,
    PutStatic,
    InvokeVirtual,
    InvokeStatic,
    InvokeSpecial,
    NewInvokeSpecial,
    InvokeInterface,
}

/// The kind of method handle that a tag stands for.
pub open spec fn method_kind_of_tag(tag: u8) -> Option<MethodKind> {
    if tag == 1 {
        Some(MethodKind::GetField)
    } else if tag == 2 {
        Some(MethodKind::GetStatic)
    } else if tag == 3 {
        Some(MethodKind::PutField)
    } else if tag == 4 {
        Some(MethodKind::PutStatic)
    } else if tag == 5 {
        Some(MethodKind::InvokeVirtual)
    } else if tag == 6 {
        Some(MethodKind::InvokeStatic)
    } else if tag == 7 {
        Some(MethodKind::InvokeSpecial)
    } else if tag == 8 {
        Some(MethodKind::NewInvokeSpecial)
    } else if tag == 9 {
        Some(MethodKind::InvokeInterface)
    } else {
        None
    }
}

impl<'input> Decode<'input> for MethodKind {
    /// Reads a tag between 1 and 9.
    open spec fn spec_decode(decoder: Decoder<'input>) -> (Result<MethodKind, DecodeError>, Decoder<'input>) {
        let (r, after) = u8::spec_decode(decoder);
        match r {
            Err(e) => (Err(e), after),
            Ok(tag) => match method_kind_of_tag(tag) {
                Some(kind) => (Ok(kind), after),
                None => (Err(after.error_here(DecodeErrorKind::InvalidTag)), after),
            },
        }
    }

    fn decode(decoder: &mut Decoder<'input>) -> (r: Result<MethodKind, DecodeError>) {
        let tag: u8 = match decoder.read() {
            Ok(tag) => tag,
            Err(e) => return Err(e),
        };
        match tag {
            1 => Ok(MethodKind::GetField),
            2 => Ok(MethodKind::GetStatic),
            3 => Ok(MethodKind::PutField),
            4 => Ok(MethodKind::PutStatic),
            5 => Ok(MethodKind::InvokeVirtual),
            6 => Ok(MethodKind::InvokeStatic),
            7 => Ok(MethodKind::InvokeSpecial),
            8 => Ok(MethodKind::NewInvokeSpecial),
            9 => Ok(MethodKind::InvokeInterface),
            _ => Err(DecodeError::from_decoder(DecodeErrorKind::InvalidTag, decoder)),
        }
    }
}

/// An item of the constant pool.
#[derive(Debug, Clone, Copy, PartialEq)]
pub enum Item<'a> {
    Class(Class),
    FieldRef(FieldRef),
    MethodRef(MethodRef),
    InterfaceMethodRef(InterfaceMethodRef),
    String(String),
    Integer(Integer),
    Long(Long),
    Float(Float),
    Double(Double),
    NameAndType(NameAndType),
    Utf8(Utf8<'a>),
    MethodHandle(MethodHandle),
    MethodType(MethodType),
    Dynamic(Dynamic),
    InvokeDynamic(InvokeDynamic),
    Module(Module),
    Package(Package),
}

impl<'a> Item<'a> {
    /// Whether the item takes up two entries of the pool.
    pub open spec fn is_wide(self) -> bool {
        self is Long || self is Double
    }
}

impl<'input> Decode<'input> for Item<'input> {
    /// Reads a tag and the item that it announces.
    open spec fn spec_decode(decoder: Decoder<'input>) -> (Result<Item<'input>, DecodeError>, Decoder<'input>) {
        let (rt, d) = u8::spec_decode(decoder);
        match rt {
            Err(e) => (Err(e), d),
            Ok(tag) => if tag == 1 {
                let (rl, d2) = u16::spec_decode(d);
                match rl {
                    Err(e) => (Err(e), d2),
                    Ok(len) => spec_map(d2.spec_split_mstr(len as int), |m: MStr<'input>| Item::Utf8(Utf8 { content: m })),
                }
            } else if tag == 3 {
                spec_map(i32::spec_decode(d), |v: i32| Item::Integer(Integer { value: v }))
            } else if tag == 4 {
                spec_map(u32::spec_decode(d), |v: u32| Item::Float(Float { bits: v }))
            } else if tag == 5 {
                spec_map(i64::spec_decode(d), |v: i64| Item::Long(Long { value: v }))
            } else if tag == 6 {
                spec_map(u64::spec_decode(d), |v: u64| Item::Double(Double { bits: v }))
            } else if tag == 7 {
                spec_map(Index::<Utf8<'static>>::spec_decode(d), |v: Index<Utf8<'static>>| Item::Class(Class { name: v }))
            } else if tag == 8 {
                spec_map(Index::<Utf8<'static>>::spec_decode(d), |v: Index<Utf8<'static>>| Item::String(String { string: v }))
            } else if tag == 9 {
                spec_map(
                    <(Index<Class>, Index<NameAndType>)>::spec_decode(d),
                    |p: (Index<Class>, Index<NameAndType>)| Item::FieldRef(FieldRef { class: p.0, name_and_type: p.1 }),
                )
            } else if tag == 10 {
                spec_map(
                    <(Index<Class>, Index<NameAndType>)>::spec_decode(d),
                    |p: (Index<Class>, Index<NameAndType>)| Item::MethodRef(MethodRef { class: p.0, name_and_type: p.1 }),
                )
            } else if tag == 11 {
                spec_map(
                    <(Index<Class>, Index<NameAndType>)>::spec_decode(d),
                    |p: (Index<Class>, Index<NameAndType>)|
                        Item::InterfaceMethodRef(InterfaceMethodRef { class: p.0, name_and_type: p.1 }),
                )
            } else if tag == 12 {
                spec_map(
                    <(Index<Utf8<'static>>, Index<Utf8<'static>>)>::spec_decode(d),
                    |p: (Index<Utf8<'static>>, Index<Utf8<'static>>)|
                        Item::NameAndType(NameAndType { name: p.0, descriptor: p.1 }),
                )
            } else if tag == 15 {
                spec_map(
                    <(MethodKind, Index<Item<'static>>)>::spec_decode(d),
                    |p: (MethodKind, Index<Item<'static>>)| Item::MethodHandle(MethodHandle { kind: p.0, reference: p.1 }),
                )
            } else if tag == 16 {
                spec_map(
                    Index::<Utf8<'static>>::spec_decode(d),
                    |v: Index<Utf8<'static>>| Item::MethodType(MethodType { descriptor: v }),
                )
            } else if tag == 17 {
                spec_map(
                    <(u16, Index<NameAndType>)>::spec_decode(d),
                    |p: (u16, Index<NameAndType>)| Item::Dynamic(Dynamic { bootstrap_method_attr: p.0, name_and_type: p.1 }),
                )
            } else if tag == 18 {
                spec_map(
                    <(u16, Index<NameAndType>)>::spec_decode(d),
                    |p: (u16, Index<NameAndType>)|
                        Item::InvokeDynamic(InvokeDynamic { bootstrap_method_attr: p.0, name_and_type: p.1 }),
                )
            } else if tag == 19 {
                spec_map(Index::<Utf8<'static>>::spec_decode(d), |v: Index<Utf8<'static>>| Item::Module(Module { name: v }))
            } else if tag == 20 {
                spec_map(Index::<Utf8<'static>>::spec_decode(d), |v: Index<Utf8<'static>>| Item::Package(Package { name: v }))
            } else {
                (Err(d.error_here(DecodeErrorKind::InvalidTag)), d)
            },
        }
    }

    fn decode(decoder: &mut Decoder<'input>) -> (r: Result<Item<'input>, DecodeError>) {
        let tag: u8 = match decoder.read() {
            Ok(tag) => tag,
            Err(e) => return Err(e),
        };
        match tag {
            1 => {
                let len: u16 = match decoder.read() {
                    Ok(len) => len,
                    Err(e) => return Err(e),
                };
                match decoder.split_mstr(len as usize) {
                    Ok(content) => Ok(Item::Utf8(Utf8 { content })),
                    Err(e) => Err(e),
                }
            },
            3 => match decoder.read() {
                Ok(value) => Ok(Item::Integer(Integer { value })),
                Err(e) => Err(e),
            },
            4 => match decoder.read() {
                Ok(bits) => Ok(Item::Float(Float { bits })),
                Err(e) => Err(e),
            },
            5 => match decoder.read() {
                Ok(value) => Ok(Item::Long(Long { value })),
                Err(e) => Err(e),
            },
            6 => match decoder.read() {
                Ok(bits) => Ok(Item::Double(Double { bits })),
                Err(e) => Err(e),
            },
            7 => match decoder.read() {
                Ok(name) => Ok(Item::Class(Class { name })),
                Err(e) => Err(e),
            },
            8 => match decoder.read() {
                Ok(string) => Ok(Item::String(String { string })),
                Err(e) => Err(e),
            },
            9 => match decoder.read::<(Index<Class>, Index<NameAndType>)>() {
                Ok((class, name_and_type)) => Ok(Item::FieldRef(FieldRef { class, name_and_type })),
                Err(e) => Err(e),
            },
            10 => match decoder.read::<(Index<Class>, Index<NameAndType>)>() {
                Ok((class, name_and_type)) => Ok(Item::MethodRef(MethodRef { class, name_and_type })),
                Err(e) => Err(e),
            },
            11 => match decoder.read::<(Index<Class>, Index<NameAndType>)>() {
                Ok((class, name_and_type)) => Ok(Item::InterfaceMethodRef(InterfaceMethodRef { class, name_and_type })),
                Err(e) => Err(e),
            },
            12 => match decoder.read::<(Index<Utf8<'static>>, Index<Utf8<'static>>)>() {
                Ok((name, descriptor)) => Ok(Item::NameAndType(NameAndType { name, descriptor })),
                Err(e) => Err(e),
            },
            15 => match decoder.read::<(MethodKind, Index<Item<'static>>)>() {
                Ok((kind, reference)) => Ok(Item::MethodHandle(MethodHandle { kind, reference })),
                Err(e) => Err(e),
            },
            16 => match decoder.read() {
                Ok(descriptor) => Ok(Item::MethodType(MethodType { descriptor })),
                Err(e) => Err(e),
            },
            17 => match decoder.read::<(u16, Index<NameAndType>)>() {
                Ok((bootstrap_method_attr, name_and_type)) => Ok(
                    Item::Dynamic(Dynamic { bootstrap_method_attr, name_and_type }),
                ),
                Err(e) => Err(e),
            },
            18 => match decoder.read::<(u16, Index<NameAndType>)>() {
                Ok((bootstrap_method_attr, name_and_type)) => Ok(
                    Item::InvokeDynamic(InvokeDynamic { bootstrap_method_attr, name_and_type }),
                ),
                Err(e) => Err(e),
            },
            19 => match decoder.read() {
                Ok(name) => Ok(Item::Module(Module { name })),
                Err(e) => Err(e),
            },
            20 => match decoder.read() {
                Ok(name) => Ok(Item::Package(Package { name })),
                Err(e) => Err(e),
            },
            _ => Err(DecodeError::from_decoder(DecodeErrorKind::InvalidTag, decoder)),
        }
    }
}

/// The constant pool tags (JVMS §4.4, Table 4.4-B): an entry read after a tag is of the kind that
/// the tag stands for, `Utf8` 1, `Integer` 3, `Float` 4, `Long` 5, `Double` 6, `Class` 7,
/// `String` 8, `Fieldref` 9, `Methodref` 10, `InterfaceMethodref` 11, `NameAndType` 12,
/// `MethodHandle` 15, `MethodType` 16, `Dynamic` 17, `InvokeDynamic` 18, `Module` 19 and
/// `Package` 20; every other tag is refused.
pub proof fn lemma_item_tags<'input>(d: Decoder<'input>)
    requires
        d.in_bounds(),
        d.remaining() >= 1,
    ensures
        ({
            let tag = d.bytes()[0];
            let r = <Item<'input> as Decode<'input>>::spec_decode(d).0;
            &&& tag == 1 ==> (r is Ok ==> r->Ok_0 is Utf8)
            &&& tag == 3 ==> (r is Ok ==> r->Ok_0 is Integer)
            &&& tag == 4 ==> (r is Ok ==> r->Ok_0 is Float)
            &&& tag == 5 ==> (r is Ok ==> r->Ok_0 is Long)
            &&& tag == 6 ==> (r is Ok ==> r->Ok_0 is Double)
            &&& tag == 7 ==> (r is Ok ==> r->Ok_0 is Class)
            &&& tag == 8 ==> (r is Ok ==> r->Ok_0 is String)
            &&& tag == 9 ==> (r is Ok ==> r->Ok_0 is FieldRef)
            &&& tag == 10 ==> (r is Ok ==> r->Ok_0 is MethodRef)
            &&& tag == 11 ==> (r is Ok ==> r->Ok_0 is InterfaceMethodRef)
            &&& tag == 12 ==> (r is Ok ==> r->Ok_0 is NameAndType)
            &&& tag == 15 ==> (r is Ok ==> r->Ok_0 is MethodHandle)
            &&& tag == 16 ==> (r is Ok ==> r->Ok_0 is MethodType)
            &&& tag == 17 ==> (r is Ok ==> r->Ok_0 is Dynamic)
            &&& tag == 18 ==> (r is Ok ==> r->Ok_0 is InvokeDynamic)
            &&& tag == 19 ==> (r is Ok ==> r->Ok_0 is Module)
            &&& tag == 20 ==> (r is Ok ==> r->Ok_0 is Package)
            &&& (tag == 0 || tag == 2 || tag == 13 || tag == 14 || tag > 20) ==> r is Err
        }),
{
    lemma_read_byte(d);
}

/// The constant pool entries that refer to other entries (JVMS §4.4.1 to §4.4.6, §4.4.9,
/// §4.4.11, §4.4.12): after its tag, an entry holds one or two big-endian `u16` indexes, which
/// must not be 0; the entry refers to exactly those indexes and takes `1 + 2 * n` bytes.
pub proof fn lemma_reference_items<'input>(d: Decoder<'input>)
    requires
        d.in_bounds(),
        d.remaining() >= 3,
    ensures
        ({
            let tag = d.bytes()[0];
            let a = (d.bytes()[1] as nat * 256 + d.bytes()[2] as nat) as u16;
            let (r, after) = <Item<'input> as Decode<'input>>::spec_decode(d);
            &&& tag == 7 && a != 0 ==> r == Ok::<Item<'input>, DecodeError>(Item::Class(Class { name: Index::spec_new(a) })) && after == d.spec_advance(3)
            &&& tag == 8 && a != 0 ==> r == Ok::<Item<'input>, DecodeError>(Item::String(String { string: Index::spec_new(a) })) && after == d.spec_advance(3)
            &&& tag == 16 && a != 0 ==> r == Ok::<Item<'input>, DecodeError>(Item::MethodType(MethodType { descriptor: Index::spec_new(a) })) && after == d.spec_advance(3)
            &&& tag == 19 && a != 0 ==> r == Ok::<Item<'input>, DecodeError>(Item::Module(Module { name: Index::spec_new(a) })) && after == d.spec_advance(3)
            &&& tag == 20 && a != 0 ==> r == Ok::<Item<'input>, DecodeError>(Item::Package(Package { name: Index::spec_new(a) })) && after == d.spec_advance(3)
            &&& d.remaining() >= 5 ==> {
                let b = (d.bytes()[3] as nat * 256 + d.bytes()[4] as nat) as u16;
                &&& tag == 9 && a != 0 && b != 0 ==> r == Ok::<Item<'input>, DecodeError>(
                    Item::FieldRef(FieldRef { class: Index::spec_new(a), name_and_type: Index::spec_new(b) }),
                ) && after == d.spec_advance(5)
                &&& tag == 10 && a != 0 && b != 0 ==> r == Ok::<Item<'input>, DecodeError>(
                    Item::MethodRef(MethodRef { class: Index::spec_new(a), name_and_type: Index::spec_new(b) }),
                ) && after == d.spec_advance(5)
                &&& tag == 11 && a != 0 && b != 0 ==> r == Ok::<Item<'input>, DecodeError>(
                    Item::InterfaceMethodRef(InterfaceMethodRef { class: Index::spec_new(a), name_and_type: Index::spec_new(b) }),
                ) && after == d.spec_advance(5)
                &&& tag == 12 && a != 0 && b != 0 ==> r == Ok::<Item<'input>, DecodeError>(
                    Item::NameAndType(NameAndType { name: Index::spec_new(a), descriptor: Index::spec_new(b) }),
                ) && after == d.spec_advance(5)
            }
        }),
{
    lemma_read_byte(d);
    let d1 = d.spec_advance(1);
    lemma_read_u16(d1);
    assert(d1.bytes()[0] == d.bytes()[1] && d1.bytes()[1] == d.bytes()[2]);
    if d.remaining() >= 5 {
        let d2 = d1.spec_advance(2);
        lemma_read_u16(d2);
        assert(d2.bytes()[0] == d.bytes()[3] && d2.bytes()[1] == d.bytes()[4]);
        assert(d2.spec_advance(2) == d.spec_advance(5));
    }
    assert(d1.spec_advance(2) == d.spec_advance(3));
}

/// The method handle kinds (JVMS §4.4.8, Table 5.4.3.5-A): `REF_getField` 1, `REF_getStatic` 2,
/// `REF_putField` 3, `REF_putStatic` 4, `REF_invokeVirtual` 5, `REF_invokeStatic` 6,
/// `REF_invokeSpecial` 7, `REF_newInvokeSpecial` 8 and `REF_invokeInterface` 9; every other
/// kind is refused.
pub proof fn lemma_method_kinds<'input>(d: Decoder<'input>)
    requires
        d.in_bounds(),
        d.remaining() >= 1,
    ensures
        ({
            let k = d.bytes()[0];
            let r = <MethodKind as Decode<'input>>::spec_decode(d).0;
            &&& k == 1 ==> r == Ok::<MethodKind, DecodeError>(MethodKind::GetField)
            &&& k == 2 ==> r == Ok::<MethodKind, DecodeError>(MethodKind::GetStatic)
            &&& k == 3 ==> r == Ok::<MethodKind, DecodeError>(MethodKind::PutField)
            &&& k == 4 ==> r == Ok::<MethodKind, DecodeError>(MethodKind::PutStatic)
            &&& k == 5 ==> r == Ok::<MethodKind, DecodeError>(MethodKind::InvokeVirtual)
            &&& k == 6 ==> r == Ok::<MethodKind, DecodeError>(MethodKind::InvokeStatic)
            &&& k == 7 ==> r == Ok::<MethodKind, DecodeError>(MethodKind::InvokeSpecial)
            &&& k == 8 ==> r == Ok::<MethodKind, DecodeError>(MethodKind::NewInvokeSpecial)
            &&& k == 9 ==> r == Ok::<MethodKind, DecodeError>(MethodKind::InvokeInterface)
            &&& (k == 0 || k > 9) ==> r is Err
        }),
{
    lemma_read_byte(d);
}


/// An item that can be taken out of a constant pool entry.
pub trait TryFromItem<'a>: Sized {
    /// The value that an entry holds, if it is of this kind.
    spec fn spec_try_from_item(item: Item<'a>) -> Option<Self>;

    fn try_from_item<'b>(item: &'b Item<'a>) -> (r: Option<&'b Self>)
        ensures
            match r {
                Some(v) => Self::spec_try_from_item(*item) == Some(*v),
                None => Self::spec_try_from_item(*item) is None,
            },
    ;
}

/// Taking a kind of value out of a constant pool entry: an entry of that kind gives exactly its
/// value, and an entry of any other kind gives nothing.
pub proof fn lemma_try_from_item_kinds<'a>(item: Item<'a>)
    ensures
        <Utf8<'a> as TryFromItem<'a>>::spec_try_from_item(item) == (match item { Item::Utf8(v) => Some(v), _ => None::<Utf8<'a>> }),
        <Class as TryFromItem<'a>>::spec_try_from_item(item) == (match item { Item::Class(v) => Some(v), _ => None::<Class> }),
        <FieldRef as TryFromItem<'a>>::spec_try_from_item(item) == (match item { Item::FieldRef(v) => Some(v), _ => None::<FieldRef> }),
        <MethodRef as TryFromItem<'a>>::spec_try_from_item(item) == (match item { Item::MethodRef(v) => Some(v), _ => None::<MethodRef> }),
        <InterfaceMethodRef as TryFromItem<'a>>::spec_try_from_item(item) == (match item { Item::InterfaceMethodRef(v) => Some(v), _ => None::<InterfaceMethodRef> }),
        <String as TryFromItem<'a>>::spec_try_from_item(item) == (match item { Item::String(v) => Some(v), _ => None::<String> }),
        <Integer as TryFromItem<'a>>::spec_try_from_item(item) == (match item { Item::Integer(v) => Some(v), _ => None::<Integer> }),
        <Long as TryFromItem<'a>>::spec_try_from_item(item) == (match item { Item::Long(v) => Some(v), _ => None::<Long> }),
        <Float as TryFromItem<'a>>::spec_try_from_item(item) == (match item { Item::Float(v) => Some(v), _ => None::<Float> }),
        <Double as TryFromItem<'a>>::spec_try_from_item(item) == (match item { Item::Double(v) => Some(v), _ => None::<Double> }),
        <NameAndType as TryFromItem<'a>>::spec_try_from_item(item) == (match item { Item::NameAndType(v) => Some(v), _ => None::<NameAndType> }),
        <MethodHandle as TryFromItem<'a>>::spec_try_from_item(item) == (match item { Item::MethodHandle(v) => Some(v), _ => None::<MethodHandle> }),
        <MethodType as TryFromItem<'a>>::spec_try_from_item(item) == (match item { Item::MethodType(v) => Some(v), _ => None::<MethodType> }),
        <Dynamic as TryFromItem<'a>>::spec_try_from_item(item) == (match item { Item::Dynamic(v) => Some(v), _ => None::<Dynamic> }),
        <InvokeDynamic as TryFromItem<'a>>::spec_try_from_item(item) == (match item { Item::InvokeDynamic(v) => Some(v), _ => None::<InvokeDynamic> }),
        <Module as TryFromItem<'a>>::spec_try_from_item(item) == (match item { Item::Module(v) => Some(v), _ => None::<Module> }),
        <Package as TryFromItem<'a>>::spec_try_from_item(item) == (match item { Item::Package(v) => Some(v), _ => None::<Package> }),
        <Item<'a> as TryFromItem<'a>>::spec_try_from_item(item) == Some(item),
{
}

impl<'a> TryFromItem<'a> for Item<'a> {
    open spec fn spec_try_from_item(item: Item<'a>) -> Option<Item<'a>> {
        Some(item)
    }

    fn try_from_item<'b>(item: &'b Item<'a>) -> (r: Option<&'b Item<'a>>) {
        Some(item)
    }
}

impl<'a> TryFromItem<'a> for Utf8<'a> {
    open spec fn spec_try_from_item(item: Item<'a>) -> Option<Utf8<'a>> {
        match item {
            Item::Utf8(v) => Some(v),
            _ => None,
        }
    }

    fn try_from_item<'b>(item: &'b Item<'a>) -> (r: Option<&'b Utf8<'a>>) {
        match item {
            Item::Utf8(v) => Some(v),
            _ => None,
        }
    }
}

impl<'a> TryFromItem<'a> for Class {
    open spec fn spec_try_from_item(item: Item<'a>) -> Option<Class> {
        match item {
            Item::Class(v) => Some(v),
            _ => None,
        }
    }

    fn try_from_item<'b>(item: &'b Item<'a>) -> (r: Option<&'b Class>) {
        match item {
            Item::Class(v) => Some(v),
            _ => None,
        }
    }
}

impl<'a> TryFromItem<'a> for FieldRef {
    open spec fn spec_try_from_item(item: Item<'a>) -> Option<FieldRef> {
        match item {
            Item::FieldRef(v) => Some(v),
            _ => None,
        }
    }

    fn try_from_item<'b>(item: &'b Item<'a>) -> (r: Option<&'b FieldRef>) {
        match item {
            Item::FieldRef(v) => Some(v),
            _ => None,
        }
    }
}

impl<'a> TryFromItem<'a> for MethodRef {
    open spec fn spec_try_from_item(item: Item<'a>) -> Option<MethodRef> {
        match item {
            Item::MethodRef(v) => Some(v),
            _ => None,
        }
    }

    fn try_from_item<'b>(item: &'b Item<'a>) -> (r: Option<&'b MethodRef>) {
        match item {
            Item::MethodRef(v) => Some(v),
            _ => None,
        }
    }
}

impl<'a> TryFromItem<'a> for InterfaceMethodRef {
    open spec fn spec_try_from_item(item: Item<'a>) -> Option<InterfaceMethodRef> {
        match item {
            Item::InterfaceMethodRef(v) => Some(v),
            _ => None,
        }
    }

    fn try_from_item<'b>(item: &'b Item<'a>) -> (r: Option<&'b InterfaceMethodRef>) {
        match item {
            Item::InterfaceMethodRef(v) => Some(v),
            _ => None,
        }
    }
}

impl<'a> TryFromItem<'a> for String {
    open spec fn spec_try_from_item(item: Item<'a>) -> Option<String> {
        match item {
            Item::String(v) => Some(v),
            _ => None,
        }
    }

    fn try_from_item<'b>(item: &'b Item<'a>) -> (r: Option<&'b String>) {
        match item {
            Item::String(v) => Some(v),
            _ => None,
        }
    }
}

impl<'a> TryFromItem<'a> for Integer {
    open spec fn spec_try_from_item(item: Item<'a>) -> Option<Integer> {
        match item {
            Item::Integer(v) => Some(v),
            _ => None,
        }
    }

    fn try_from_item<'b>(item: &'b Item<'a>) -> (r: Option<&'b Integer>) {
        match item {
            Item::Integer(v) => Some(v),
            _ => None,
        }
    }
}

impl<'a> TryFromItem<'a> for Long {
    open spec fn spec_try_from_item(item: Item<'a>) -> Option<Long> {
        match item {
            Item::Long(v) => Some(v),
            _ => None,
        }
    }

    fn try_from_item<'b>(item: &'b Item<'a>) -> (r: Option<&'b Long>) {
        match item {
            Item::Long(v) => Some(v),
            _ => None,
        }
    }
}

impl<'a> TryFromItem<'a> for Float {
    open spec fn spec_try_from_item(item: Item<'a>) -> Option<Float> {
        match item {
            Item::Float(v) => Some(v),
            _ => None,
        }
    }

    fn try_from_item<'b>(item: &'b Item<'a>) -> (r: Option<&'b Float>) {
        match item {
            Item::Float(v) => Some(v),
            _ => None,
        }
    }
}

impl<'a> TryFromItem<'a> for Double {
    open spec fn spec_try_from_item(item: Item<'a>) -> Option<Double> {
        match item {
            Item::Double(v) => Some(v),
            _ => None,
        }
    }

    fn try_from_item<'b>(item: &'b Item<'a>) -> (r: Option<&'b Double>) {
        match item {
            Item::Double(v) => Some(v),
            _ => None,
        }
    }
}

impl<'a> TryFromItem<'a> for NameAndType {
    open spec fn spec_try_from_item(item: Item<'a>) -> Option<NameAndType> {
        match item {
            Item::NameAndType(v) => Some(v),
            _ => None,
        }
    }

    fn try_from_item<'b>(item: &'b Item<'a>) -> (r: Option<&'b NameAndType>) {
        match item {
            Item::NameAndType(v) => Some(v),
            _ => None,
        }
    }
}

impl<'a> TryFromItem<'a> for MethodHandle {
    open spec fn spec_try_from_item(item: Item<'a>) -> Option<MethodHandle> {
        match item {
            Item::MethodHandle(v) => Some(v),
            _ => None,
        }
    }

    fn try_from_item<'b>(item: &'b Item<'a>) -> (r: Option<&'b MethodHandle>) {
        match item {
            Item::MethodHandle(v) => Some(v),
            _ => None,
        }
    }
}

impl<'a> TryFromItem<'a> for MethodType {
    open spec fn spec_try_from_item(item: Item<'a>) -> Option<MethodType> {
        match item {
            Item::MethodType(v) => Some(v),
            _ => None,
        }
    }

    fn try_from_item<'b>(item: &'b Item<'a>) -> (r: Option<&'b MethodType>) {
        match item {
            Item::MethodType(v) => Some(v),
            _ => None,
        }
    }
}

impl<'a> TryFromItem<'a> for Dynamic {
    open spec fn spec_try_from_item(item: Item<'a>) -> Option<Dynamic> {
        match item {
            Item::Dynamic(v) => Some(v),
            _ => None,
        }
    }

    fn try_from_item<'b>(item: &'b Item<'a>) -> (r: Option<&'b Dynamic>) {
        match item {
            Item::Dynamic(v) => Some(v),
            _ => None,
        }
    }
}

impl<'a> TryFromItem<'a> for InvokeDynamic {
    open spec fn spec_try_from_item(item: Item<'a>) -> Option<InvokeDynamic> {
        match item {
            Item::InvokeDynamic(v) => Some(v),
            _ => None,
        }
    }

    fn try_from_item<'b>(item: &'b Item<'a>) -> (r: Option<&'b InvokeDynamic>) {
        match item {
            Item::InvokeDynamic(v) => Some(v),
            _ => None,
        }
    }
}

impl<'a> TryFromItem<'a> for Module {
    open spec fn spec_try_from_item(item: Item<'a>) -> Option<Module> {
        match item {
            Item::Module(v) => Some(v),
            _ => None,
        }
    }

    fn try_from_item<'b>(item: &'b Item<'a>) -> (r: Option<&'b Module>) {
        match item {
            Item::Module(v) => Some(v),
            _ => None,
        }
    }
}

impl<'a> TryFromItem<'a> for Package {
    open spec fn spec_try_from_item(item: Item<'a>) -> Option<Package> {
        match item {
            Item::Package(v) => Some(v),
            _ => None,
        }
    }

    fn try_from_item<'b>(item: &'b Item<'a>) -> (r: Option<&'b Package>) {
        match item {
            Item::Package(v) => Some(v),
            _ => None,
        }
    }
}

/// The constant pool of a class file.
///
/// Entry `i` (counted from 0) is the item at index `i + 1`; the entry after a
/// `Long` or `Double` is empty, as such an item takes up two indices.
#[derive(Debug)]
pub struct ConstantPool<'a> {
    pub(crate) content: Vec<Option<Item<'a>>>,
}

/// The entries after `item` was added to `entries`.
pub open spec fn push_item<'a>(entries: Seq<Option<Item<'a>>>, item: Item<'a>) -> Seq<Option<Item<'a>>> {
    if item.is_wide() {
        entries.push(Some(item)).push(None)
    } else {
        entries.push(Some(item))
    }
}

/// Reading items after `entries` until at least `length` entries are filled:
/// the entries, or the first error, and the decoder left behind.
pub open spec fn spec_pool_entries<'input>(
    d: Decoder<'input>,
    entries: Seq<Option<Item<'input>>>,
    length: nat,
) -> (Result<Seq<Option<Item<'input>>>, DecodeError>, Decoder<'input>)
    decreases length + 1 - entries.len(),
{
    if entries.len() >= length {
        (Ok(entries), d)
    } else {
        let (r, after) = Item::spec_decode(d);
        match r {
            Err(e) => (Err(e), after),
            Ok(item) => spec_pool_entries(after, push_item(entries, item), length),
        }
    }
}

/// Reading a constant pool: its entry count plus one, then its items.
/// A count of 0 is refused.
pub open spec fn spec_read_pool<'input>(decoder: Decoder<'input>) -> (
    Result<Seq<Option<Item<'input>>>, DecodeError>,
    Decoder<'input>,
) {
    let (rl, d) = u16::spec_decode(decoder.spec_with_context(Context::ConstantPool));
    match rl {
        Err(e) => (Err(e), d),
        Ok(length) => if length == 0 {
            (Err(d.error_here(DecodeErrorKind::InvalidLength)), d)
        } else {
            spec_pool_entries(d, Seq::empty(), (length - 1) as nat)
        },
    }
}

/// The items of the entries that are not empty, in order.
pub open spec fn present_items<'a>(entries: Seq<Option<Item<'a>>>) -> Seq<Item<'a>>
    decreases entries.len(),
{
    if entries.len() == 0 {
        Seq::empty()
    } else {
        let rest = present_items(entries.drop_last());
        match entries.last() {
            Some(item) => rest.push(item),
            None => rest,
        }
    }
}

/// The items of the entries that are not empty, each with its index, in order.
pub open spec fn indexed_items<'a>(entries: Seq<Option<Item<'a>>>) -> Seq<(Index<Item<'a>>, Item<'a>)>
    decreases entries.len(),
{
    if entries.len() == 0 {
        Seq::empty()
    } else {
        let rest = indexed_items(entries.drop_last());
        match entries.last() {
            Some(item) => rest.push((Index::spec_new(entries.len() as u16), item)),
            None => rest,
        }
    }
}

impl<'a> Clone for ConstantPool<'a> {
    fn clone(&self) -> (r: ConstantPool<'a>)
        ensures
            r.entries() == self.entries(),
    {
        proof {
            use_type_invariant(self);
        }
        let mut content: Vec<Option<Item<'a>>> = Vec::with_capacity(self.content.len());
        let mut i: usize = 0;
        while i < self.content.len()
            invariant
                i <= self.content@.len() <= u16::MAX,
                content@ == self.content@.take(i as int),
            decreases self.content@.len() - i,
        {
            let entry: Option<Item<'a>> = match &self.content[i] {
                Some(item) => Some(*item),
                None => None,
            };
            content.push(entry);
            i = i + 1;
        }
        proof {
            assert(self.content@.take(i as int) =~= self.content@);
        }
        ConstantPool { content }
    }
}

impl<'a> ConstantPool<'a> {
    #[verifier::type_invariant]
    pub(crate) closed spec fn inv(self) -> bool {
        self.content@.len() <= u16::MAX
    }

    /// The entries of the pool; entry `i` holds the item at index `i + 1`.
    pub open(crate) spec fn entries(self) -> Seq<Option<Item<'a>>> {
        self.content@
    }

    /// What `get` gives back for index `at`.
    pub open spec fn spec_get<I: TryFromItem<'a>>(self, at: u16) -> Result<I, DecodeError> {
        let pos = at as int;
        if 1 <= pos <= self.entries().len() && self.entries()[pos - 1] is Some {
            match I::spec_try_from_item(self.entries()[pos - 1]->0) {
                Some(v) => Ok(v),
                None => Err(spec_error(DecodeErrorKind::TagMismatch, None, Context::ConstantPool)),
            }
        } else {
            Err(spec_error(DecodeErrorKind::InvalidIndex, None, Context::ConstantPool))
        }
    }

    /// A pool with the given entries.
    pub fn from_entries(content: Vec<Option<Item<'a>>>) -> (r: ConstantPool<'a>)
        requires
            content@.len() <= u16::MAX,
        ensures
            r.entries() == content@,
    {
        ConstantPool { content }
    }

    /// Reads the pool: the entry count plus one, then the items.
    pub fn decode(decoder: &mut Decoder<'a>) -> (r: Result<ConstantPool<'a>, DecodeError>)
        ensures
            *final(decoder) == spec_read_pool(*old(decoder)).1,
            match spec_read_pool(*old(decoder)).0 {
                Ok(entries) => r is Ok && r->Ok_0.entries() == entries,
                Err(e) => r == Err::<ConstantPool<'a>, DecodeError>(e),
            },
    {
        decoder.set_context(Context::ConstantPool);
        let length: u16 = match decoder.read() {
            Ok(length) => length,
            Err(e) => return Err(e),
        };
        if length == 0 {
            return Err(DecodeError::from_decoder(DecodeErrorKind::InvalidLength, decoder));
        }
        let length = length as usize - 1;
        let mut content: Vec<Option<Item<'a>>> = Vec::with_capacity(length);
        let ghost target = spec_read_pool(*old(decoder));
        while content.len() < length
            invariant
                length < u16::MAX,
                content@.len() <= length + 1,
                spec_pool_entries(*decoder, content@, length as nat) == target,
                target == spec_read_pool(*old(decoder)),
            decreases length + 1 - content@.len(),
        {
            let ghost before = *decoder;
            let item: Item<'a> = match decoder.read() {
                Ok(item) => item,
                Err(e) => {
                    assert(spec_pool_entries(before, content@, length as nat) == (
                        Err::<Seq<Option<Item<'a>>>, DecodeError>(e),
                        *decoder,
                    ));
                    return Err(e);
                },
            };
            let wide = match item {
                Item::Long(_) | Item::Double(_) => true,
                _ => false,
            };
            content.push(Some(item));
            if wide {
                content.push(None);
            }
        }
        Ok(ConstantPool { content })
    }

    /// The item at index `at`, if it is of kind `I`.
    pub fn get<I: TryFromItem<'a>>(&self, at: Index<I>) -> (r: Result<&I, DecodeError>)
        ensures
            match r {
                Ok(v) => self.spec_get::<I>(at.spec_index()) == Ok::<I, DecodeError>(*v),
                Err(e) => self.spec_get::<I>(at.spec_index()) == Err::<I, DecodeError>(e),
            },
    {
        let pos = at.as_u16() as usize;
        if pos != 0 && pos <= self.content.len() {
            if let Some(item) = &self.content[pos - 1] {
                return match I::try_from_item(item) {
                    Some(v) => Ok(v),
                    None => Err(DecodeError::with_context(DecodeErrorKind::TagMismatch, Context::ConstantPool)),
                };
            }
        }
        Err(DecodeError::with_context(DecodeErrorKind::InvalidIndex, Context::ConstantPool))
    }

    /// The items of the pool, in order, without the empty entries.
    pub fn iter(&self) -> (r: Vec<Item<'a>>)
        ensures
            r@ == present_items(self.entries()),
    {
        let mut r: Vec<Item<'a>> = Vec::new();
        let mut i: usize = 0;
        while i < self.content.len()
            invariant
                i <= self.content@.len(),
                r@ == present_items(self.content@.take(i as int)),
            decreases self.content@.len() - i,
        {
            proof {
                assert(self.content@.take(i + 1).drop_last() =~= self.content@.take(i as int));
            }
            if let Some(item) = &self.content[i] {
                r.push(*item);
            }
            i = i + 1;
        }
        proof {
            assert(self.content@.take(i as int) =~= self.content@);
        }
        r
    }

    /// The items of the pool, in order, each with its index.
    pub fn iter_indices(&self) -> (r: Vec<(Index<Item<'a>>, Item<'a>)>)
        ensures
            r@ == indexed_items(self.entries()),
    {
        proof {
            use_type_invariant(self);
        }
        let mut r: Vec<(Index<Item<'a>>, Item<'a>)> = Vec::new();
        let mut i: usize = 0;
        while i < self.content.len()
            invariant
                i <= self.content@.len() <= u16::MAX,
                r@ == indexed_items(self.content@.take(i as int)),
            decreases self.content@.len() - i,
        {
            proof {
                assert(self.content@.take(i + 1).drop_last() =~= self.content@.take(i as int));
            }
            if let Some(item) = &self.content[i] {
                let index: Index<Item<'a>> = Index { index: i as u16 + 1, mark: PhantomData };
                r.push((index, *item));
            }
            i = i + 1;
        }
        proof {
            assert(self.content@.take(i as int) =~= self.content@);
        }
        r
    }
}

/// Every `Long` or `Double` entry is followed by an empty one, and every empty entry follows one.
pub open spec fn wide_items_pad(entries: Seq<Option<Item>>) -> bool {
    forall|i: int|
        0 <= i < entries.len() ==> (#[trigger] entries[i] is None <==> (i > 0 && entries[i - 1] is Some
            && entries[i - 1]->0.is_wide()))
}

proof fn lemma_pool_entries_pad<'input>(d: Decoder<'input>, entries: Seq<Option<Item<'input>>>, length: nat)
    requires
        wide_items_pad(entries),
        entries.len() > 0 ==> !(entries.last() is Some && entries.last()->0.is_wide()),
    ensures
        spec_pool_entries(d, entries, length).0 matches Ok(r) ==> wide_items_pad(r),
    decreases length + 1 - entries.len(),
{
    if entries.len() < length {
        let (r, after) = Item::spec_decode(d);
        if let Ok(item) = r {
            let next = push_item(entries, item);
            assert(wide_items_pad(next)) by {
                assert forall|i: int| 0 <= i < next.len() implies (#[trigger] next[i] is None <==> (i > 0
                    && next[i - 1] is Some && next[i - 1]->0.is_wide())) by {
                    if i < entries.len() {
                        assert(next[i] == entries[i]);
                        if i > 0 {
                            assert(next[i - 1] == entries[i - 1]);
                        }
                    }
                }
            }
            lemma_pool_entries_pad(after, next, length);
        }
    }
}

/// In a pool that was read, each `Long` and `Double` takes up two indices: the
/// entry after one is empty, and no other entry is.
pub proof fn lemma_read_pool_pads_wide_items<'input>(decoder: Decoder<'input>)
    ensures
        spec_read_pool(decoder).0 matches Ok(entries) ==> wide_items_pad(entries),
{
    let (rl, d) = u16::spec_decode(decoder.spec_with_context(Context::ConstantPool));
    if let Ok(length) = rl {
        if length != 0 {
            lemma_pool_entries_pad(d, Seq::empty(), (length - 1) as nat);
        }
    }
}

proof fn lemma_indexed_items_point_back<'a>(entries: Seq<Option<Item<'a>>>)
    requires
        entries.len() <= u16::MAX,
    ensures
        forall|k: int|
            0 <= k < indexed_items(entries).len() ==> {
                let (at, item) = #[trigger] indexed_items(entries)[k];
                &&& 1 <= at.spec_index() <= entries.len()
                &&& entries[at.spec_index() - 1] == Some(item)
            },
    decreases entries.len(),
{
    if entries.len() > 0 {
        lemma_indexed_items_point_back(entries.drop_last());
        let rest = indexed_items(entries.drop_last());
        assert forall|k: int| 0 <= k < indexed_items(entries).len() implies {
            let (at, item) = #[trigger] indexed_items(entries)[k];
            &&& 1 <= at.spec_index() <= entries.len()
            &&& entries[at.spec_index() - 1] == Some(item)
        } by {
            if k < rest.len() {
                assert(indexed_items(entries)[k] == rest[k]);
                let (at, item) = rest[k];
                assert(entries.drop_last()[at.spec_index() - 1] == Some(item));
            }
        }
    }
}

/// Each index that `iter_indices` hands out gives back its item through `get`.
pub proof fn lemma_iter_indices_agree_with_get<'a>(pool: ConstantPool<'a>, k: int)
    requires
        pool.entries().len() <= u16::MAX,
        0 <= k < indexed_items(pool.entries()).len(),
    ensures
        pool.spec_get::<Item<'a>>(indexed_items(pool.entries())[k].0.spec_index()) == Ok::<Item<'a>, DecodeError>(
            indexed_items(pool.entries())[k].1,
        ),
{
    lemma_indexed_items_point_back(pool.entries());
}

} // verus!
