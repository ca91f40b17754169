//! The class file as a whole.

use crate::error::{Context, DecodeError, DecodeErrorKind};
use crate::header::{AccessFlags, Version};
use crate::reader::attributes::Attribute;
use crate::reader::cpool;
use crate::reader::cpool::{spec_read_pool, ConstantPool, Item};
use crate::reader::decoding::{lemma_read_u16, lemma_read_u32, Decode, DecodeMany, Decoder};
use crate::reader::items::{Field, Method};
use vstd::prelude::*;

verus! {

/// What a class file holds after its header: the constant pool's entries, the access flags,
/// this class and its superclass, the interfaces, fields, methods and attributes.
pub type ClassBody<'input> = (
    (AccessFlags, cpool::Index<cpool::Class>, Option<cpool::Index<cpool::Class>>),
    DecodeMany<'input, cpool::Index<cpool::Class>, u16>,
    DecodeMany<'input, Field<'input>, u16>,
    DecodeMany<'input, Method<'input>, u16>,
    DecodeMany<'input, Attribute<'input>, u16>,
);

/// A class file, read as far as its parts' boundaries; the parts are read on demand.
#[derive(Debug, Clone)]
pub struct Class<'input> {
    pub(crate) version: Version,
    pub(crate) pool: ConstantPool<'input>,
    pub(crate) access_flags: AccessFlags,
    pub(crate) this_class: cpool::Index<cpool::Class>,
    pub(crate) super_class: Option<cpool::Index<cpool::Class>>,
    pub(crate) interfaces: DecodeMany<'input, cpool::Index<cpool::Class>, u16>,
    pub(crate) fields: DecodeMany<'input, Field<'input>, u16>,
    pub(crate) methods: DecodeMany<'input, Method<'input>, u16>,
    pub(crate) attributes: DecodeMany<'input, Attribute<'input>, u16>,
    pub(crate) buffer_size: usize,
}

/// Reading the header: the magic number `0xCAFEBABE`, then the minor and the major version.
pub open spec fn spec_read_header<'input>(d: Decoder<'input>) -> (Result<Version, DecodeError>, Decoder<'input>) {
    let (rm, d1) = <u32 as Decode<'input>>::spec_decode(d);
    match rm {
        Err(e) => (Err(e), d1),
        Ok(magic) => if magic == 0xCAFE_BABE {
            let (rv, d2) = <(u16, u16) as Decode<'input>>::spec_decode(d1);
            match rv {
                Err(e) => (Err(e), d2),
                Ok(v) => (Ok(Version { major: v.1, minor: v.0 }), d2),
            }
        } else {
            (Err(d1.error_here(DecodeErrorKind::InvalidPrefix)), d1)
        },
    }
}

/// The header of a class file (JVMS §4.1): the four bytes `CA FE BA BE`, then the minor and the
/// major version as big-endian `u16`; any other first four bytes are refused as a wrong prefix.
pub proof fn lemma_header_layout<'input>(d: Decoder<'input>)
    requires
        d.in_bounds(),
        d.remaining() >= 8,
    ensures
        ({
            let b = d.bytes();
            let (r, after) = spec_read_header(d);
            &&& (b[0] == 0xCA && b[1] == 0xFE && b[2] == 0xBA && b[3] == 0xBE) ==> r == Ok::<Version, DecodeError>(
                Version {
                    minor: (b[4] as nat * 256 + b[5] as nat) as u16,
                    major: (b[6] as nat * 256 + b[7] as nat) as u16,
                },
            ) && after == d.spec_advance(8)
            &&& !(b[0] == 0xCA && b[1] == 0xFE && b[2] == 0xBA && b[3] == 0xBE) ==> r
                == Err::<Version, DecodeError>(d.spec_advance(4).error_here(DecodeErrorKind::InvalidPrefix))
        }),
{
    let b = d.bytes();
    lemma_read_u32(d);
    let d4 = d.spec_advance(4);
    lemma_read_u16(d4);
    let d6 = d4.spec_advance(2);
    lemma_read_u16(d6);
    assert(d4.bytes()[0] == b[4] && d4.bytes()[1] == b[5]);
    assert(d6.bytes()[0] == b[6] && d6.bytes()[1] == b[7]);
    assert(d6.spec_advance(2) == d.spec_advance(8));
    let x0 = b[0] as int;
    let x1 = b[1] as int;
    let x2 = b[2] as int;
    let x3 = b[3] as int;
    assert(0 <= x0 < 256 && 0 <= x1 < 256 && 0 <= x2 < 256 && 0 <= x3 < 256);
    let m = ((x0 * 256 + x1) * 256 + x2) * 256 + x3;
    assert(0 <= m < 0x1_0000_0000);
    if m == 0xCAFE_BABE {
        assert(x0 == 0xCA && x1 == 0xFE && x2 == 0xBA && x3 == 0xBE);
    }
}

/// Reads the header of a class file.
pub fn read_header(decoder: &mut Decoder<'_>) -> (r: Result<Version, DecodeError>)
    ensures
        (r, *final(decoder)) == spec_read_header(*old(decoder)),
{
    let magic: u32 = match decoder.read() {
        Ok(magic) => magic,
        Err(e) => return Err(e),
    };
    if magic == 0xCAFE_BABE {
        match decoder.read::<(u16, u16)>() {
            Ok((minor, major)) => Ok(Version { major, minor }),
            Err(e) => Err(e),
        }
    } else {
        Err(DecodeError::from_decoder(DecodeErrorKind::InvalidPrefix, decoder))
    }
}

/// Reading what follows the constant pool, each part with its own context, and the position after it.
pub open spec fn spec_class_body<'input>(d: Decoder<'input>) -> Result<(ClassBody<'input>, usize), DecodeError> {
    let (ri, d1) = <(AccessFlags, cpool::Index<cpool::Class>, Option<cpool::Index<cpool::Class>>) as Decode<'input>>::spec_decode(
        d.spec_with_context(Context::ClassInfo),
    );
    match ri {
        Err(e) => Err(e),
        Ok(info) => {
            let (rn, d2) = <DecodeMany<'input, cpool::Index<cpool::Class>, u16> as Decode<'input>>::spec_decode(
                d1.spec_with_context(Context::Interfaces),
            );
            match rn {
                Err(e) => Err(e),
                Ok(interfaces) => {
                    let (rf, d3) = <DecodeMany<'input, Field<'input>, u16> as Decode<'input>>::spec_decode(
                        d2.spec_with_context(Context::Fields),
                    );
                    match rf {
                        Err(e) => Err(e),
                        Ok(fields) => {
                            let (rm, d4) = <DecodeMany<'input, Method<'input>, u16> as Decode<'input>>::spec_decode(
                                d3.spec_with_context(Context::Methods),
                            );
                            match rm {
                                Err(e) => Err(e),
                                Ok(methods) => {
                                    let (ra, d5) = <DecodeMany<'input, Attribute<'input>, u16> as Decode<
                                        'input,
                                    >>::spec_decode(d4.spec_with_context(Context::Attributes));
                                    match ra {
                                        Err(e) => Err(e),
                                        Ok(attributes) => Ok(((info, interfaces, fields, methods, attributes), d5.pos())),
                                    }
                                },
                            }
                        },
                    }
                },
            }
        },
    }
}

/// Reading a class file: the header, the constant pool and what follows it.
pub open spec fn spec_read_class<'input>(v: &'input [u8]) -> Result<
    (Version, Seq<Option<Item<'input>>>, ClassBody<'input>, usize),
    DecodeError,
> {
    let (rh, d1) = spec_read_header(Decoder::spec_new(v, Context::Start));
    match rh {
        Err(e) => Err(e),
        Ok(version) => {
            let (rp, d2) = spec_read_pool(d1);
            match rp {
                Err(e) => Err(e),
                Ok(entries) => match spec_class_body(d2) {
                    Err(e) => Err(e),
                    Ok((body, size)) => Ok((version, entries, body, size)),
                },
            }
        },
    }
}

impl<'input> Class<'input> {
    /// The parts of the class, as `spec_read_class` gives them back.
    pub open(crate) spec fn parts(self) -> (Version, Seq<Option<Item<'input>>>, ClassBody<'input>, usize) {
        (
            self.version,
            self.pool.entries(),
            (
                (self.access_flags, self.this_class, self.super_class),
                self.interfaces,
                self.fields,
                self.methods,
                self.attributes,
            ),
            self.buffer_size,
        )
    }

    /// Reads a class file as far as its parts' boundaries.
    pub fn new(v: &'input [u8]) -> (r: Result<Class<'input>, DecodeError>)
        ensures
            match spec_read_class(v) {
                Ok(parts) => r is Ok && r->Ok_0.parts() == parts,
                Err(e) => r == Err::<Class<'input>, DecodeError>(e),
            },
    {
        let mut decoder = Decoder::new(v, Context::Start);
        let version = match read_header(&mut decoder) {
            Ok(version) => version,
            Err(e) => return Err(e),
        };
        decoder.set_context(Context::ConstantPool);
        let pool = match ConstantPool::decode(&mut decoder) {
            Ok(pool) => pool,
            Err(e) => return Err(e),
        };
        decoder.set_context(Context::ClassInfo);
        let (access_flags, this_class, super_class): (
            AccessFlags,
            cpool::Index<cpool::Class>,
            Option<cpool::Index<cpool::Class>>,
        ) = match decoder.read() {
            Ok(info) => info,
            Err(e) => return Err(e),
        };
        decoder.set_context(Context::Interfaces);
        let interfaces: DecodeMany<'input, cpool::Index<cpool::Class>, u16> = match decoder.read() {
            Ok(interfaces) => interfaces,
            Err(e) => return Err(e),
        };
        decoder.set_context(Context::Fields);
        let fields: DecodeMany<'input, Field<'input>, u16> = match decoder.read() {
            Ok(fields) => fields,
            Err(e) => return Err(e),
        };
        decoder.set_context(Context::Methods);
        let methods: DecodeMany<'input, Method<'input>, u16> = match decoder.read() {
            Ok(methods) => methods,
            Err(e) => return Err(e),
        };
        decoder.set_context(Context::Attributes);
        let attributes: DecodeMany<'input, Attribute<'input>, u16> = match decoder.read() {
            Ok(attributes) => attributes,
            Err(e) => return Err(e),
        };
        let buffer_size = decoder.file_position();
        Ok(
            Class {
                version,
                pool,
                access_flags,
                this_class,
                super_class,
                interfaces,
                fields,
                methods,
                attributes,
                buffer_size,
            },
        )
    }

    pub open(crate) spec fn spec_version(self) -> Version {
        self.version
    }

    pub open(crate) spec fn spec_pool(self) -> ConstantPool<'input> {
        self.pool
    }

    pub open(crate) spec fn spec_access_flags(self) -> AccessFlags {
        self.access_flags
    }

    pub open(crate) spec fn spec_this_class(self) -> cpool::Index<cpool::Class> {
        self.this_class
    }

    pub open(crate) spec fn spec_super_class(self) -> Option<cpool::Index<cpool::Class>> {
        self.super_class
    }

    pub open(crate) spec fn spec_interfaces(self) -> DecodeMany<'input, cpool::Index<cpool::Class>, u16> {
        self.interfaces
    }

    pub open(crate) spec fn spec_fields(self) -> DecodeMany<'input, Field<'input>, u16> {
        self.fields
    }

    pub open(crate) spec fn spec_methods(self) -> DecodeMany<'input, Method<'input>, u16> {
        self.methods
    }

    pub open(crate) spec fn spec_attributes(self) -> DecodeMany<'input, Attribute<'input>, u16> {
        self.attributes
    }

    pub open(crate) spec fn spec_buffer_size(self) -> usize {
        self.buffer_size
    }

    pub fn version(&self) -> (r: Version)
        ensures
            r == self.spec_version(),
    {
        self.version
    }

    /// The constant pool of the class.
    pub fn pool(&self) -> (r: &ConstantPool<'input>)
        ensures
            *r == self.spec_pool(),
    {
        &self.pool
    }

    /// The access flags of the class; they may not all be valid for a class.
    pub fn access_flags(&self) -> (r: AccessFlags)
        ensures
            r == self.spec_access_flags(),
    {
        self.access_flags
    }

    /// The index of this class's name.
    pub fn this_class(&self) -> (r: cpool::Index<cpool::Class>)
        ensures
            r == self.spec_this_class(),
    {
        self.this_class
    }

    pub fn super_class(&self) -> (r: Option<cpool::Index<cpool::Class>>)
        ensures
            r == self.spec_super_class(),
    {
        self.super_class
    }

    /// The indices of the interfaces that the class implements.
    pub fn interfaces(&self) -> (r: DecodeMany<'input, cpool::Index<cpool::Class>, u16>)
        ensures
            r == self.spec_interfaces(),
    {
        self.interfaces
    }

    pub fn fields(&self) -> (r: DecodeMany<'input, Field<'input>, u16>)
        ensures
            r == self.spec_fields(),
    {
        self.fields
    }

    pub fn methods(&self) -> (r: DecodeMany<'input, Method<'input>, u16>)
        ensures
            r == self.spec_methods(),
    {
        self.methods
    }

    pub fn attributes(&self) -> (r: DecodeMany<'input, Attribute<'input>, u16>)
        ensures
            r == self.spec_attributes(),
    {
        self.attributes
    }

    /// The number of bytes that the class file takes up.
    pub fn buffer_size(&self) -> (r: usize)
        ensures
            r == self.spec_buffer_size(),
    {
        self.buffer_size
    }
}

} // verus!
