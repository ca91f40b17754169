//! The version of a class file and access flags.

use crate::error::DecodeError;
use crate::reader::decoding::{Decode, Decoder};
use vstd::prelude::*;

verus! {

/// The version of a class file.
#[derive(Debug, Clone, Copy, PartialEq, Eq, PartialOrd, Ord, Structural)]
pub struct Version {
    pub major: u16,
    pub minor: u16,
}

impl Version {
    #[allow(non_snake_case)]
    pub fn V1_0_2() -> (r: Version)
        ensures
            r == (Version { major: 45, minor: 3 }),
    {
        Version { major: 45, minor: 3 }
    }

    #[allow(non_snake_case)]
    pub fn V1_1() -> (r: Version)
        ensures
            r == (Version { major: 45, minor: 3 }),
    {
        Version { major: 45, minor: 3 }
    }

    #[allow(non_snake_case)]
    pub fn V1_2() -> (r: Version)
        ensures
            r == (Version { major: 46, minor: 0 }),
    {
        Version { major: 46, minor: 0 }
    }

    #[allow(non_snake_case)]
    pub fn V1_3() -> (r: Version)
        ensures
            r == (Version { major: 47, minor: 0 }),
    {
        Version { major: 47, minor: 0 }
    }

    #[allow(non_snake_case)]
    pub fn V1_4() -> (r: Version)
        ensures
            r == (Version { major: 48, minor: 0 }),
    {
        Version { major: 48, minor: 0 }
    }

    #[allow(non_snake_case)]
    pub fn V5_0() -> (r: Version)
        ensures
            r == (Version { major: 49, minor: 0 }),
    {
        Version { major: 49, minor: 0 }
    }

    #[allow(non_snake_case)]
    pub fn V6() -> (r: Version)
        ensures
            r == (Version { major: 50, minor: 0 }),
    {
        Version { major: 50, minor: 0 }
    }

    #[allow(non_snake_case)]
    pub fn V7() -> (r: Version)
        ensures
            r == (Version { major: 51, minor: 0 }),
    {
        Version { major: 51, minor: 0 }
    }

    #[allow(non_snake_case)]
    pub fn V8() -> (r: Version)
        ensures
            r == (Version { major: 52, minor: 0 }),
    {
        Version { major: 52, minor: 0 }
    }

    #[allow(non_snake_case)]
    pub fn V9() -> (r: Version)
        ensures
            r == (Version { major: 53, minor: 0 }),
    {
        Version { major: 53, minor: 0 }
    }

    #[allow(non_snake_case)]
    pub fn V10() -> (r: Version)
        ensures
            r == (Version { major: 54, minor: 0 }),
    {
        Version { major: 54, minor: 0 }
    }

    #[allow(non_snake_case)]
    pub fn V11() -> (r: Version)
        ensures
            r == (Version { major: 55, minor: 0 }),
    {
        Version { major: 55, minor: 0 }
    }

    #[allow(non_snake_case)]
    pub fn V12() -> (r: Version)
        ensures
            r == (Version { major: 56, minor: 0 }),
    {
        Version { major: 56, minor: 0 }
    }

    #[allow(non_snake_case)]
    pub fn V13() -> (r: Version)
        ensures
            r == (Version { major: 57, minor: 0 }),
    {
        Version { major: 57, minor: 0 }
    }

    #[allow(non_snake_case)]
    pub fn V14() -> (r: Version)
        ensures
            r == (Version { major: 58, minor: 0 }),
    {
        Version { major: 58, minor: 0 }
    }

    #[allow(non_snake_case)]
    pub fn V15() -> (r: Version)
        ensures
            r == (Version { major: 59, minor: 0 }),
    {
        Version { major: 59, minor: 0 }
    }

    #[allow(non_snake_case)]
    pub fn V16() -> (r: Version)
        ensures
            r == (Version { major: 60, minor: 0 }),
    {
        Version { major: 60, minor: 0 }
    }

    #[allow(non_snake_case)]
    pub fn V17() -> (r: Version)
        ensures
            r == (Version { major: 61, minor: 0 }),
    {
        Version { major: 61, minor: 0 }
    }

    #[allow(non_snake_case)]
    pub fn V18() -> (r: Version)
        ensures
            r == (Version { major: 62, minor: 0 }),
    {
        Version { major: 62, minor: 0 }
    }

    /// The latest version which is guaranteed to work with this library.
    /// Changes of this value are not considered breaking changes.
    pub fn latest() -> (r: Version)
        ensures
            r == (Version { major: 62, minor: 0 }),
    {
        Version::V18()
    }

    /// Whether this is a preview version: version 12 or later with minor version 65535.
    pub fn is_preview(self) -> (r: bool)
        ensures
            r == (self.major >= 56 && self.minor == 65535),
    {
        self.major >= Version::V12().major && self.minor == 65535
    }
}

/// The access flags of a class, field, method or other item.
#[derive(Debug, Clone, Copy, PartialEq, Eq, Structural)]
pub struct AccessFlags {
    pub(crate) bits: u16,
}

impl AccessFlags {
    #[allow(non_snake_case)]
    pub fn PUBLIC() -> (r: AccessFlags)
        ensures
            r.spec_bits() == 1,
    {
        AccessFlags { bits: 1 }
    }

    #[allow(non_snake_case)]
    pub fn PRIVATE() -> (r: AccessFlags)
        ensures
            r.spec_bits() == 2,
    {
        AccessFlags { bits: 2 }
    }

    #[allow(non_snake_case)]
    pub fn PROTECTED() -> (r: AccessFlags)
        ensures
            r.spec_bits() == 4,
    {
        AccessFlags { bits: 4 }
    }

    #[allow(non_snake_case)]
    pub fn STATIC() -> (r: AccessFlags)
        ensures
            r.spec_bits() == 8,
    {
        AccessFlags { bits: 8 }
    }

    #[allow(non_snake_case)]
    pub fn FINAL() -> (r: AccessFlags)
        ensures
            r.spec_bits() == 16,
    {
        AccessFlags { bits: 16 }
    }

    #[allow(non_snake_case)]
    pub fn SUPER() -> (r: AccessFlags)
        ensures
            r.spec_bits() == 32,
    {
        AccessFlags { bits: 32 }
    }

    #[allow(non_snake_case)]
    pub fn SYNCHRONIZED() -> (r: AccessFlags)
        ensures
            r.spec_bits() == 32,
    {
        AccessFlags { bits: 32 }
    }

    #[allow(non_snake_case)]
    pub fn BRIDGE() -> (r: AccessFlags)
        ensures
            r.spec_bits() == 64,
    {
        AccessFlags { bits: 64 }
    }

    #[allow(non_snake_case)]
    pub fn VOLATILE() -> (r: AccessFlags)
        ensures
            r.spec_bits() == 64,
    {
        AccessFlags { bits: 64 }
    }

    #[allow(non_snake_case)]
    pub fn VARARGS() -> (r: AccessFlags)
        ensures
            r.spec_bits() == 128,
    {
        AccessFlags { bits: 128 }
    }

    #[allow(non_snake_case)]
    pub fn TRANSIENT() -> (r: AccessFlags)
        ensures
            r.spec_bits() == 128,
    {
        AccessFlags { bits: 128 }
    }

    #[allow(non_snake_case)]
    pub fn NATIVE() -> (r: AccessFlags)
        ensures
            r.spec_bits() == 256,
    {
        AccessFlags { bits: 256 }
    }

    #[allow(non_snake_case)]
    pub fn INTERFACE() -> (r: AccessFlags)
        ensures
            r.spec_bits() == 512,
    {
        AccessFlags { bits: 512 }
    }

    #[allow(non_snake_case)]
    pub fn ABSTRACT() -> (r: AccessFlags)
        ensures
            r.spec_bits() == 1024,
    {
        AccessFlags { bits: 1024 }
    }

    #[allow(non_snake_case)]
    pub fn STRICT() -> (r: AccessFlags)
        ensures
            r.spec_bits() == 2048,
    {
        AccessFlags { bits: 2048 }
    }

    #[allow(non_snake_case)]
    pub fn SYNTHETIC() -> (r: AccessFlags)
        ensures
            r.spec_bits() == 4096,
    {
        AccessFlags { bits: 4096 }
    }

    #[allow(non_snake_case)]
    pub fn ANNOTATION() -> (r: AccessFlags)
        ensures
            r.spec_bits() == 8192,
    {
        AccessFlags { bits: 8192 }
    }

    #[allow(non_snake_case)]
    pub fn ENUM() -> (r: AccessFlags)
        ensures
            r.spec_bits() == 16384,
    {
        AccessFlags { bits: 16384 }
    }

    #[allow(non_snake_case)]
    pub fn MANDATED() -> (r: AccessFlags)
        ensures
            r.spec_bits() == 32768,
    {
        AccessFlags { bits: 32768 }
    }

    #[allow(non_snake_case)]
    pub fn MODULE() -> (r: AccessFlags)
        ensures
            r.spec_bits() == 32768,
    {
        AccessFlags { bits: 32768 }
    }

    pub open(crate) spec fn spec_bits(self) -> u16 {
        self.bits
    }

    /// The flags with the given bits; every bit of a `u16` stands for a flag.
    pub fn from_bits(bits: u16) -> (r: Option<AccessFlags>)
        ensures
            r is Some && r->Some_0.spec_bits() == bits,
    {
        Some(AccessFlags { bits })
    }

    /// The bits of the flags.
    pub fn bits(&self) -> (r: u16)
        ensures
            r == self.spec_bits(),
    {
        self.bits
    }

    /// No flags.
    pub fn empty() -> (r: AccessFlags)
        ensures
            r.spec_bits() == 0,
    {
        AccessFlags { bits: 0 }
    }

    /// Whether no flag is set.
    pub fn is_empty(&self) -> (r: bool)
        ensures
            r == (self.spec_bits() == 0),
    {
        self.bits == 0
    }

    /// Whether all flags of `other` are set.
    pub fn contains(&self, other: AccessFlags) -> (r: bool)
        ensures
            r == (self.spec_bits() & other.spec_bits() == other.spec_bits()),
    {
        self.bits & other.bits == other.bits
    }

    /// The flags that are set in either.
    pub fn union(self, other: AccessFlags) -> (r: AccessFlags)
        ensures
            r.spec_bits() == self.spec_bits() | other.spec_bits(),
    {
        AccessFlags { bits: self.bits | other.bits }
    }
}

/// The union of two sets of flags contains each of them.
pub proof fn lemma_union_contains(a: AccessFlags, b: AccessFlags)
    ensures
        (a.spec_bits() | b.spec_bits()) & a.spec_bits() == a.spec_bits(),
        (a.spec_bits() | b.spec_bits()) & b.spec_bits() == b.spec_bits(),
{
    let x = a.spec_bits();
    let y = b.spec_bits();
    assert((x | y) & x == x && (x | y) & y == y) by (bit_vector);
}

impl<'input> Decode<'input> for AccessFlags {
    /// Reads the flags as a big-endian `u16`.
    open spec fn spec_decode(decoder: Decoder<'input>) -> (Result<AccessFlags, DecodeError>, Decoder<'input>) {
        let (r, after) = u16::spec_decode(decoder);
        (
            match r {
                Ok(bits) => Ok(AccessFlags::spec_from_bits(bits)),
                Err(e) => Err(e),
            },
            after,
        )
    }

    fn decode(decoder: &mut Decoder<'input>) -> (r: Result<AccessFlags, DecodeError>) {
        match decoder.read::<u16>() {
            Ok(bits) => Ok(AccessFlags { bits }),
            Err(e) => Err(e),
        }
    }
}

impl AccessFlags {
    pub open(crate) spec fn spec_from_bits(bits: u16) -> AccessFlags {
        AccessFlags { bits }
    }
}

} // verus!
