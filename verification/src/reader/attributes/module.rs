//! The attributes of modules.

use crate::error::DecodeError;
use crate::header::AccessFlags;
use crate::reader::cpool;
use crate::reader::decoding::{lemma_read_u16, Decode, DecodeInto, DecodeMany, Decoder};
use core::marker::PhantomData;
use vstd::prelude::*;

verus! {

/// The content of a `ModulePackages` attribute.
#[derive(Debug, Clone, Copy)]
pub struct ModulePackages<'input> {
    pub(crate) packages: DecodeMany<'input, cpool::Index<cpool::Package>, u16>,
    pub(crate) marker: PhantomData<&'input ()>,
}

impl<'input> ModulePackages<'input> {
    pub open(crate) spec fn spec_new(packages: DecodeMany<'input, cpool::Index<cpool::Package>, u16>) -> ModulePackages<'input> {
        ModulePackages { packages, marker: PhantomData }
    }

    pub open(crate) spec fn spec_packages(self) -> DecodeMany<'input, cpool::Index<cpool::Package>, u16> {
        self.packages
    }

    pub fn packages(&self) -> (r: DecodeMany<'input, cpool::Index<cpool::Package>, u16>)
        ensures
            r == self.spec_packages(),
    {
        self.packages
    }
}

impl<'input> DecodeInto<'input> for ModulePackages<'input> {
    open spec fn spec_decode_into(decoder: Decoder<'input>) -> Result<ModulePackages<'input>, DecodeError> {
        let (r_packages, d1) = <DecodeMany<'input, cpool::Index<cpool::Package>, u16> as Decode<'input>>::spec_decode(decoder);
        match r_packages {
            Err(e) => Err(e),
            Ok(v_packages) => {
                Ok(ModulePackages::spec_new(v_packages))
            },
        }
    }

    fn decode_into(decoder: Decoder<'input>) -> (r: Result<ModulePackages<'input>, DecodeError>) {
        let mut decoder = decoder;
        let packages: DecodeMany<'input, cpool::Index<cpool::Package>, u16> = match decoder.read() {
            Ok(v) => v,
            Err(e) => return Err(e),
        };
        Ok(ModulePackages { packages, marker: PhantomData })
    }
}

/// The content of a `ModuleMainClass` attribute.
#[derive(Debug, Clone, Copy)]
pub struct ModuleMainClass<'input> {
    pub(crate) main_class: cpool::Index<cpool::Class>,
    pub(crate) marker: PhantomData<&'input ()>,
}

impl<'input> ModuleMainClass<'input> {
    pub open(crate) spec fn spec_new(main_class: cpool::Index<cpool::Class>) -> ModuleMainClass<'input> {
        ModuleMainClass { main_class, marker: PhantomData }
    }

    pub open(crate) spec fn spec_main_class(self) -> cpool::Index<cpool::Class> {
        self.main_class
    }

    pub fn main_class(&self) -> (r: cpool::Index<cpool::Class>)
        ensures
            r == self.spec_main_class(),
    {
        self.main_class
    }
}

impl<'input> DecodeInto<'input> for ModuleMainClass<'input> {
    open spec fn spec_decode_into(decoder: Decoder<'input>) -> Result<ModuleMainClass<'input>, DecodeError> {
        let (r_main_class, d1) = <cpool::Index<cpool::Class> as Decode<'input>>::spec_decode(decoder);
        match r_main_class {
            Err(e) => Err(e),
            Ok(v_main_class) => {
                Ok(ModuleMainClass::spec_new(v_main_class))
            },
        }
    }

    fn decode_into(decoder: Decoder<'input>) -> (r: Result<ModuleMainClass<'input>, DecodeError>) {
        let mut decoder = decoder;
        let main_class: cpool::Index<cpool::Class> = match decoder.read() {
            Ok(v) => v,
            Err(e) => return Err(e),
        };
        Ok(ModuleMainClass { main_class, marker: PhantomData })
    }
}

/// The content of a `Module` attribute.
#[derive(Debug, Clone, Copy)]
pub struct Module<'input> {
    pub(crate) name: cpool::Index<cpool::Module>,
    pub(crate) flags: AccessFlags,
    pub(crate) version: Option<cpool::Index<cpool::Utf8<'input>>>,
    pub(crate) requirements: DecodeMany<'input, Require<'input>, u16>,
    pub(crate) exports: DecodeMany<'input, Export<'input>, u16>,
    pub(crate) opens: DecodeMany<'input, Open<'input>, u16>,
    pub(crate) uses: DecodeMany<'input, cpool::Index<cpool::Class>, u16>,
    pub(crate) provides: DecodeMany<'input, Provide<'input>, u16>,
    pub(crate) marker: PhantomData<&'input ()>,
}

impl<'input> Module<'input> {
    pub open(crate) spec fn spec_new(name: cpool::Index<cpool::Module>, flags: AccessFlags, version: Option<cpool::Index<cpool::Utf8<'input>>>, requirements: DecodeMany<'input, Require<'input>, u16>, exports: DecodeMany<'input, Export<'input>, u16>, opens: DecodeMany<'input, Open<'input>, u16>, uses: DecodeMany<'input, cpool::Index<cpool::Class>, u16>, provides: DecodeMany<'input, Provide<'input>, u16>) -> Module<'input> {
        Module { name, flags, version, requirements, exports, opens, uses, provides, marker: PhantomData }
    }

    pub open(crate) spec fn spec_name(self) -> cpool::Index<cpool::Module> {
        self.name
    }

    pub open(crate) spec fn spec_flags(self) -> AccessFlags {
        self.flags
    }

    pub open(crate) spec fn spec_version(self) -> Option<cpool::Index<cpool::Utf8<'input>>> {
        self.version
    }

    pub open(crate) spec fn spec_requirements(self) -> DecodeMany<'input, Require<'input>, u16> {
        self.requirements
    }

    pub open(crate) spec fn spec_exports(self) -> DecodeMany<'input, Export<'input>, u16> {
        self.exports
    }

    pub open(crate) spec fn spec_opens(self) -> DecodeMany<'input, Open<'input>, u16> {
        self.opens
    }

    pub open(crate) spec fn spec_uses(self) -> DecodeMany<'input, cpool::Index<cpool::Class>, u16> {
        self.uses
    }

    pub open(crate) spec fn spec_provides(self) -> DecodeMany<'input, Provide<'input>, u16> {
        self.provides
    }

    pub fn name(&self) -> (r: cpool::Index<cpool::Module>)
        ensures
            r == self.spec_name(),
    {
        self.name
    }

    pub fn flags(&self) -> (r: AccessFlags)
        ensures
            r == self.spec_flags(),
    {
        self.flags
    }

    pub fn version(&self) -> (r: Option<cpool::Index<cpool::Utf8<'input>>>)
        ensures
            r == self.spec_version(),
    {
        self.version
    }

    pub fn requirements(&self) -> (r: DecodeMany<'input, Require<'input>, u16>)
        ensures
            r == self.spec_requirements(),
    {
        self.requirements
    }

    pub fn exports(&self) -> (r: DecodeMany<'input, Export<'input>, u16>)
        ensures
            r == self.spec_exports(),
    {
        self.exports
    }

    pub fn opens(&self) -> (r: DecodeMany<'input, Open<'input>, u16>)
        ensures
            r == self.spec_opens(),
    {
        self.opens
    }

    pub fn uses(&self) -> (r: DecodeMany<'input, cpool::Index<cpool::Class>, u16>)
        ensures
            r == self.spec_uses(),
    {
        self.uses
    }

    pub fn provides(&self) -> (r: DecodeMany<'input, Provide<'input>, u16>)
        ensures
            r == self.spec_provides(),
    {
        self.provides
    }
}

impl<'input> DecodeInto<'input> for Module<'input> {
    open spec fn spec_decode_into(decoder: Decoder<'input>) -> Result<Module<'input>, DecodeError> {
        let (r_name, d1) = <cpool::Index<cpool::Module> as Decode<'input>>::spec_decode(decoder);
        match r_name {
            Err(e) => Err(e),
            Ok(v_name) => {
                let (r_flags, d2) = <AccessFlags as Decode<'input>>::spec_decode(d1);
                match r_flags {
                    Err(e) => Err(e),
                    Ok(v_flags) => {
                        let (r_version, d3) = <Option<cpool::Index<cpool::Utf8<'input>>> as Decode<'input>>::spec_decode(d2);
                        match r_version {
                            Err(e) => Err(e),
                            Ok(v_version) => {
                                let (r_requirements, d4) = <DecodeMany<'input, Require<'input>, u16> as Decode<'input>>::spec_decode(d3);
                                match r_requirements {
                                    Err(e) => Err(e),
                                    Ok(v_requirements) => {
                                        let (r_exports, d5) = <DecodeMany<'input, Export<'input>, u16> as Decode<'input>>::spec_decode(d4);
                                        match r_exports {
                                            Err(e) => Err(e),
                                            Ok(v_exports) => {
                                                let (r_opens, d6) = <DecodeMany<'input, Open<'input>, u16> as Decode<'input>>::spec_decode(d5);
                                                match r_opens {
                                                    Err(e) => Err(e),
                                                    Ok(v_opens) => {
                                                        let (r_uses, d7) = <DecodeMany<'input, cpool::Index<cpool::Class>, u16> as Decode<'input>>::spec_decode(d6);
                                                        match r_uses {
                                                            Err(e) => Err(e),
                                                            Ok(v_uses) => {
                                                                let (r_provides, d8) = <DecodeMany<'input, Provide<'input>, u16> as Decode<'input>>::spec_decode(d7);
                                                                match r_provides {
                                                                    Err(e) => Err(e),
                                                                    Ok(v_provides) => {
                                                                        Ok(Module::spec_new(v_name, v_flags, v_version, v_requirements, v_exports, v_opens, v_uses, v_provides))
                                                                    },
                                                                }
                                                            },
                                                        }
                                                    },
                                                }
                                            },
                                        }
                                    },
                                }
                            },
                        }
                    },
                }
            },
        }
    }

    fn decode_into(decoder: Decoder<'input>) -> (r: Result<Module<'input>, DecodeError>) {
        let mut decoder = decoder;
        let name: cpool::Index<cpool::Module> = match decoder.read() {
            Ok(v) => v,
            Err(e) => return Err(e),
        };
        let flags: AccessFlags = match decoder.read() {
            Ok(v) => v,
            Err(e) => return Err(e),
        };
        let version: Option<cpool::Index<cpool::Utf8<'input>>> = match decoder.read() {
            Ok(v) => v,
            Err(e) => return Err(e),
        };
        let requirements: DecodeMany<'input, Require<'input>, u16> = match decoder.read() {
            Ok(v) => v,
            Err(e) => return Err(e),
        };
        let exports: DecodeMany<'input, Export<'input>, u16> = match decoder.read() {
            Ok(v) => v,
            Err(e) => return Err(e),
        };
        let opens: DecodeMany<'input, Open<'input>, u16> = match decoder.read() {
            Ok(v) => v,
            Err(e) => return Err(e),
        };
        let uses: DecodeMany<'input, cpool::Index<cpool::Class>, u16> = match decoder.read() {
            Ok(v) => v,
            Err(e) => return Err(e),
        };
        let provides: DecodeMany<'input, Provide<'input>, u16> = match decoder.read() {
            Ok(v) => v,
            Err(e) => return Err(e),
        };
        Ok(Module { name, flags, version, requirements, exports, opens, uses, provides, marker: PhantomData })
    }
}

/// A module that a module requires.
#[derive(Debug, Clone, Copy)]
pub struct Require<'input> {
    pub(crate) index: cpool::Index<cpool::Module>,
    pub(crate) flags: AccessFlags,
    pub(crate) version: cpool::Index<cpool::Utf8<'input>>,
    pub(crate) marker: PhantomData<&'input ()>,
}

impl<'input> Require<'input> {
    pub open(crate) spec fn spec_new(index: cpool::Index<cpool::Module>, flags: AccessFlags, version: cpool::Index<cpool::Utf8<'input>>) -> Require<'input> {
        Require { index, flags, version, marker: PhantomData }
    }

    pub open(crate) spec fn spec_index(self) -> cpool::Index<cpool::Module> {
        self.index
    }

    pub open(crate) spec fn spec_flags(self) -> AccessFlags {
        self.flags
    }

    pub open(crate) spec fn spec_version(self) -> cpool::Index<cpool::Utf8<'input>> {
        self.version
    }

    pub fn index(&self) -> (r: cpool::Index<cpool::Module>)
        ensures
            r == self.spec_index(),
    {
        self.index
    }

    pub fn flags(&self) -> (r: AccessFlags)
        ensures
            r == self.spec_flags(),
    {
        self.flags
    }

    pub fn version(&self) -> (r: cpool::Index<cpool::Utf8<'input>>)
        ensures
            r == self.spec_version(),
    {
        self.version
    }
}

impl<'input> Decode<'input> for Require<'input> {
    open spec fn spec_decode(decoder: Decoder<'input>) -> (Result<Require<'input>, DecodeError>, Decoder<'input>) {
        let (r_index, d1) = <cpool::Index<cpool::Module> as Decode<'input>>::spec_decode(decoder);
        match r_index {
            Err(e) => (Err(e), d1),
            Ok(v_index) => {
                let (r_flags, d2) = <AccessFlags as Decode<'input>>::spec_decode(d1);
                match r_flags {
                    Err(e) => (Err(e), d2),
                    Ok(v_flags) => {
                        let (r_version, d3) = <cpool::Index<cpool::Utf8<'input>> as Decode<'input>>::spec_decode(d2);
                        match r_version {
                            Err(e) => (Err(e), d3),
                            Ok(v_version) => {
                                (Ok(Require::spec_new(v_index, v_flags, v_version)), d3)
                            },
                        }
                    },
                }
            },
        }
    }

    fn decode(decoder: &mut Decoder<'input>) -> (r: Result<Require<'input>, DecodeError>) {
        let index: cpool::Index<cpool::Module> = match decoder.read() {
            Ok(v) => v,
            Err(e) => return Err(e),
        };
        let flags: AccessFlags = match decoder.read() {
            Ok(v) => v,
            Err(e) => return Err(e),
        };
        let version: cpool::Index<cpool::Utf8<'input>> = match decoder.read() {
            Ok(v) => v,
            Err(e) => return Err(e),
        };
        Ok(Require { index, flags, version, marker: PhantomData })
    }
}

/// A package that a module exports.
#[derive(Debug, Clone, Copy)]
pub struct Export<'input> {
    pub(crate) index: cpool::Index<cpool::Package>,
    pub(crate) flags: AccessFlags,
    pub(crate) exports_to: DecodeMany<'input, cpool::Index<cpool::Module>, u16>,
    pub(crate) marker: PhantomData<&'input ()>,
}

impl<'input> Export<'input> {
    pub open(crate) spec fn spec_new(index: cpool::Index<cpool::Package>, flags: AccessFlags, exports_to: DecodeMany<'input, cpool::Index<cpool::Module>, u16>) -> Export<'input> {
        Export { index, flags, exports_to, marker: PhantomData }
    }

    pub open(crate) spec fn spec_index(self) -> cpool::Index<cpool::Package> {
        self.index
    }

    pub open(crate) spec fn spec_flags(self) -> AccessFlags {
        self.flags
    }

    pub open(crate) spec fn spec_exports_to(self) -> DecodeMany<'input, cpool::Index<cpool::Module>, u16> {
        self.exports_to
    }

    pub fn index(&self) -> (r: cpool::Index<cpool::Package>)
        ensures
            r == self.spec_index(),
    {
        self.index
    }

    pub fn flags(&self) -> (r: AccessFlags)
        ensures
            r == self.spec_flags(),
    {
        self.flags
    }

    pub fn exports_to(&self) -> (r: DecodeMany<'input, cpool::Index<cpool::Module>, u16>)
        ensures
            r == self.spec_exports_to(),
    {
        self.exports_to
    }
}

impl<'input> Decode<'input> for Export<'input> {
    open spec fn spec_decode(decoder: Decoder<'input>) -> (Result<Export<'input>, DecodeError>, Decoder<'input>) {
        let (r_index, d1) = <cpool::Index<cpool::Package> as Decode<'input>>::spec_decode(decoder);
        match r_index {
            Err(e) => (Err(e), d1),
            Ok(v_index) => {
                let (r_flags, d2) = <AccessFlags as Decode<'input>>::spec_decode(d1);
                match r_flags {
                    Err(e) => (Err(e), d2),
                    Ok(v_flags) => {
                        let (r_exports_to, d3) = <DecodeMany<'input, cpool::Index<cpool::Module>, u16> as Decode<'input>>::spec_decode(d2);
                        match r_exports_to {
                            Err(e) => (Err(e), d3),
                            Ok(v_exports_to) => {
                                (Ok(Export::spec_new(v_index, v_flags, v_exports_to)), d3)
                            },
                        }
                    },
                }
            },
        }
    }

    fn decode(decoder: &mut Decoder<'input>) -> (r: Result<Export<'input>, DecodeError>) {
        let index: cpool::Index<cpool::Package> = match decoder.read() {
            Ok(v) => v,
            Err(e) => return Err(e),
        };
        let flags: AccessFlags = match decoder.read() {
            Ok(v) => v,
            Err(e) => return Err(e),
        };
        let exports_to: DecodeMany<'input, cpool::Index<cpool::Module>, u16> = match decoder.read() {
            Ok(v) => v,
            Err(e) => return Err(e),
        };
        Ok(Export { index, flags, exports_to, marker: PhantomData })
    }
}

/// A package that a module opens.
#[derive(Debug, Clone, Copy)]
pub struct Open<'input> {
    pub(crate) index: cpool::Index<cpool::Package>,
    pub(crate) flags: AccessFlags,
    pub(crate) opens_to: DecodeMany<'input, cpool::Index<cpool::Module>, u16>,
    pub(crate) marker: PhantomData<&'input ()>,
}

impl<'input> Open<'input> {
    pub open(crate) spec fn spec_new(index: cpool::Index<cpool::Package>, flags: AccessFlags, opens_to: DecodeMany<'input, cpool::Index<cpool::Module>, u16>) -> Open<'input> {
        Open { index, flags, opens_to, marker: PhantomData }
    }

    pub open(crate) spec fn spec_index(self) -> cpool::Index<cpool::Package> {
        self.index
    }

    pub open(crate) spec fn spec_flags(self) -> AccessFlags {
        self.flags
    }

    pub open(crate) spec fn spec_opens_to(self) -> DecodeMany<'input, cpool::Index<cpool::Module>, u16> {
        self.opens_to
    }

    pub fn index(&self) -> (r: cpool::Index<cpool::Package>)
        ensures
            r == self.spec_index(),
    {
        self.index
    }

    pub fn flags(&self) -> (r: AccessFlags)
        ensures
            r == self.spec_flags(),
    {
        self.flags
    }

    pub fn opens_to(&self) -> (r: DecodeMany<'input, cpool::Index<cpool::Module>, u16>)
        ensures
            r == self.spec_opens_to(),
    {
        self.opens_to
    }
}

impl<'input> Decode<'input> for Open<'input> {
    open spec fn spec_decode(decoder: Decoder<'input>) -> (Result<Open<'input>, DecodeError>, Decoder<'input>) {
        let (r_index, d1) = <cpool::Index<cpool::Package> as Decode<'input>>::spec_decode(decoder);
        match r_index {
            Err(e) => (Err(e), d1),
            Ok(v_index) => {
                let (r_flags, d2) = <AccessFlags as Decode<'input>>::spec_decode(d1);
                match r_flags {
                    Err(e) => (Err(e), d2),
                    Ok(v_flags) => {
                        let (r_opens_to, d3) = <DecodeMany<'input, cpool::Index<cpool::Module>, u16> as Decode<'input>>::spec_decode(d2);
                        match r_opens_to {
                            Err(e) => (Err(e), d3),
                            Ok(v_opens_to) => {
                                (Ok(Open::spec_new(v_index, v_flags, v_opens_to)), d3)
                            },
                        }
                    },
                }
            },
        }
    }

    fn decode(decoder: &mut Decoder<'input>) -> (r: Result<Open<'input>, DecodeError>) {
        let index: cpool::Index<cpool::Package> = match decoder.read() {
            Ok(v) => v,
            Err(e) => return Err(e),
        };
        let flags: AccessFlags = match decoder.read() {
            Ok(v) => v,
            Err(e) => return Err(e),
        };
        let opens_to: DecodeMany<'input, cpool::Index<cpool::Module>, u16> = match decoder.read() {
            Ok(v) => v,
            Err(e) => return Err(e),
        };
        Ok(Open { index, flags, opens_to, marker: PhantomData })
    }
}

/// A service that a module provides, and its implementations.
#[derive(Debug, Clone, Copy)]
pub struct Provide<'input> {
    pub(crate) index: cpool::Index<cpool::Class>,
    pub(crate) provides_with: DecodeMany<'input, cpool::Index<cpool::Class>, u16>,
    pub(crate) marker: PhantomData<&'input ()>,
}

impl<'input> Provide<'input> {
    pub open(crate) spec fn spec_new(index: cpool::Index<cpool::Class>, provides_with: DecodeMany<'input, cpool::Index<cpool::Class>, u16>) -> Provide<'input> {
        Provide { index, provides_with, marker: PhantomData }
    }

    pub open(crate) spec fn spec_index(self) -> cpool::Index<cpool::Class> {
        self.index
    }

    pub open(crate) spec fn spec_provides_with(self) -> DecodeMany<'input, cpool::Index<cpool::Class>, u16> {
        self.provides_with
    }

    pub fn index(&self) -> (r: cpool::Index<cpool::Class>)
        ensures
            r == self.spec_index(),
    {
        self.index
    }

    pub fn provides_with(&self) -> (r: DecodeMany<'input, cpool::Index<cpool::Class>, u16>)
        ensures
            r == self.spec_provides_with(),
    {
        self.provides_with
    }
}

impl<'input> Decode<'input> for Provide<'input> {
    open spec fn spec_decode(decoder: Decoder<'input>) -> (Result<Provide<'input>, DecodeError>, Decoder<'input>) {
        let (r_index, d1) = <cpool::Index<cpool::Class> as Decode<'input>>::spec_decode(decoder);
        match r_index {
            Err(e) => (Err(e), d1),
            Ok(v_index) => {
                let (r_provides_with, d2) = <DecodeMany<'input, cpool::Index<cpool::Class>, u16> as Decode<'input>>::spec_decode(d1);
                match r_provides_with {
                    Err(e) => (Err(e), d2),
                    Ok(v_provides_with) => {
                        (Ok(Provide::spec_new(v_index, v_provides_with)), d2)
                    },
                }
            },
        }
    }

    fn decode(decoder: &mut Decoder<'input>) -> (r: Result<Provide<'input>, DecodeError>) {
        let index: cpool::Index<cpool::Class> = match decoder.read() {
            Ok(v) => v,
            Err(e) => return Err(e),
        };
        let provides_with: DecodeMany<'input, cpool::Index<cpool::Class>, u16> = match decoder.read() {
            Ok(v) => v,
            Err(e) => return Err(e),
        };
        Ok(Provide { index, provides_with, marker: PhantomData })
    }
}

/// The layout of a `requires` entry of a `Module` attribute (JVMS §4.7.25): the module index,
/// the flags and the version index, each a big-endian `u16`.
pub proof fn lemma_require_layout<'input>(d: Decoder<'input>)
    requires
        d.in_bounds(),
        d.remaining() >= 6,
    ensures
        ({
            let b = d.bytes();
            let (r, after) = <Require<'input> as Decode<'input>>::spec_decode(d);
            ((b[0] as nat * 256 + b[1] as nat) as u16 != 0 && (b[4] as nat * 256 + b[5] as nat) as u16 != 0) ==> {
                &&& r is Ok
                &&& after == d.spec_advance(6)
                &&& r->Ok_0.spec_index() == cpool::Index::<cpool::Module>::spec_new((b[0] as nat * 256 + b[1] as nat) as u16)
                &&& r->Ok_0.spec_flags().spec_bits() == (b[2] as nat * 256 + b[3] as nat) as u16
                &&& r->Ok_0.spec_version() == cpool::Index::<cpool::Utf8<'input>>::spec_new((b[4] as nat * 256 + b[5] as nat) as u16)
            }
        }),
{
    let b = d.bytes();
    lemma_read_u16(d);
    let d2 = d.spec_advance(2);
    lemma_read_u16(d2);
    assert(d2.bytes()[0] == b[2] && d2.bytes()[1] == b[3]);
    let d4 = d2.spec_advance(2);
    lemma_read_u16(d4);
    assert(d4.bytes()[0] == b[4] && d4.bytes()[1] == b[5]);
    assert(d4.spec_advance(2) == d.spec_advance(6));
}

/// The first part of a `Module` attribute and of its `exports` and `opens` entries (JVMS
/// §4.7.25): an index, then the flags, each a big-endian `u16`; the module's version index
/// follows, 0 meaning none.
pub proof fn lemma_module_entry_layout<'input>(d: Decoder<'input>)
    requires
        d.in_bounds(),
        d.remaining() >= 6,
    ensures
        ({
            let b = d.bytes();
            let m = <Module<'input> as DecodeInto<'input>>::spec_decode_into(d);
            let e = <Export<'input> as Decode<'input>>::spec_decode(d).0;
            let o = <Open<'input> as Decode<'input>>::spec_decode(d).0;
            let v = (b[4] as nat * 256 + b[5] as nat) as u16;
            &&& m is Ok ==> m->Ok_0.spec_name() == cpool::Index::<cpool::Module>::spec_new((b[0] as nat * 256 + b[1] as nat) as u16)
                && m->Ok_0.spec_flags().spec_bits() == (b[2] as nat * 256 + b[3] as nat) as u16
                && m->Ok_0.spec_version() == (if v == 0 {
                    None
                } else {
                    Some(cpool::Index::<cpool::Utf8<'input>>::spec_new(v))
                })
            &&& e is Ok ==> e->Ok_0.spec_index() == cpool::Index::<cpool::Package>::spec_new((b[0] as nat * 256 + b[1] as nat) as u16)
                && e->Ok_0.spec_flags().spec_bits() == (b[2] as nat * 256 + b[3] as nat) as u16
            &&& o is Ok ==> o->Ok_0.spec_index() == cpool::Index::<cpool::Package>::spec_new((b[0] as nat * 256 + b[1] as nat) as u16)
                && o->Ok_0.spec_flags().spec_bits() == (b[2] as nat * 256 + b[3] as nat) as u16
        }),
{
    let b = d.bytes();
    lemma_read_u16(d);
    let d2 = d.spec_advance(2);
    lemma_read_u16(d2);
    assert(d2.bytes()[0] == b[2] && d2.bytes()[1] == b[3]);
    let d4 = d2.spec_advance(2);
    lemma_read_u16(d4);
    assert(d4.bytes()[0] == b[4] && d4.bytes()[1] == b[5]);
}

} // verus!
