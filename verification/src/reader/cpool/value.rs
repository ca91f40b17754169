//! The values that constant pool items stand for, with the items they point to resolved.

use crate::error::DecodeError;
use crate::mutf8::MStr;
use crate::reader::cpool;
use crate::reader::cpool::{ConstantPool, Index, Item};
use vstd::prelude::*;

verus! {

/// An index whose item can be resolved to a value.
pub trait ToValue<'input>: Sized {
    type Target;

    /// The value that the index stands for in `pool`, or the first error on the way.
    spec fn spec_retrieve(self, pool: ConstantPool<'input>) -> Result<Self::Target, DecodeError>;

    fn retrieve_from(self, pool: &ConstantPool<'input>) -> (r: Result<Self::Target, DecodeError>)
        ensures
            r == self.spec_retrieve(*pool),
    ;
}

impl<'input> ToValue<'input> for Index<cpool::Utf8<'input>> {
    type Target = MStr<'input>;

    open spec fn spec_retrieve(self, pool: ConstantPool<'input>) -> Result<MStr<'input>, DecodeError> {
        match pool.spec_get::<cpool::Utf8<'input>>(self.spec_index()) {
            Err(e) => Err(e),
            Ok(this) => Ok(this.content),
        }
    }

    fn retrieve_from(self, pool: &ConstantPool<'input>) -> (r: Result<MStr<'input>, DecodeError>) {
        match pool.get(self) {
            Ok(this) => Ok(this.content),
            Err(e) => Err(e),
        }
    }
}

#[derive(Debug, Clone, Copy, PartialEq)]
pub struct Class<'input> {
    pub name: MStr<'input>,
}

impl<'input> ToValue<'input> for Index<cpool::Class> {
    type Target = Class<'input>;

    open spec fn spec_retrieve(self, pool: ConstantPool<'input>) -> Result<Class<'input>, DecodeError> {
        match pool.spec_get::<cpool::Class>(self.spec_index()) {
            Err(e) => Err(e),
            Ok(this) => {
                match this.name.spec_retrieve(pool) {
                    Err(e) => Err(e),
                    Ok(v_name) => {
                        Ok(Class { name: v_name })
                    },
                }
            },
        }
    }

    fn retrieve_from(self, pool: &ConstantPool<'input>) -> (r: Result<Class<'input>, DecodeError>) {
        let this = match pool.get(self) {
            Ok(this) => this,
            Err(e) => return Err(e),
        };
        let name = match this.name.retrieve_from(pool) {
            Ok(v) => v,
            Err(e) => return Err(e),
        };
        Ok(Class { name })
    }
}

#[derive(Debug, Clone, Copy, PartialEq)]
pub struct FieldRef<'input> {
    pub class: Class<'input>,
    pub name_and_type: NameAndType<'input>,
}

impl<'input> ToValue<'input> for Index<cpool::FieldRef> {
    type Target = FieldRef<'input>;

    open spec fn spec_retrieve(self, pool: ConstantPool<'input>) -> Result<FieldRef<'input>, DecodeError> {
        match pool.spec_get::<cpool::FieldRef>(self.spec_index()) {
            Err(e) => Err(e),
            Ok(this) => {
                match this.class.spec_retrieve(pool) {
                    Err(e) => Err(e),
                    Ok(v_class) => {
                        match this.name_and_type.spec_retrieve(pool) {
                            Err(e) => Err(e),
                            Ok(v_name_and_type) => {
                                Ok(FieldRef { class: v_class, name_and_type: v_name_and_type })
                            },
                        }
                    },
                }
            },
        }
    }

    fn retrieve_from(self, pool: &ConstantPool<'input>) -> (r: Result<FieldRef<'input>, DecodeError>) {
        let this = match pool.get(self) {
            Ok(this) => this,
            Err(e) => return Err(e),
        };
        let class = match this.class.retrieve_from(pool) {
            Ok(v) => v,
            Err(e) => return Err(e),
        };
        let name_and_type = match this.name_and_type.retrieve_from(pool) {
            Ok(v) => v,
            Err(e) => return Err(e),
        };
        Ok(FieldRef { class, name_and_type })
    }
}

#[derive(Debug, Clone, Copy, PartialEq)]
pub struct MethodRef<'input> {
    pub class: Class<'input>,
    pub name_and_type: NameAndType<'input>,
}

impl<'input> ToValue<'input> for Index<cpool::MethodRef> {
    type Target = MethodRef<'input>;

    open spec fn spec_retrieve(self, pool: ConstantPool<'input>) -> Result<MethodRef<'input>, DecodeError> {
        match pool.spec_get::<cpool::MethodRef>(self.spec_index()) {
            Err(e) => Err(e),
            Ok(this) => {
                match this.class.spec_retrieve(pool) {
                    Err(e) => Err(e),
                    Ok(v_class) => {
                        match this.name_and_type.spec_retrieve(pool) {
                            Err(e) => Err(e),
                            Ok(v_name_and_type) => {
                                Ok(MethodRef { class: v_class, name_and_type: v_name_and_type })
                            },
                        }
                    },
                }
            },
        }
    }

    fn retrieve_from(self, pool: &ConstantPool<'input>) -> (r: Result<MethodRef<'input>, DecodeError>) {
        let this = match pool.get(self) {
            Ok(this) => this,
            Err(e) => return Err(e),
        };
        let class = match this.class.retrieve_from(pool) {
            Ok(v) => v,
            Err(e) => return Err(e),
        };
        let name_and_type = match this.name_and_type.retrieve_from(pool) {
            Ok(v) => v,
            Err(e) => return Err(e),
        };
        Ok(MethodRef { class, name_and_type })
    }
}

#[derive(Debug, Clone, Copy, PartialEq)]
pub struct InterfaceMethodRef<'input> {
    pub class: Class<'input>,
    pub name_and_type: NameAndType<'input>,
}

impl<'input> ToValue<'input> for Index<cpool::InterfaceMethodRef> {
    type Target = InterfaceMethodRef<'input>;

    open spec fn spec_retrieve(self, pool: ConstantPool<'input>) -> Result<InterfaceMethodRef<'input>, DecodeError> {
        match pool.spec_get::<cpool::InterfaceMethodRef>(self.spec_index()) {
            Err(e) => Err(e),
            Ok(this) => {
                match this.class.spec_retrieve(pool) {
                    Err(e) => Err(e),
                    Ok(v_class) => {
                        match this.name_and_type.spec_retrieve(pool) {
                            Err(e) => Err(e),
                            Ok(v_name_and_type) => {
                                Ok(InterfaceMethodRef { class: v_class, name_and_type: v_name_and_type })
                            },
                        }
                    },
                }
            },
        }
    }

    fn retrieve_from(self, pool: &ConstantPool<'input>) -> (r: Result<InterfaceMethodRef<'input>, DecodeError>) {
        let this = match pool.get(self) {
            Ok(this) => this,
            Err(e) => return Err(e),
        };
        let class = match this.class.retrieve_from(pool) {
            Ok(v) => v,
            Err(e) => return Err(e),
        };
        let name_and_type = match this.name_and_type.retrieve_from(pool) {
            Ok(v) => v,
            Err(e) => return Err(e),
        };
        Ok(InterfaceMethodRef { class, name_and_type })
    }
}

#[derive(Debug, Clone, Copy, PartialEq)]
pub struct String<'input> {
    pub string: MStr<'input>,
}

impl<'input> ToValue<'input> for Index<cpool::String> {
    type Target = String<'input>;

    open spec fn spec_retrieve(self, pool: ConstantPool<'input>) -> Result<String<'input>, DecodeError> {
        match pool.spec_get::<cpool::String>(self.spec_index()) {
            Err(e) => Err(e),
            Ok(this) => {
                match this.string.spec_retrieve(pool) {
                    Err(e) => Err(e),
                    Ok(v_string) => {
                        Ok(String { string: v_string })
                    },
                }
            },
        }
    }

    fn retrieve_from(self, pool: &ConstantPool<'input>) -> (r: Result<String<'input>, DecodeError>) {
        let this = match pool.get(self) {
            Ok(this) => this,
            Err(e) => return Err(e),
        };
        let string = match this.string.retrieve_from(pool) {
            Ok(v) => v,
            Err(e) => return Err(e),
        };
        Ok(String { string })
    }
}

#[derive(Debug, Clone, Copy, PartialEq)]
pub struct Integer {
    pub value: i32,
}

impl<'input> ToValue<'input> for Index<cpool::Integer> {
    type Target = Integer;

    open spec fn spec_retrieve(self, pool: ConstantPool<'input>) -> Result<Integer, DecodeError> {
        match pool.spec_get::<cpool::Integer>(self.spec_index()) {
            Err(e) => Err(e),
            Ok(this) => {
                Ok(Integer { value: this.value })
            },
        }
    }

    fn retrieve_from(self, pool: &ConstantPool<'input>) -> (r: Result<Integer, DecodeError>) {
        let this = match pool.get(self) {
            Ok(this) => this,
            Err(e) => return Err(e),
        };
        Ok(Integer { value: this.value })
    }
}

#[derive(Debug, Clone, Copy, PartialEq)]
pub struct Long {
    pub value: i64,
}

impl<'input> ToValue<'input> for Index<cpool::Long> {
    type Target = Long;

    open spec fn spec_retrieve(self, pool: ConstantPool<'input>) -> Result<Long, DecodeError> {
        match pool.spec_get::<cpool::Long>(self.spec_index()) {
            Err(e) => Err(e),
            Ok(this) => {
                Ok(Long { value: this.value })
            },
        }
    }

    fn retrieve_from(self, pool: &ConstantPool<'input>) -> (r: Result<Long, DecodeError>) {
        let this = match pool.get(self) {
            Ok(this) => this,
            Err(e) => return Err(e),
        };
        Ok(Long { value: this.value })
    }
}

/// A `float` constant, as the bits of its IEEE 754 representation.
#[derive(Debug, Clone, Copy, PartialEq)]
pub struct Float {
    pub bits: u32,
}

impl<'input> ToValue<'input> for Index<cpool::Float> {
    type Target = Float;

    open spec fn spec_retrieve(self, pool: ConstantPool<'input>) -> Result<Float, DecodeError> {
        match pool.spec_get::<cpool::Float>(self.spec_index()) {
            Err(e) => Err(e),
            Ok(this) => {
                Ok(Float { bits: this.bits })
            },
        }
    }

    fn retrieve_from(self, pool: &ConstantPool<'input>) -> (r: Result<Float, DecodeError>) {
        let this = match pool.get(self) {
            Ok(this) => this,
            Err(e) => return Err(e),
        };
        Ok(Float { bits: this.bits })
    }
}

/// A `double` constant, as the bits of its IEEE 754 representation.
#[derive(Debug, Clone, Copy, PartialEq)]
pub struct Double {
    pub bits: u64,
}

impl<'input> ToValue<'input> for Index<cpool::Double> {
    type Target = Double;

    open spec fn spec_retrieve(self, pool: ConstantPool<'input>) -> Result<Double, DecodeError> {
        match pool.spec_get::<cpool::Double>(self.spec_index()) {
            Err(e) => Err(e),
            Ok(this) => {
                Ok(Double { bits: this.bits })
            },
        }
    }

    fn retrieve_from(self, pool: &ConstantPool<'input>) -> (r: Result<Double, DecodeError>) {
        let this = match pool.get(self) {
            Ok(this) => this,
            Err(e) => return Err(e),
        };
        Ok(Double { bits: this.bits })
    }
}

#[derive(Debug, Clone, Copy, PartialEq)]
pub struct NameAndType<'input> {
    pub name: MStr<'input>,
    pub descriptor: MStr<'input>,
}

impl<'input> ToValue<'input> for Index<cpool::NameAndType> {
    type Target = NameAndType<'input>;

    open spec fn spec_retrieve(self, pool: ConstantPool<'input>) -> Result<NameAndType<'input>, DecodeError> {
        match pool.spec_get::<cpool::NameAndType>(self.spec_index()) {
            Err(e) => Err(e),
            Ok(this) => {
                match this.name.spec_retrieve(pool) {
                    Err(e) => Err(e),
                    Ok(v_name) => {
                        match this.descriptor.spec_retrieve(pool) {
                            Err(e) => Err(e),
                            Ok(v_descriptor) => {
                                Ok(NameAndType { name: v_name, descriptor: v_descriptor })
                            },
                        }
                    },
                }
            },
        }
    }

    fn retrieve_from(self, pool: &ConstantPool<'input>) -> (r: Result<NameAndType<'input>, DecodeError>) {
        let this = match pool.get(self) {
            Ok(this) => this,
            Err(e) => return Err(e),
        };
        let name = match this.name.retrieve_from(pool) {
            Ok(v) => v,
            Err(e) => return Err(e),
        };
        let descriptor = match this.descriptor.retrieve_from(pool) {
            Ok(v) => v,
            Err(e) => return Err(e),
        };
        Ok(NameAndType { name, descriptor })
    }
}

#[derive(Debug, Clone, Copy, PartialEq)]
pub struct MethodHandle<'input> {
    pub kind: cpool::MethodKind,
    pub reference: Item<'input>,
}

impl<'input> ToValue<'input> for Index<cpool::MethodHandle> {
    type Target = MethodHandle<'input>;

    open spec fn spec_retrieve(self, pool: ConstantPool<'input>) -> Result<MethodHandle<'input>, DecodeError> {
        match pool.spec_get::<cpool::MethodHandle>(self.spec_index()) {
            Err(e) => Err(e),
            Ok(this) => {
                match pool.spec_get::<Item<'input>>(this.reference.spec_index()) {
                    Err(e) => Err(e),
                    Ok(v_reference) => {
                        Ok(MethodHandle { kind: this.kind, reference: v_reference })
                    },
                }
            },
        }
    }

    fn retrieve_from(self, pool: &ConstantPool<'input>) -> (r: Result<MethodHandle<'input>, DecodeError>) {
        let this = match pool.get(self) {
            Ok(this) => this,
            Err(e) => return Err(e),
        };
        let reference: Item<'input> = match pool.get(this.reference) {
            Ok(v) => *v,
            Err(e) => return Err(e),
        };
        Ok(MethodHandle { kind: this.kind, reference })
    }
}

#[derive(Debug, Clone, Copy, PartialEq)]
pub struct MethodType<'input> {
    pub descriptor: MStr<'input>,
}

impl<'input> ToValue<'input> for Index<cpool::MethodType> {
    type Target = MethodType<'input>;

    open spec fn spec_retrieve(self, pool: ConstantPool<'input>) -> Result<MethodType<'input>, DecodeError> {
        match pool.spec_get::<cpool::MethodType>(self.spec_index()) {
            Err(e) => Err(e),
            Ok(this) => {
                match this.descriptor.spec_retrieve(pool) {
                    Err(e) => Err(e),
                    Ok(v_descriptor) => {
                        Ok(MethodType { descriptor: v_descriptor })
                    },
                }
            },
        }
    }

    fn retrieve_from(self, pool: &ConstantPool<'input>) -> (r: Result<MethodType<'input>, DecodeError>) {
        let this = match pool.get(self) {
            Ok(this) => this,
            Err(e) => return Err(e),
        };
        let descriptor = match this.descriptor.retrieve_from(pool) {
            Ok(v) => v,
            Err(e) => return Err(e),
        };
        Ok(MethodType { descriptor })
    }
}

#[derive(Debug, Clone, Copy, PartialEq)]
pub struct Dynamic<'input> {
    /// An index into the bootstrap method table.
    pub bootstrap_method_attr: u16,
    pub name_and_type: NameAndType<'input>,
}

impl<'input> ToValue<'input> for Index<cpool::Dynamic> {
    type Target = Dynamic<'input>;

    open spec fn spec_retrieve(self, pool: ConstantPool<'input>) -> Result<Dynamic<'input>, DecodeError> {
        match pool.spec_get::<cpool::Dynamic>(self.spec_index()) {
            Err(e) => Err(e),
            Ok(this) => {
                match this.name_and_type.spec_retrieve(pool) {
                    Err(e) => Err(e),
                    Ok(v_name_and_type) => {
                        Ok(Dynamic { bootstrap_method_attr: this.bootstrap_method_attr, name_and_type: v_name_and_type })
                    },
                }
            },
        }
    }

    fn retrieve_from(self, pool: &ConstantPool<'input>) -> (r: Result<Dynamic<'input>, DecodeError>) {
        let this = match pool.get(self) {
            Ok(this) => this,
            Err(e) => return Err(e),
        };
        let name_and_type = match this.name_and_type.retrieve_from(pool) {
            Ok(v) => v,
            Err(e) => return Err(e),
        };
        Ok(Dynamic { bootstrap_method_attr: this.bootstrap_method_attr, name_and_type })
    }
}

#[derive(Debug, Clone, Copy, PartialEq)]
pub struct InvokeDynamic<'input> {
    /// An index into the bootstrap method table.
    pub bootstrap_method_attr: u16,
    pub name_and_type: NameAndType<'input>,
}

impl<'input> ToValue<'input> for Index<cpool::InvokeDynamic> {
    type Target = InvokeDynamic<'input>;

    open spec fn spec_retrieve(self, pool: ConstantPool<'input>) -> Result<InvokeDynamic<'input>, DecodeError> {
        match pool.spec_get::<cpool::InvokeDynamic>(self.spec_index()) {
            Err(e) => Err(e),
            Ok(this) => {
                match this.name_and_type.spec_retrieve(pool) {
                    Err(e) => Err(e),
                    Ok(v_name_and_type) => {
                        Ok(InvokeDynamic { bootstrap_method_attr: this.bootstrap_method_attr, name_and_type: v_name_and_type })
                    },
                }
            },
        }
    }

    fn retrieve_from(self, pool: &ConstantPool<'input>) -> (r: Result<InvokeDynamic<'input>, DecodeError>) {
        let this = match pool.get(self) {
            Ok(this) => this,
            Err(e) => return Err(e),
        };
        let name_and_type = match this.name_and_type.retrieve_from(pool) {
            Ok(v) => v,
            Err(e) => return Err(e),
        };
        Ok(InvokeDynamic { bootstrap_method_attr: this.bootstrap_method_attr, name_and_type })
    }
}

#[derive(Debug, Clone, Copy, PartialEq)]
pub struct Module<'input> {
    pub name: MStr<'input>,
}

impl<'input> ToValue<'input> for Index<cpool::Module> {
    type Target = Module<'input>;

    open spec fn spec_retrieve(self, pool: ConstantPool<'input>) -> Result<Module<'input>, DecodeError> {
        match pool.spec_get::<cpool::Module>(self.spec_index()) {
            Err(e) => Err(e),
            Ok(this) => {
                match this.name.spec_retrieve(pool) {
                    Err(e) => Err(e),
                    Ok(v_name) => {
                        Ok(Module { name: v_name })
                    },
                }
            },
        }
    }

    fn retrieve_from(self, pool: &ConstantPool<'input>) -> (r: Result<Module<'input>, DecodeError>) {
        let this = match pool.get(self) {
            Ok(this) => this,
            Err(e) => return Err(e),
        };
        let name = match this.name.retrieve_from(pool) {
            Ok(v) => v,
            Err(e) => return Err(e),
        };
        Ok(Module { name })
    }
}

#[derive(Debug, Clone, Copy, PartialEq)]
pub struct Package<'input> {
    pub name: MStr<'input>,
}

impl<'input> ToValue<'input> for Index<cpool::Package> {
    type Target = Package<'input>;

    open spec fn spec_retrieve(self, pool: ConstantPool<'input>) -> Result<Package<'input>, DecodeError> {
        match pool.spec_get::<cpool::Package>(self.spec_index()) {
            Err(e) => Err(e),
            Ok(this) => {
                match this.name.spec_retrieve(pool) {
                    Err(e) => Err(e),
                    Ok(v_name) => {
                        Ok(Package { name: v_name })
                    },
                }
            },
        }
    }

    fn retrieve_from(self, pool: &ConstantPool<'input>) -> (r: Result<Package<'input>, DecodeError>) {
        let this = match pool.get(self) {
            Ok(this) => this,
            Err(e) => return Err(e),
        };
        let name = match this.name.retrieve_from(pool) {
            Ok(v) => v,
            Err(e) => return Err(e),
        };
        Ok(Package { name })
    }
}

impl<'input> ConstantPool<'input> {
    /// The value that `at` stands for, with the items it points to resolved.
    pub fn retrieve<I>(&self, at: Index<I>) -> (r: Result<<Index<I> as ToValue<'input>>::Target, DecodeError>) where
        Index<I>: ToValue<'input>,
        ensures
            r == at.spec_retrieve(*self),
    {
        at.retrieve_from(self)
    }
}

} // verus!
