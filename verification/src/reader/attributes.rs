//! The attributes of classes, fields, methods and code.

pub mod annotations;
pub mod class;
pub mod code;
pub mod debug;
pub mod field;
pub mod method;
pub mod module;

pub use annotations::{AnnotationDefault, Annotations, ParameterAnnotations, TypeAnnotations};
pub use class::{
    BootstrapArgumentIter, BootstrapArguments, BootstrapMethod, BootstrapMethodIter, BootstrapMethods,
    EnclosingMethod, InnerClass, InnerClassIter, InnerClasses, NestHost, NestMemberIter, NestMembers,
    PermittedSubclasses, PermittedSubclassesIter, Record, RecordComponent, RecordComponentIter, RecordComponents,
};
pub use code::{
    Code, ExceptionHandler, ExceptionHandlers, Line, LineNumberIter, LineNumberTable, LocalVariableTable, StackMapTable,
};
pub use debug::{Deprecated, Signature, SourceDebugExtension, SourceFile, Synthetic};
pub use field::ConstantValue;
pub use method::{Exceptions, MethodParameter, MethodParameters};
pub use module::{Export, Module, ModuleMainClass, ModulePackages, Open, Provide, Require};

use crate::error::{Context, DecodeError, DecodeErrorKind};
use crate::mutf8::MStr;
use crate::reader::cpool;
use crate::reader::decoding::{lemma_read_u16, lemma_read_u32, Decode, DecodeInto, DecodeManyIter, Decoder};
use vstd::prelude::*;
use vstd::string::StringSliceAdditionalSpecFns;

verus! {

/// An iterator over the attributes of some item, each read when it is reached.
pub type AttributeIter<'input> = DecodeManyIter<'input, Attribute<'input>, u16>;

/// An attribute: the index of its name and its content, not yet interpreted.
#[derive(Debug, Clone, Copy)]
pub struct Attribute<'input> {
    pub(crate) name: cpool::Index<cpool::Utf8<'input>>,
    pub(crate) content: Decoder<'input>,
}

impl<'input> Attribute<'input> {
    pub open(crate) spec fn spec_new(name: cpool::Index<cpool::Utf8<'input>>, content: Decoder<'input>) -> Attribute<'input> {
        Attribute { name, content }
    }

    pub open(crate) spec fn spec_name(self) -> cpool::Index<cpool::Utf8<'input>> {
        self.name
    }

    /// The decoder over the attribute's content.
    pub open(crate) spec fn spec_content(self) -> Decoder<'input> {
        self.content
    }

    pub fn name(&self) -> (r: cpool::Index<cpool::Utf8<'input>>)
        ensures
            r == self.spec_name(),
    {
        self.name
    }

    /// The bytes of the attribute's content.
    pub fn content(&self) -> (r: &'input [u8])
        ensures
            r@ == self.spec_content().bytes(),
    {
        self.content.buf()
    }
}

impl<'input> Decode<'input> for Attribute<'input> {
    /// Reads the name index and the content's length, then takes that many bytes as the content.
    open spec fn spec_decode(decoder: Decoder<'input>) -> (Result<Attribute<'input>, DecodeError>, Decoder<'input>) {
        let (r, d) = <(cpool::Index<cpool::Utf8<'input>>, u32) as Decode<'input>>::spec_decode(decoder);
        match r {
            Err(e) => (Err(e), d),
            Ok(head) => match d.spec_try_limit(head.1 as int, Context::Attributes) {
                Err(e) => (Err(e), d),
                Ok(content) => (Ok(Attribute::spec_new(head.0, content)), d.spec_advance(head.1 as int)),
            },
        }
    }

    fn decode(decoder: &mut Decoder<'input>) -> (r: Result<Attribute<'input>, DecodeError>) {
        let (name, length): (cpool::Index<cpool::Utf8<'input>>, u32) = match decoder.read() {
            Ok(head) => head,
            Err(e) => return Err(e),
        };
        let length = length as usize;
        let content = match decoder.limit(length, Context::Attributes) {
            Ok(content) => content,
            Err(e) => return Err(e),
        };
        match decoder.advance(length) {
            Ok(()) => {},
            Err(e) => return Err(e),
        }
        Ok(Attribute { name, content })
    }
}


/// The content of an attribute, read according to its name.
#[derive(Debug, Clone)]
pub enum AttributeContent<'input> {
    AnnotationDefault(AnnotationDefault<'input>),
    BootstrapMethods(BootstrapMethods<'input>),
    Code(Code<'input>),
    ConstantValue(ConstantValue<'input>),
    Deprecated,
    EnclosingMethod(EnclosingMethod<'input>),
    Exceptions(Exceptions<'input>),
    InnerClasses(InnerClasses<'input>),
    LineNumberTable(LineNumberTable<'input>),
    LocalVariableTable(LocalVariableTable<'input>),
    LocalVariableTypeTable(LocalVariableTable<'input>),
    MethodParameters(MethodParameters<'input>),
    Module(Box<Module<'input>>),
    ModuleMainClass(ModuleMainClass<'input>),
    ModulePackages(ModulePackages<'input>),
    NestHost(NestHost<'input>),
    NestMembers(NestMembers<'input>),
    PermittedSubclasses(PermittedSubclasses<'input>),
    Record(Record<'input>),
    RuntimeInvisibleAnnotations(Annotations<'input>),
    RuntimeInvisibleParameterAnnotations(ParameterAnnotations<'input>),
    RuntimeInvisibleTypeAnnotations(TypeAnnotations<'input>),
    RuntimeVisibleAnnotations(Annotations<'input>),
    RuntimeVisibleParameterAnnotations(ParameterAnnotations<'input>),
    RuntimeVisibleTypeAnnotations(TypeAnnotations<'input>),
    Signature(Signature<'input>),
    SourceDebugExtension(MStr<'input>),
    SourceFile(SourceFile<'input>),
    StackMapTable(StackMapTable<'input>),
    Synthetic,
}

/// A read whose value is wrapped by `f`.
pub open spec fn spec_wrap<A, B>(r: Result<A, DecodeError>, f: spec_fn(A) -> B) -> Result<B, DecodeError> {
    match r {
        Ok(a) => Ok(f(a)),
        Err(e) => Err(e),
    }
}

/// The layout of an attribute (JVMS §4.7): the index of its name as a big-endian `u16`, the
/// length of its content as a big-endian `u32`, then exactly that many bytes of content; a
/// length that runs past the end of the input is refused.
pub proof fn lemma_attribute_layout<'input>(d: Decoder<'input>)
    requires
        d.in_bounds(),
        d.remaining() >= 6,
    ensures
        ({
            let b = d.bytes();
            let a = (b[0] as nat * 256 + b[1] as nat) as u16;
            let len = (((b[2] as nat * 256 + b[3] as nat) * 256 + b[4] as nat) * 256 + b[5] as nat) as u32;
            let (r, after) = <Attribute<'input> as Decode<'input>>::spec_decode(d);
            &&& a != 0 && len <= d.remaining() - 6 ==> r is Ok && r->Ok_0.spec_name().spec_index() == a
                && r->Ok_0.spec_content().bytes() == b.subrange(6, 6 + len)
                && after == d.spec_advance(6 + len)
            &&& len > d.remaining() - 6 ==> r is Err
        }),
{
    let b = d.bytes();
    lemma_read_u16(d);
    let d2 = d.spec_advance(2);
    lemma_read_u32(d2);
    assert(d2.bytes()[0] == b[2] && d2.bytes()[1] == b[3] && d2.bytes()[2] == b[4] && d2.bytes()[3] == b[5]);
    let d6 = d2.spec_advance(4);
    assert(d6 == d.spec_advance(6));
    let len = (((b[2] as nat * 256 + b[3] as nat) * 256 + b[4] as nat) * 256 + b[5] as nat) as u32;
    if len <= d.remaining() - 6 {
        assert(d6.spec_limit(len as int, Context::Attributes).bytes() =~= b.subrange(6, 6 + len));
        assert(d6.spec_advance(len as int) == d.spec_advance(6 + len));
    }
}

/// Reading the content of an attribute whose name has the bytes `name`; other names are refused.
pub open spec fn spec_read_content<'input>(name: Seq<u8>, content: Decoder<'input>) -> Result<AttributeContent<'input>, DecodeError> {
    let d = content.spec_with_context(Context::AttributeContent);

    if name == "AnnotationDefault".spec_bytes() {
        spec_wrap(<AnnotationDefault<'input> as DecodeInto<'input>>::spec_decode_into(d), |v: AnnotationDefault<'input>| AttributeContent::AnnotationDefault(v))
    } else if name == "BootstrapMethods".spec_bytes() {
        spec_wrap(<BootstrapMethods<'input> as DecodeInto<'input>>::spec_decode_into(d), |v: BootstrapMethods<'input>| AttributeContent::BootstrapMethods(v))
    } else if name == "Code".spec_bytes() {
        spec_wrap(<Code<'input> as DecodeInto<'input>>::spec_decode_into(d), |v: Code<'input>| AttributeContent::Code(v))
    } else if name == "ConstantValue".spec_bytes() {
        spec_wrap(<ConstantValue<'input> as DecodeInto<'input>>::spec_decode_into(d), |v: ConstantValue<'input>| AttributeContent::ConstantValue(v))
    } else if name == "Deprecated".spec_bytes() {
        Ok(AttributeContent::Deprecated)
    } else if name == "EnclosingMethod".spec_bytes() {
        spec_wrap(<EnclosingMethod<'input> as DecodeInto<'input>>::spec_decode_into(d), |v: EnclosingMethod<'input>| AttributeContent::EnclosingMethod(v))
    } else if name == "Exceptions".spec_bytes() {
        spec_wrap(<Exceptions<'input> as DecodeInto<'input>>::spec_decode_into(d), |v: Exceptions<'input>| AttributeContent::Exceptions(v))
    } else if name == "InnerClasses".spec_bytes() {
        spec_wrap(<InnerClasses<'input> as DecodeInto<'input>>::spec_decode_into(d), |v: InnerClasses<'input>| AttributeContent::InnerClasses(v))
    } else if name == "LineNumberTable".spec_bytes() {
        spec_wrap(<LineNumberTable<'input> as DecodeInto<'input>>::spec_decode_into(d), |v: LineNumberTable<'input>| AttributeContent::LineNumberTable(v))
    } else if name == "LocalVariableTable".spec_bytes() {
        spec_wrap(<LocalVariableTable<'input> as DecodeInto<'input>>::spec_decode_into(d), |v: LocalVariableTable<'input>| AttributeContent::LocalVariableTable(v))
    } else if name == "LocalVariableTypeTable".spec_bytes() {
        spec_wrap(<LocalVariableTable<'input> as DecodeInto<'input>>::spec_decode_into(d), |v: LocalVariableTable<'input>| AttributeContent::LocalVariableTypeTable(v))
    } else if name == "MethodParameters".spec_bytes() {
        spec_wrap(<MethodParameters<'input> as DecodeInto<'input>>::spec_decode_into(d), |v: MethodParameters<'input>| AttributeContent::MethodParameters(v))
    } else if name == "Module".spec_bytes() {
        spec_wrap(<Module<'input> as DecodeInto<'input>>::spec_decode_into(d), |v: Module<'input>| AttributeContent::Module(Box::new(v)))
    } else if name == "ModuleMainClass".spec_bytes() {
        spec_wrap(<ModuleMainClass<'input> as DecodeInto<'input>>::spec_decode_into(d), |v: ModuleMainClass<'input>| AttributeContent::ModuleMainClass(v))
    } else if name == "ModulePackages".spec_bytes() {
        spec_wrap(<ModulePackages<'input> as DecodeInto<'input>>::spec_decode_into(d), |v: ModulePackages<'input>| AttributeContent::ModulePackages(v))
    } else if name == "NestMembers".spec_bytes() {
        spec_wrap(<NestMembers<'input> as DecodeInto<'input>>::spec_decode_into(d), |v: NestMembers<'input>| AttributeContent::NestMembers(v))
    } else if name == "NestHost".spec_bytes() {
        spec_wrap(<NestHost<'input> as DecodeInto<'input>>::spec_decode_into(d), |v: NestHost<'input>| AttributeContent::NestHost(v))
    } else if name == "PermittedSubclasses".spec_bytes() {
        spec_wrap(<PermittedSubclasses<'input> as DecodeInto<'input>>::spec_decode_into(d), |v: PermittedSubclasses<'input>| AttributeContent::PermittedSubclasses(v))
    } else if name == "Record".spec_bytes() {
        spec_wrap(<Record<'input> as DecodeInto<'input>>::spec_decode_into(d), |v: Record<'input>| AttributeContent::Record(v))
    } else if name == "RuntimeInvisibleAnnotations".spec_bytes() {
        spec_wrap(<Annotations<'input> as DecodeInto<'input>>::spec_decode_into(d), |v: Annotations<'input>| AttributeContent::RuntimeInvisibleAnnotations(v))
    } else if name == "RuntimeInvisibleParameterAnnotations".spec_bytes() {
        spec_wrap(<ParameterAnnotations<'input> as DecodeInto<'input>>::spec_decode_into(d), |v: ParameterAnnotations<'input>| AttributeContent::RuntimeInvisibleParameterAnnotations(v))
    } else if name == "RuntimeInvisibleTypeAnnotations".spec_bytes() {
        spec_wrap(<TypeAnnotations<'input> as DecodeInto<'input>>::spec_decode_into(d), |v: TypeAnnotations<'input>| AttributeContent::RuntimeInvisibleTypeAnnotations(v))
    } else if name == "RuntimeVisibleAnnotations".spec_bytes() {
        spec_wrap(<Annotations<'input> as DecodeInto<'input>>::spec_decode_into(d), |v: Annotations<'input>| AttributeContent::RuntimeVisibleAnnotations(v))
    } else if name == "RuntimeVisibleParameterAnnotations".spec_bytes() {
        spec_wrap(<ParameterAnnotations<'input> as DecodeInto<'input>>::spec_decode_into(d), |v: ParameterAnnotations<'input>| AttributeContent::RuntimeVisibleParameterAnnotations(v))
    } else if name == "RuntimeVisibleTypeAnnotations".spec_bytes() {
        spec_wrap(<TypeAnnotations<'input> as DecodeInto<'input>>::spec_decode_into(d), |v: TypeAnnotations<'input>| AttributeContent::RuntimeVisibleTypeAnnotations(v))
    } else if name == "Signature".spec_bytes() {
        spec_wrap(<Signature<'input> as DecodeInto<'input>>::spec_decode_into(d), |v: Signature<'input>| AttributeContent::Signature(v))
    } else if name == "SourceDebugExtension".spec_bytes() {
        spec_wrap(d.spec_split_mstr(d.remaining()).0, |v: MStr<'input>| AttributeContent::SourceDebugExtension(v))
    } else if name == "SourceFile".spec_bytes() {
        spec_wrap(<SourceFile<'input> as DecodeInto<'input>>::spec_decode_into(d), |v: SourceFile<'input>| AttributeContent::SourceFile(v))
    } else if name == "StackMapTable".spec_bytes() {
        spec_wrap(<StackMapTable<'input> as DecodeInto<'input>>::spec_decode_into(d), |v: StackMapTable<'input>| AttributeContent::StackMapTable(v))
    } else if name == "Synthetic".spec_bytes() {
        Ok(AttributeContent::Synthetic)
    } else {
        Err(content.error_here(DecodeErrorKind::UnknownAttributeName))
    }
}

/// Each attribute name of JVMS §4.7 is read as the content of the same name: whatever the
/// content holds, an attribute named, say, `RuntimeVisibleAnnotations` reads as
/// `RuntimeVisibleAnnotations` content or fails, never as another kind; a name that is none of
/// them is refused as unknown.
#[verifier::rlimit(100)]
pub proof fn lemma_content_kind_of_name<'input>(name: Seq<u8>, content: Decoder<'input>)
    ensures
        ({
            let r = spec_read_content(name, content);
            &&& name == "AnnotationDefault".spec_bytes() ==> (r is Ok ==> r->Ok_0 is AnnotationDefault)
            &&& name == "BootstrapMethods".spec_bytes() ==> (r is Ok ==> r->Ok_0 is BootstrapMethods)
            &&& name == "Code".spec_bytes() ==> (r is Ok ==> r->Ok_0 is Code)
            &&& name == "ConstantValue".spec_bytes() ==> (r is Ok ==> r->Ok_0 is ConstantValue)
            &&& name == "Deprecated".spec_bytes() ==> r == Ok::<AttributeContent<'input>, DecodeError>(AttributeContent::Deprecated)
            &&& name == "EnclosingMethod".spec_bytes() ==> (r is Ok ==> r->Ok_0 is EnclosingMethod)
            &&& name == "Exceptions".spec_bytes() ==> (r is Ok ==> r->Ok_0 is Exceptions)
            &&& name == "InnerClasses".spec_bytes() ==> (r is Ok ==> r->Ok_0 is InnerClasses)
            &&& name == "LineNumberTable".spec_bytes() ==> (r is Ok ==> r->Ok_0 is LineNumberTable)
            &&& name == "LocalVariableTable".spec_bytes() ==> (r is Ok ==> r->Ok_0 is LocalVariableTable)
            &&& name == "LocalVariableTypeTable".spec_bytes() ==> (r is Ok ==> r->Ok_0 is LocalVariableTypeTable)
            &&& name == "MethodParameters".spec_bytes() ==> (r is Ok ==> r->Ok_0 is MethodParameters)
            &&& name == "Module".spec_bytes() ==> (r is Ok ==> r->Ok_0 is Module)
            &&& name == "ModuleMainClass".spec_bytes() ==> (r is Ok ==> r->Ok_0 is ModuleMainClass)
            &&& name == "ModulePackages".spec_bytes() ==> (r is Ok ==> r->Ok_0 is ModulePackages)
            &&& name == "NestMembers".spec_bytes() ==> (r is Ok ==> r->Ok_0 is NestMembers)
            &&& name == "NestHost".spec_bytes() ==> (r is Ok ==> r->Ok_0 is NestHost)
            &&& name == "PermittedSubclasses".spec_bytes() ==> (r is Ok ==> r->Ok_0 is PermittedSubclasses)
            &&& name == "Record".spec_bytes() ==> (r is Ok ==> r->Ok_0 is Record)
            &&& name == "RuntimeInvisibleAnnotations".spec_bytes() ==> (r is Ok ==> r->Ok_0 is RuntimeInvisibleAnnotations)
            &&& name == "RuntimeInvisibleParameterAnnotations".spec_bytes() ==> (r is Ok ==> r->Ok_0 is RuntimeInvisibleParameterAnnotations)
            &&& name == "RuntimeInvisibleTypeAnnotations".spec_bytes() ==> (r is Ok ==> r->Ok_0 is RuntimeInvisibleTypeAnnotations)
            &&& name == "RuntimeVisibleAnnotations".spec_bytes() ==> (r is Ok ==> r->Ok_0 is RuntimeVisibleAnnotations)
            &&& name == "RuntimeVisibleParameterAnnotations".spec_bytes() ==> (r is Ok ==> r->Ok_0 is RuntimeVisibleParameterAnnotations)
            &&& name == "RuntimeVisibleTypeAnnotations".spec_bytes() ==> (r is Ok ==> r->Ok_0 is RuntimeVisibleTypeAnnotations)
            &&& name == "Signature".spec_bytes() ==> (r is Ok ==> r->Ok_0 is Signature)
            &&& name == "SourceDebugExtension".spec_bytes() ==> (r is Ok ==> r->Ok_0 is SourceDebugExtension)
            &&& name == "SourceFile".spec_bytes() ==> (r is Ok ==> r->Ok_0 is SourceFile)
            &&& name == "StackMapTable".spec_bytes() ==> (r is Ok ==> r->Ok_0 is StackMapTable)
            &&& name == "Synthetic".spec_bytes() ==> r == Ok::<AttributeContent<'input>, DecodeError>(AttributeContent::Synthetic)
            &&& (name != "AnnotationDefault".spec_bytes() && name != "BootstrapMethods".spec_bytes() && name != "Code".spec_bytes() && name != "ConstantValue".spec_bytes() && name != "Deprecated".spec_bytes() && name != "EnclosingMethod".spec_bytes() && name != "Exceptions".spec_bytes() && name != "InnerClasses".spec_bytes() && name != "LineNumberTable".spec_bytes() && name != "LocalVariableTable".spec_bytes() && name != "LocalVariableTypeTable".spec_bytes() && name != "MethodParameters".spec_bytes() && name != "Module".spec_bytes() && name != "ModuleMainClass".spec_bytes() && name != "ModulePackages".spec_bytes() && name != "NestMembers".spec_bytes() && name != "NestHost".spec_bytes() && name != "PermittedSubclasses".spec_bytes() && name != "Record".spec_bytes() && name != "RuntimeInvisibleAnnotations".spec_bytes() && name != "RuntimeInvisibleParameterAnnotations".spec_bytes() && name != "RuntimeInvisibleTypeAnnotations".spec_bytes() && name != "RuntimeVisibleAnnotations".spec_bytes() && name != "RuntimeVisibleParameterAnnotations".spec_bytes() && name != "RuntimeVisibleTypeAnnotations".spec_bytes() && name != "Signature".spec_bytes() && name != "SourceDebugExtension".spec_bytes() && name != "SourceFile".spec_bytes() && name != "StackMapTable".spec_bytes() && name != "Synthetic".spec_bytes()) ==> r == Err::<AttributeContent<'input>, DecodeError>(
                content.error_here(DecodeErrorKind::UnknownAttributeName),
            )
        }),
{
    broadcast use vstd::string::group_string_axioms;

    reveal_strlit("AnnotationDefault");
    vstd::utf8::encode_utf8_decode_utf8("AnnotationDefault"@);
    assert("AnnotationDefault"@.len() == 17 && "AnnotationDefault"@[0] == 'A' && "AnnotationDefault"@[1] == 'n');
    reveal_strlit("BootstrapMethods");
    vstd::utf8::encode_utf8_decode_utf8("BootstrapMethods"@);
    assert("BootstrapMethods"@.len() == 16 && "BootstrapMethods"@[0] == 'B' && "BootstrapMethods"@[1] == 'o');
    reveal_strlit("Code");
    vstd::utf8::encode_utf8_decode_utf8("Code"@);
    assert("Code"@.len() == 4 && "Code"@[0] == 'C' && "Code"@[1] == 'o');
    reveal_strlit("ConstantValue");
    vstd::utf8::encode_utf8_decode_utf8("ConstantValue"@);
    assert("ConstantValue"@.len() == 13 && "ConstantValue"@[0] == 'C' && "ConstantValue"@[1] == 'o');
    reveal_strlit("Deprecated");
    vstd::utf8::encode_utf8_decode_utf8("Deprecated"@);
    assert("Deprecated"@.len() == 10 && "Deprecated"@[0] == 'D' && "Deprecated"@[1] == 'e');
    reveal_strlit("EnclosingMethod");
    vstd::utf8::encode_utf8_decode_utf8("EnclosingMethod"@);
    assert("EnclosingMethod"@.len() == 15 && "EnclosingMethod"@[0] == 'E' && "EnclosingMethod"@[1] == 'n');
    reveal_strlit("Exceptions");
    vstd::utf8::encode_utf8_decode_utf8("Exceptions"@);
    assert("Exceptions"@.len() == 10 && "Exceptions"@[0] == 'E' && "Exceptions"@[1] == 'x');
    reveal_strlit("InnerClasses");
    vstd::utf8::encode_utf8_decode_utf8("InnerClasses"@);
    assert("InnerClasses"@.len() == 12 && "InnerClasses"@[0] == 'I' && "InnerClasses"@[1] == 'n');
    reveal_strlit("LineNumberTable");
    vstd::utf8::encode_utf8_decode_utf8("LineNumberTable"@);
    assert("LineNumberTable"@.len() == 15 && "LineNumberTable"@[0] == 'L' && "LineNumberTable"@[1] == 'i');
    reveal_strlit("LocalVariableTable");
    vstd::utf8::encode_utf8_decode_utf8("LocalVariableTable"@);
    assert("LocalVariableTable"@.len() == 18 && "LocalVariableTable"@[0] == 'L' && "LocalVariableTable"@[1] == 'o');
    reveal_strlit("LocalVariableTypeTable");
    vstd::utf8::encode_utf8_decode_utf8("LocalVariableTypeTable"@);
    assert("LocalVariableTypeTable"@.len() == 22 && "LocalVariableTypeTable"@[0] == 'L' && "LocalVariableTypeTable"@[1] == 'o');
    reveal_strlit("MethodParameters");
    vstd::utf8::encode_utf8_decode_utf8("MethodParameters"@);
    assert("MethodParameters"@.len() == 16 && "MethodParameters"@[0] == 'M' && "MethodParameters"@[1] == 'e');
    reveal_strlit("Module");
    vstd::utf8::encode_utf8_decode_utf8("Module"@);
    assert("Module"@.len() == 6 && "Module"@[0] == 'M' && "Module"@[1] == 'o');
    reveal_strlit("ModuleMainClass");
    vstd::utf8::encode_utf8_decode_utf8("ModuleMainClass"@);
    assert("ModuleMainClass"@.len() == 15 && "ModuleMainClass"@[0] == 'M' && "ModuleMainClass"@[1] == 'o');
    reveal_strlit("ModulePackages");
    vstd::utf8::encode_utf8_decode_utf8("ModulePackages"@);
    assert("ModulePackages"@.len() == 14 && "ModulePackages"@[0] == 'M' && "ModulePackages"@[1] == 'o');
    reveal_strlit("NestMembers");
    vstd::utf8::encode_utf8_decode_utf8("NestMembers"@);
    assert("NestMembers"@.len() == 11 && "NestMembers"@[0] == 'N' && "NestMembers"@[1] == 'e');
    reveal_strlit("NestHost");
    vstd::utf8::encode_utf8_decode_utf8("NestHost"@);
    assert("NestHost"@.len() == 8 && "NestHost"@[0] == 'N' && "NestHost"@[1] == 'e');
    reveal_strlit("PermittedSubclasses");
    vstd::utf8::encode_utf8_decode_utf8("PermittedSubclasses"@);
    assert("PermittedSubclasses"@.len() == 19 && "PermittedSubclasses"@[0] == 'P' && "PermittedSubclasses"@[1] == 'e');
    reveal_strlit("Record");
    vstd::utf8::encode_utf8_decode_utf8("Record"@);
    assert("Record"@.len() == 6 && "Record"@[0] == 'R' && "Record"@[1] == 'e');
    reveal_strlit("RuntimeInvisibleAnnotations");
    vstd::utf8::encode_utf8_decode_utf8("RuntimeInvisibleAnnotations"@);
    assert("RuntimeInvisibleAnnotations"@.len() == 27 && "RuntimeInvisibleAnnotations"@[0] == 'R' && "RuntimeInvisibleAnnotations"@[1] == 'u');
    reveal_strlit("RuntimeInvisibleParameterAnnotations");
    vstd::utf8::encode_utf8_decode_utf8("RuntimeInvisibleParameterAnnotations"@);
    assert("RuntimeInvisibleParameterAnnotations"@.len() == 36 && "RuntimeInvisibleParameterAnnotations"@[0] == 'R' && "RuntimeInvisibleParameterAnnotations"@[1] == 'u');
    reveal_strlit("RuntimeInvisibleTypeAnnotations");
    vstd::utf8::encode_utf8_decode_utf8("RuntimeInvisibleTypeAnnotations"@);
    assert("RuntimeInvisibleTypeAnnotations"@.len() == 31 && "RuntimeInvisibleTypeAnnotations"@[0] == 'R' && "RuntimeInvisibleTypeAnnotations"@[1] == 'u');
    reveal_strlit("RuntimeVisibleAnnotations");
    vstd::utf8::encode_utf8_decode_utf8("RuntimeVisibleAnnotations"@);
    assert("RuntimeVisibleAnnotations"@.len() == 25 && "RuntimeVisibleAnnotations"@[0] == 'R' && "RuntimeVisibleAnnotations"@[1] == 'u');
    reveal_strlit("RuntimeVisibleParameterAnnotations");
    vstd::utf8::encode_utf8_decode_utf8("RuntimeVisibleParameterAnnotations"@);
    assert("RuntimeVisibleParameterAnnotations"@.len() == 34 && "RuntimeVisibleParameterAnnotations"@[0] == 'R' && "RuntimeVisibleParameterAnnotations"@[1] == 'u');
    reveal_strlit("RuntimeVisibleTypeAnnotations");
    vstd::utf8::encode_utf8_decode_utf8("RuntimeVisibleTypeAnnotations"@);
    assert("RuntimeVisibleTypeAnnotations"@.len() == 29 && "RuntimeVisibleTypeAnnotations"@[0] == 'R' && "RuntimeVisibleTypeAnnotations"@[1] == 'u');
    reveal_strlit("Signature");
    vstd::utf8::encode_utf8_decode_utf8("Signature"@);
    assert("Signature"@.len() == 9 && "Signature"@[0] == 'S' && "Signature"@[1] == 'i');
    reveal_strlit("SourceDebugExtension");
    vstd::utf8::encode_utf8_decode_utf8("SourceDebugExtension"@);
    assert("SourceDebugExtension"@.len() == 20 && "SourceDebugExtension"@[0] == 'S' && "SourceDebugExtension"@[1] == 'o');
    reveal_strlit("SourceFile");
    vstd::utf8::encode_utf8_decode_utf8("SourceFile"@);
    assert("SourceFile"@.len() == 10 && "SourceFile"@[0] == 'S' && "SourceFile"@[1] == 'o');
    reveal_strlit("StackMapTable");
    vstd::utf8::encode_utf8_decode_utf8("StackMapTable"@);
    assert("StackMapTable"@.len() == 13 && "StackMapTable"@[0] == 'S' && "StackMapTable"@[1] == 't');
    reveal_strlit("Synthetic");
    vstd::utf8::encode_utf8_decode_utf8("Synthetic"@);
    assert("Synthetic"@.len() == 9 && "Synthetic"@[0] == 'S' && "Synthetic"@[1] == 'y');
    reveal_strlit("AnnotationDefault");
    vstd::utf8::encode_utf8_decode_utf8("AnnotationDefault"@);
    assert("AnnotationDefault"@.len() == 17 && "AnnotationDefault"@[0] == 'A' && "AnnotationDefault"@[1] == 'n');
    reveal_strlit("BootstrapMethods");
    vstd::utf8::encode_utf8_decode_utf8("BootstrapMethods"@);
    assert("BootstrapMethods"@.len() == 16 && "BootstrapMethods"@[0] == 'B' && "BootstrapMethods"@[1] == 'o');
    reveal_strlit("Code");
    vstd::utf8::encode_utf8_decode_utf8("Code"@);
    assert("Code"@.len() == 4 && "Code"@[0] == 'C' && "Code"@[1] == 'o');
    reveal_strlit("ConstantValue");
    vstd::utf8::encode_utf8_decode_utf8("ConstantValue"@);
    assert("ConstantValue"@.len() == 13 && "ConstantValue"@[0] == 'C' && "ConstantValue"@[1] == 'o');
    reveal_strlit("Deprecated");
    vstd::utf8::encode_utf8_decode_utf8("Deprecated"@);
    assert("Deprecated"@.len() == 10 && "Deprecated"@[0] == 'D' && "Deprecated"@[1] == 'e');
    reveal_strlit("EnclosingMethod");
    vstd::utf8::encode_utf8_decode_utf8("EnclosingMethod"@);
    assert("EnclosingMethod"@.len() == 15 && "EnclosingMethod"@[0] == 'E' && "EnclosingMethod"@[1] == 'n');
    reveal_strlit("Exceptions");
    vstd::utf8::encode_utf8_decode_utf8("Exceptions"@);
    assert("Exceptions"@.len() == 10 && "Exceptions"@[0] == 'E' && "Exceptions"@[1] == 'x');
    reveal_strlit("InnerClasses");
    vstd::utf8::encode_utf8_decode_utf8("InnerClasses"@);
    assert("InnerClasses"@.len() == 12 && "InnerClasses"@[0] == 'I' && "InnerClasses"@[1] == 'n');
    reveal_strlit("LineNumberTable");
    vstd::utf8::encode_utf8_decode_utf8("LineNumberTable"@);
    assert("LineNumberTable"@.len() == 15 && "LineNumberTable"@[0] == 'L' && "LineNumberTable"@[1] == 'i');
    reveal_strlit("LocalVariableTable");
    vstd::utf8::encode_utf8_decode_utf8("LocalVariableTable"@);
    assert("LocalVariableTable"@.len() == 18 && "LocalVariableTable"@[0] == 'L' && "LocalVariableTable"@[1] == 'o');
    reveal_strlit("LocalVariableTypeTable");
    vstd::utf8::encode_utf8_decode_utf8("LocalVariableTypeTable"@);
    assert("LocalVariableTypeTable"@.len() == 22 && "LocalVariableTypeTable"@[0] == 'L' && "LocalVariableTypeTable"@[1] == 'o');
    reveal_strlit("MethodParameters");
    vstd::utf8::encode_utf8_decode_utf8("MethodParameters"@);
    assert("MethodParameters"@.len() == 16 && "MethodParameters"@[0] == 'M' && "MethodParameters"@[1] == 'e');
    reveal_strlit("Module");
    vstd::utf8::encode_utf8_decode_utf8("Module"@);
    assert("Module"@.len() == 6 && "Module"@[0] == 'M' && "Module"@[1] == 'o');
    reveal_strlit("ModuleMainClass");
    vstd::utf8::encode_utf8_decode_utf8("ModuleMainClass"@);
    assert("ModuleMainClass"@.len() == 15 && "ModuleMainClass"@[0] == 'M' && "ModuleMainClass"@[1] == 'o');
    reveal_strlit("ModulePackages");
    vstd::utf8::encode_utf8_decode_utf8("ModulePackages"@);
    assert("ModulePackages"@.len() == 14 && "ModulePackages"@[0] == 'M' && "ModulePackages"@[1] == 'o');
    reveal_strlit("NestMembers");
    vstd::utf8::encode_utf8_decode_utf8("NestMembers"@);
    assert("NestMembers"@.len() == 11 && "NestMembers"@[0] == 'N' && "NestMembers"@[1] == 'e');
    reveal_strlit("NestHost");
    vstd::utf8::encode_utf8_decode_utf8("NestHost"@);
    assert("NestHost"@.len() == 8 && "NestHost"@[0] == 'N' && "NestHost"@[1] == 'e');
    reveal_strlit("PermittedSubclasses");
    vstd::utf8::encode_utf8_decode_utf8("PermittedSubclasses"@);
    assert("PermittedSubclasses"@.len() == 19 && "PermittedSubclasses"@[0] == 'P' && "PermittedSubclasses"@[1] == 'e');
    reveal_strlit("Record");
    vstd::utf8::encode_utf8_decode_utf8("Record"@);
    assert("Record"@.len() == 6 && "Record"@[0] == 'R' && "Record"@[1] == 'e');
    reveal_strlit("RuntimeInvisibleAnnotations");
    vstd::utf8::encode_utf8_decode_utf8("RuntimeInvisibleAnnotations"@);
    assert("RuntimeInvisibleAnnotations"@.len() == 27 && "RuntimeInvisibleAnnotations"@[0] == 'R' && "RuntimeInvisibleAnnotations"@[1] == 'u');
    reveal_strlit("RuntimeInvisibleParameterAnnotations");
    vstd::utf8::encode_utf8_decode_utf8("RuntimeInvisibleParameterAnnotations"@);
    assert("RuntimeInvisibleParameterAnnotations"@.len() == 36 && "RuntimeInvisibleParameterAnnotations"@[0] == 'R' && "RuntimeInvisibleParameterAnnotations"@[1] == 'u');
    reveal_strlit("RuntimeInvisibleTypeAnnotations");
    vstd::utf8::encode_utf8_decode_utf8("RuntimeInvisibleTypeAnnotations"@);
    assert("RuntimeInvisibleTypeAnnotations"@.len() == 31 && "RuntimeInvisibleTypeAnnotations"@[0] == 'R' && "RuntimeInvisibleTypeAnnotations"@[1] == 'u');
    reveal_strlit("RuntimeVisibleAnnotations");
    vstd::utf8::encode_utf8_decode_utf8("RuntimeVisibleAnnotations"@);
    assert("RuntimeVisibleAnnotations"@.len() == 25 && "RuntimeVisibleAnnotations"@[0] == 'R' && "RuntimeVisibleAnnotations"@[1] == 'u');
    reveal_strlit("RuntimeVisibleParameterAnnotations");
    vstd::utf8::encode_utf8_decode_utf8("RuntimeVisibleParameterAnnotations"@);
    assert("RuntimeVisibleParameterAnnotations"@.len() == 34 && "RuntimeVisibleParameterAnnotations"@[0] == 'R' && "RuntimeVisibleParameterAnnotations"@[1] == 'u');
    reveal_strlit("RuntimeVisibleTypeAnnotations");
    vstd::utf8::encode_utf8_decode_utf8("RuntimeVisibleTypeAnnotations"@);
    assert("RuntimeVisibleTypeAnnotations"@.len() == 29 && "RuntimeVisibleTypeAnnotations"@[0] == 'R' && "RuntimeVisibleTypeAnnotations"@[1] == 'u');
    reveal_strlit("Signature");
    vstd::utf8::encode_utf8_decode_utf8("Signature"@);
    assert("Signature"@.len() == 9 && "Signature"@[0] == 'S' && "Signature"@[1] == 'i');
    reveal_strlit("SourceDebugExtension");
    vstd::utf8::encode_utf8_decode_utf8("SourceDebugExtension"@);
    assert("SourceDebugExtension"@.len() == 20 && "SourceDebugExtension"@[0] == 'S' && "SourceDebugExtension"@[1] == 'o');
    reveal_strlit("SourceFile");
    vstd::utf8::encode_utf8_decode_utf8("SourceFile"@);
    assert("SourceFile"@.len() == 10 && "SourceFile"@[0] == 'S' && "SourceFile"@[1] == 'o');
    reveal_strlit("StackMapTable");
    vstd::utf8::encode_utf8_decode_utf8("StackMapTable"@);
    assert("StackMapTable"@.len() == 13 && "StackMapTable"@[0] == 'S' && "StackMapTable"@[1] == 't');
    reveal_strlit("Synthetic");
    vstd::utf8::encode_utf8_decode_utf8("Synthetic"@);
    assert("Synthetic"@.len() == 9 && "Synthetic"@[0] == 'S' && "Synthetic"@[1] == 'y');
}

/// Whether two byte strings are equal.
fn bytes_eq(a: &[u8], b: &[u8]) -> (r: bool)
    ensures
        r == (a@ == b@),
{
    if a.len() != b.len() {
        return false;
    }
    let mut i: usize = 0;
    while i < a.len()
        invariant
            a@.len() == b@.len(),
            i <= a@.len(),
            forall|j: int| 0 <= j < i ==> a@[j] == b@[j],
        decreases a@.len() - i,
    {
        if a[i] != b[i] {
            return false;
        }
        i = i + 1;
    }
    assert(a@ =~= b@);
    true
}

impl<'input> Attribute<'input> {
    /// Reads the content according to the attribute's name, which is looked up in `pool`.
    #[verifier::rlimit(50)]
    pub fn read_content(&self, pool: &cpool::ConstantPool<'input>) -> (r: Result<AttributeContent<'input>, DecodeError>)
        ensures
            match pool.spec_get::<cpool::Utf8<'input>>(self.spec_name().spec_index()) {
                Ok(name) => r == spec_read_content(name.content.spec_bytes(), self.spec_content()),
                Err(e) => r == Err::<AttributeContent<'input>, DecodeError>(e),
            },
    {
        let name = match pool.get(self.name) {
            Ok(item) => item.content,
            Err(e) => return Err(e),
        };
        let name = name.as_bytes();
        let decoder = self.content.with_context(Context::AttributeContent);
        if bytes_eq(name, "AnnotationDefault".as_bytes()) {
            match decoder.read_into::<AnnotationDefault<'input>>() {
                Ok(v) => Ok(AttributeContent::AnnotationDefault(v)),
                Err(e) => Err(e),
            }
        } else if bytes_eq(name, "BootstrapMethods".as_bytes()) {
            match decoder.read_into::<BootstrapMethods<'input>>() {
                Ok(v) => Ok(AttributeContent::BootstrapMethods(v)),
                Err(e) => Err(e),
            }
        } else if bytes_eq(name, "Code".as_bytes()) {
            match decoder.read_into::<Code<'input>>() {
                Ok(v) => Ok(AttributeContent::Code(v)),
                Err(e) => Err(e),
            }
        } else if bytes_eq(name, "ConstantValue".as_bytes()) {
            match decoder.read_into::<ConstantValue<'input>>() {
                Ok(v) => Ok(AttributeContent::ConstantValue(v)),
                Err(e) => Err(e),
            }
        } else if bytes_eq(name, "Deprecated".as_bytes()) {
            Ok(AttributeContent::Deprecated)
        } else if bytes_eq(name, "EnclosingMethod".as_bytes()) {
            match decoder.read_into::<EnclosingMethod<'input>>() {
                Ok(v) => Ok(AttributeContent::EnclosingMethod(v)),
                Err(e) => Err(e),
            }
        } else if bytes_eq(name, "Exceptions".as_bytes()) {
            match decoder.read_into::<Exceptions<'input>>() {
                Ok(v) => Ok(AttributeContent::Exceptions(v)),
                Err(e) => Err(e),
            }
        } else if bytes_eq(name, "InnerClasses".as_bytes()) {
            match decoder.read_into::<InnerClasses<'input>>() {
                Ok(v) => Ok(AttributeContent::InnerClasses(v)),
                Err(e) => Err(e),
            }
        } else if bytes_eq(name, "LineNumberTable".as_bytes()) {
            match decoder.read_into::<LineNumberTable<'input>>() {
                Ok(v) => Ok(AttributeContent::LineNumberTable(v)),
                Err(e) => Err(e),
            }
        } else if bytes_eq(name, "LocalVariableTable".as_bytes()) {
            match decoder.read_into::<LocalVariableTable<'input>>() {
                Ok(v) => Ok(AttributeContent::LocalVariableTable(v)),
                Err(e) => Err(e),
            }
        } else if bytes_eq(name, "LocalVariableTypeTable".as_bytes()) {
            match decoder.read_into::<LocalVariableTable<'input>>() {
                Ok(v) => Ok(AttributeContent::LocalVariableTypeTable(v)),
                Err(e) => Err(e),
            }
        } else if bytes_eq(name, "MethodParameters".as_bytes()) {
            match decoder.read_into::<MethodParameters<'input>>() {
                Ok(v) => Ok(AttributeContent::MethodParameters(v)),
                Err(e) => Err(e),
            }
        } else if bytes_eq(name, "Module".as_bytes()) {
            match decoder.read_into::<Module<'input>>() {
                Ok(v) => Ok(AttributeContent::Module(Box::new(v))),
                Err(e) => Err(e),
            }
        } else if bytes_eq(name, "ModuleMainClass".as_bytes()) {
            match decoder.read_into::<ModuleMainClass<'input>>() {
                Ok(v) => Ok(AttributeContent::ModuleMainClass(v)),
                Err(e) => Err(e),
            }
        } else if bytes_eq(name, "ModulePackages".as_bytes()) {
            match decoder.read_into::<ModulePackages<'input>>() {
                Ok(v) => Ok(AttributeContent::ModulePackages(v)),
                Err(e) => Err(e),
            }
        } else if bytes_eq(name, "NestMembers".as_bytes()) {
            match decoder.read_into::<NestMembers<'input>>() {
                Ok(v) => Ok(AttributeContent::NestMembers(v)),
                Err(e) => Err(e),
            }
        } else if bytes_eq(name, "NestHost".as_bytes()) {
            match decoder.read_into::<NestHost<'input>>() {
                Ok(v) => Ok(AttributeContent::NestHost(v)),
                Err(e) => Err(e),
            }
        } else if bytes_eq(name, "PermittedSubclasses".as_bytes()) {
            match decoder.read_into::<PermittedSubclasses<'input>>() {
                Ok(v) => Ok(AttributeContent::PermittedSubclasses(v)),
                Err(e) => Err(e),
            }
        } else if bytes_eq(name, "Record".as_bytes()) {
            match decoder.read_into::<Record<'input>>() {
                Ok(v) => Ok(AttributeContent::Record(v)),
                Err(e) => Err(e),
            }
        } else if bytes_eq(name, "RuntimeInvisibleAnnotations".as_bytes()) {
            match decoder.read_into::<Annotations<'input>>() {
                Ok(v) => Ok(AttributeContent::RuntimeInvisibleAnnotations(v)),
                Err(e) => Err(e),
            }
        } else if bytes_eq(name, "RuntimeInvisibleParameterAnnotations".as_bytes()) {
            match decoder.read_into::<ParameterAnnotations<'input>>() {
                Ok(v) => Ok(AttributeContent::RuntimeInvisibleParameterAnnotations(v)),
                Err(e) => Err(e),
            }
        } else if bytes_eq(name, "RuntimeInvisibleTypeAnnotations".as_bytes()) {
            match decoder.read_into::<TypeAnnotations<'input>>() {
                Ok(v) => Ok(AttributeContent::RuntimeInvisibleTypeAnnotations(v)),
                Err(e) => Err(e),
            }
        } else if bytes_eq(name, "RuntimeVisibleAnnotations".as_bytes()) {
            match decoder.read_into::<Annotations<'input>>() {
                Ok(v) => Ok(AttributeContent::RuntimeVisibleAnnotations(v)),
                Err(e) => Err(e),
            }
        } else if bytes_eq(name, "RuntimeVisibleParameterAnnotations".as_bytes()) {
            match decoder.read_into::<ParameterAnnotations<'input>>() {
                Ok(v) => Ok(AttributeContent::RuntimeVisibleParameterAnnotations(v)),
                Err(e) => Err(e),
            }
        } else if bytes_eq(name, "RuntimeVisibleTypeAnnotations".as_bytes()) {
            match decoder.read_into::<TypeAnnotations<'input>>() {
                Ok(v) => Ok(AttributeContent::RuntimeVisibleTypeAnnotations(v)),
                Err(e) => Err(e),
            }
        } else if bytes_eq(name, "Signature".as_bytes()) {
            match decoder.read_into::<Signature<'input>>() {
                Ok(v) => Ok(AttributeContent::Signature(v)),
                Err(e) => Err(e),
            }
        } else if bytes_eq(name, "SourceDebugExtension".as_bytes()) {
            let mut d = decoder;
            let length = d.bytes_remaining();
            match d.split_mstr(length) {
                Ok(v) => Ok(AttributeContent::SourceDebugExtension(v)),
                Err(e) => Err(e),
            }
        } else if bytes_eq(name, "SourceFile".as_bytes()) {
            match decoder.read_into::<SourceFile<'input>>() {
                Ok(v) => Ok(AttributeContent::SourceFile(v)),
                Err(e) => Err(e),
            }
        } else if bytes_eq(name, "StackMapTable".as_bytes()) {
            match decoder.read_into::<StackMapTable<'input>>() {
                Ok(v) => Ok(AttributeContent::StackMapTable(v)),
                Err(e) => Err(e),
            }
        } else if bytes_eq(name, "Synthetic".as_bytes()) {
            Ok(AttributeContent::Synthetic)
        } else {
            Err(DecodeError::from_decoder(DecodeErrorKind::UnknownAttributeName, &self.content))
        }
    }
}

/// An iterator over the attributes of some item.
#[derive(Debug, Clone, Copy)]
pub struct Attributes<'input> {
    pub(crate) decoder: Decoder<'input>,
}

impl<'input> Attributes<'input> {
    pub open(crate) spec fn spec_new(decoder: Decoder<'input>) -> Attributes<'input> {
        Attributes { decoder }
    }

    /// The decoder over the attributes, after their count.
    pub open(crate) spec fn spec_decoder(self) -> Decoder<'input> {
        self.decoder
    }

    /// Reads the next attribute; a failed read ends the iteration.
    pub fn next(&mut self) -> (r: Option<Attribute<'input>>)
        ensures
            ({
                let (res, after) = <Attribute<'input> as Decode<'input>>::spec_decode(old(self).spec_decoder());
                &&& final(self).spec_decoder() == after
                &&& match res {
                    Ok(a) => r == Some(a),
                    Err(_) => r is None,
                }
            }),
    {
        match self.decoder.read() {
            Ok(a) => Some(a),
            Err(_) => None,
        }
    }
}

impl<'input> Decode<'input> for Attributes<'input> {
    /// Checks the attributes by skipping them, and keeps the bytes that they take up after their count.
    open spec fn spec_decode(decoder: Decoder<'input>) -> (Result<Attributes<'input>, DecodeError>, Decoder<'input>) {
        let (ra, after_count) = decoder.spec_try_advance(2);
        match ra {
            Err(e) => (Err(e), decoder),
            Ok(_) => {
                let (rs, d) = spec_skip_attributes(decoder);
                match rs {
                    Err(e) => (Err(e), d),
                    Ok(_) => match after_count.spec_try_limit(after_count.remaining() - d.remaining(), Context::Attributes) {
                        Err(e) => (Err(e), d),
                        Ok(attributes) => (Ok(Attributes::spec_new(attributes)), d),
                    },
                }
            },
        }
    }

    fn decode(decoder: &mut Decoder<'input>) -> (r: Result<Attributes<'input>, DecodeError>) {
        let mut after_count = *decoder;
        match after_count.advance(2) {
            Ok(()) => {},
            Err(e) => return Err(e),
        }
        match skip_attributes(decoder) {
            Ok(()) => {},
            Err(e) => return Err(e),
        }
        proof {
            use_type_invariant(&*decoder);
            use_type_invariant(&after_count);
        }
        let length = after_count.bytes_remaining() - decoder.bytes_remaining();
        match after_count.limit(length, Context::Attributes) {
            Ok(attributes) => Ok(Attributes { decoder: attributes }),
            Err(e) => Err(e),
        }
    }
}

/// Skipping one attribute: the name index, then the length and that many bytes.
pub open spec fn spec_skip_attribute<'input>(d: Decoder<'input>) -> (Result<(), DecodeError>, Decoder<'input>) {
    let (ra, d1) = d.spec_try_advance(2);
    match ra {
        Err(e) => (Err(e), d1),
        Ok(_) => {
            let (rl, d2) = <u32 as Decode<'input>>::spec_decode(d1);
            match rl {
                Err(e) => (Err(e), d2),
                Ok(length) => d2.spec_try_advance(length as int),
            }
        },
    }
}

/// Skipping `n` attributes one after the other.
pub open spec fn spec_skip_attribute_entries<'input>(d: Decoder<'input>, n: nat) -> (Result<(), DecodeError>, Decoder<'input>)
    decreases n,
{
    if n == 0 {
        (Ok(()), d)
    } else {
        let (r, d1) = spec_skip_attribute(d);
        match r {
            Err(e) => (Err(e), d1),
            Ok(_) => spec_skip_attribute_entries(d1, (n - 1) as nat),
        }
    }
}

/// Skipping a count-prefixed list of attributes.
pub open spec fn spec_skip_attributes<'input>(d: Decoder<'input>) -> (Result<(), DecodeError>, Decoder<'input>) {
    let (rc, d1) = <u16 as Decode<'input>>::spec_decode(d);
    match rc {
        Err(e) => (Err(e), d1),
        Ok(count) => spec_skip_attribute_entries(d1, count as nat),
    }
}

/// Skips a count-prefixed list of attributes without reading their names or contents.
pub(crate) fn skip_attributes(decoder: &mut Decoder) -> (r: Result<(), DecodeError>)
    ensures
        (r, *final(decoder)) == spec_skip_attributes(*old(decoder)),
        final(decoder).follows(*old(decoder)),
        r is Ok ==> final(decoder).pos() >= old(decoder).pos() + 2,
{
    let count: u16 = match decoder.read() {
        Ok(count) => count,
        Err(e) => return Err(e),
    };
    let ghost start = *decoder;
    let mut i: u16 = 0;
    while i < count
        invariant
            i <= count,
            spec_skip_attribute_entries(*decoder, (count - i) as nat) == spec_skip_attribute_entries(start, count as nat),
            decoder.follows(start),
            start.follows(*old(decoder)),
            start.pos() == old(decoder).pos() + 2,
            spec_skip_attributes(*old(decoder)) == spec_skip_attribute_entries(start, count as nat),
        decreases count - i,
    {
        match decoder.advance(2) {
            Ok(()) => {},
            Err(e) => return Err(e),
        }
        let length: u32 = match decoder.read() {
            Ok(length) => length,
            Err(e) => return Err(e),
        };
        match decoder.advance(length as usize) {
            Ok(()) => {},
            Err(e) => return Err(e),
        }
        i = i + 1;
    }
    Ok(())
}

} // verus!
