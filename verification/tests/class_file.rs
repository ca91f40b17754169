use noak::error::{Context, DecodeErrorKind};
use noak::reader::cpool;
use noak::reader::Class;
use noak::Version;

fn class_bytes() -> Vec<u8> {
    vec![
        0xCA, 0xFE, 0xBA, 0xBE, // magic
        0x00, 0x00, 0x00, 0x34, // version 52.0
        0x00, 0x03, // two items
        0x07, 0x00, 0x02, // #1: class, name #2
        0x01, 0x00, 0x03, b'F', b'o', b'o', // #2: "Foo"
        0x00, 0x21, // public super
        0x00, 0x01, // this class
        0x00, 0x00, // no superclass
        0x00, 0x00, // interfaces
        0x00, 0x00, // fields
        0x00, 0x00, // methods
        0x00, 0x00, // attributes
        0xAB, // not part of the class
    ]
}

#[test]
fn minimal_class_is_read() {
    let bytes = class_bytes();
    let class = Class::new(&bytes).unwrap();
    assert_eq!(class.version(), Version { major: 52, minor: 0 });
    assert_eq!(class.access_flags().bits(), 0x21);
    assert!(class.access_flags().contains(noak::AccessFlags::PUBLIC().union(noak::AccessFlags::SUPER())));
    assert_eq!(class.super_class(), None);
    assert_eq!(class.buffer_size(), bytes.len() - 1);
    let this_class = class.pool().retrieve(class.this_class()).unwrap();
    assert!(this_class.name.eq_str("Foo"));
    assert!(class.interfaces().iter().next().is_none());
    assert!(class.fields().iter().next().is_none());
    assert!(class.methods().iter().next().is_none());
    assert!(class.attributes().iter().next().is_none());
    let indices = class.pool().iter_indices();
    assert_eq!(indices.len(), 2);
    assert_eq!(indices[1].0.as_u16(), 2);
}

#[test]
fn bad_magic_is_refused() {
    let mut bytes = class_bytes();
    bytes[0] = 0xCB;
    let err = Class::new(&bytes).unwrap_err();
    assert_eq!(err.kind(), DecodeErrorKind::InvalidPrefix);
    assert_eq!(err.position(), Some(4));
    assert_eq!(err.context(), Context::Start);
}

#[test]
fn truncated_class_is_refused() {
    let bytes = class_bytes();
    let err = Class::new(&bytes[..15]).unwrap_err();
    assert_eq!(err.kind(), DecodeErrorKind::UnexpectedEoi);
    assert_eq!(err.context(), Context::ConstantPool);

    let err = Class::new(&bytes[..24]).unwrap_err();
    assert_eq!(err.kind(), DecodeErrorKind::UnexpectedEoi);
    assert_eq!(err.context(), Context::ClassInfo);
}

#[test]
fn retrieve_resolves_references() {
    let text = b"main".to_vec();
    let descriptor = b"()V".to_vec();
    let pool = cpool::ConstantPool::from_entries(vec![
        Some(cpool::Item::NameAndType(cpool::NameAndType {
            name: cpool::Index::new(2).unwrap(),
            descriptor: cpool::Index::new(3).unwrap(),
        })),
        Some(cpool::Item::Utf8(cpool::Utf8 { content: noak::MStr::from_mutf8(&text).unwrap() })),
        Some(cpool::Item::Utf8(cpool::Utf8 { content: noak::MStr::from_mutf8(&descriptor).unwrap() })),
        Some(cpool::Item::Integer(cpool::Integer { value: -7 })),
    ]);
    let index: cpool::Index<cpool::NameAndType> = cpool::Index::new(1).unwrap();
    let value = pool.retrieve(index).unwrap();
    assert!(value.name.eq_str("main"));
    assert!(value.descriptor.eq_str("()V"));
    let integer: cpool::Index<cpool::Integer> = cpool::Index::new(4).unwrap();
    assert_eq!(pool.retrieve(integer).unwrap().value, -7);
    let wrong: cpool::Index<cpool::Integer> = cpool::Index::new(2).unwrap();
    assert_eq!(pool.retrieve(wrong).unwrap_err().kind(), DecodeErrorKind::TagMismatch);
}

#[test]
fn wide_items_take_two_indices() {
    let bytes = [
        0x00, 0x04, // three entries
        0x06, 0, 0, 0, 0, 0, 0, 0, 1, // double
        0x03, 0, 0, 0, 9, // integer
    ];
    let mut decoder = noak::reader::decoding::Decoder::new(&bytes, Context::ConstantPool);
    let pool = cpool::ConstantPool::decode(&mut decoder).unwrap();
    let index: cpool::Index<cpool::Item<'_>> = cpool::Index::new(2).unwrap();
    assert_eq!(pool.get(index).unwrap_err().kind(), DecodeErrorKind::InvalidIndex);
    let index: cpool::Index<cpool::Integer> = cpool::Index::new(3).unwrap();
    assert_eq!(pool.get(index).unwrap().value, 9);
    let index: cpool::Index<cpool::Double> = cpool::Index::new(1).unwrap();
    assert_eq!(pool.get(index).unwrap().bits, 1);
    let indices = pool.iter_indices();
    assert_eq!(indices.iter().map(|(index, _)| index.as_u16()).collect::<Vec<_>>(), vec![1, 3]);
}

fn utf8(bytes: &mut Vec<u8>, text: &str) {
    bytes.push(0x01);
    bytes.extend_from_slice(&(text.len() as u16).to_be_bytes());
    bytes.extend_from_slice(text.as_bytes());
}

#[test]
fn fields_methods_and_attributes_are_read() {
    let mut bytes = vec![0xCA, 0xFE, 0xBA, 0xBE, 0x00, 0x00, 0x00, 0x34, 0x00, 0x0A, 0x07, 0x00, 0x02];
    for text in ["Foo", "x", "I", "m", "()V", "Code", "SourceFile", "Foo.java"] {
        utf8(&mut bytes, text);
    }
    bytes.extend_from_slice(&[0x00, 0x21, 0x00, 0x01, 0x00, 0x00, 0x00, 0x00]);
    // one field: private int x
    bytes.extend_from_slice(&[0x00, 0x01, 0x00, 0x02, 0x00, 0x03, 0x00, 0x04, 0x00, 0x00]);
    // one method: public void m() with code that returns
    bytes.extend_from_slice(&[0x00, 0x01, 0x00, 0x01, 0x00, 0x05, 0x00, 0x06, 0x00, 0x01]);
    bytes.extend_from_slice(&[0x00, 0x07, 0x00, 0x00, 0x00, 0x0D]);
    bytes.extend_from_slice(&[0x00, 0x00, 0x00, 0x01, 0x00, 0x00, 0x00, 0x01, 0xB1, 0x00, 0x00, 0x00, 0x00]);
    // one class attribute: the source file
    bytes.extend_from_slice(&[0x00, 0x01, 0x00, 0x08, 0x00, 0x00, 0x00, 0x02, 0x00, 0x09]);

    let class = Class::new(&bytes).unwrap();
    assert_eq!(class.buffer_size(), bytes.len());
    let pool = class.pool();

    let field = class.fields().iter().next().unwrap().unwrap();
    assert_eq!(field.access_flags().bits(), 0x02);
    assert!(pool.retrieve(field.name()).unwrap().eq_str("x"));
    let descriptor = pool.retrieve(field.descriptor()).unwrap();
    let parsed = noak::descriptor::TypeDescriptor::parse(descriptor).unwrap();
    assert_eq!(parsed.dimensions, 0);
    assert_eq!(parsed.base, noak::descriptor::BaseType::Integer);
    assert!(field.attribute_indices().next().is_none());

    let method = class.methods().iter().next().unwrap().unwrap();
    assert!(pool.retrieve(method.name()).unwrap().eq_str("m"));
    let descriptor = noak::descriptor::MethodDescriptor::parse(pool.retrieve(method.descriptor()).unwrap()).unwrap();
    assert!(descriptor.parameters().is_empty());
    assert!(descriptor.return_type().is_none());
    let mut attributes = method.attributes();
    let attribute = attributes.next().unwrap().unwrap();
    assert!(attributes.next().is_none());
    match attribute.read_content(pool).unwrap() {
        noak::reader::AttributeContent::Code(code) => {
            assert_eq!(code.max_locals(), 1);
            let (index, insn) = code.raw_instructions().next().unwrap().unwrap();
            assert_eq!(index.as_u32(), 0);
            assert!(matches!(insn, noak::reader::attributes::code::RawInstruction::Return));
            assert!(code.exception_handlers().next().is_none());
        },
        other => panic!("unexpected {other:?}"),
    }

    let attribute = class.attributes().iter().next().unwrap().unwrap();
    match attribute.read_content(pool).unwrap() {
        noak::reader::AttributeContent::SourceFile(file) => {
            assert!(pool.retrieve(file.source_file()).unwrap().eq_str("Foo.java"));
        },
        other => panic!("unexpected {other:?}"),
    }
}
