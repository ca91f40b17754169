use noak::error::{Context, DecodeErrorKind};
use noak::reader::cpool::{ConstantPool, Integer, Item, Utf8};
use noak::reader::decoding::Decoder;
use noak::reader::{Attribute, AttributeContent, Attributes};
use noak::MStr;

fn pool<'a>(names: &[&'a [u8]]) -> ConstantPool<'a> {
    let mut entries = Vec::new();
    for name in names {
        entries.push(Some(Item::Utf8(Utf8 { content: MStr::from_mutf8(name).unwrap() })));
    }
    entries.push(Some(Item::Integer(Integer { value: 1 })));
    ConstantPool::from_entries(entries)
}

#[test]
fn attribute_content_by_name() {
    let pool = pool(&[b"SourceFile", b"Deprecated", b"Unknown", b"SourceDebugExtension"]);
    let bytes = [0, 1, 0, 0, 0, 2, 0, 5];
    let mut decoder = Decoder::new(&bytes, Context::Attributes);
    let attribute: Attribute<'_> = decoder.read().unwrap();
    assert_eq!(attribute.name().as_u16(), 1);
    assert_eq!(attribute.content(), &[0, 5]);
    match attribute.read_content(&pool).unwrap() {
        AttributeContent::SourceFile(file) => assert_eq!(file.source_file().as_u16(), 5),
        other => panic!("unexpected {other:?}"),
    }

    let bytes = [0, 2, 0, 0, 0, 0];
    let attribute: Attribute<'_> = Decoder::new(&bytes, Context::Attributes).read().unwrap();
    assert!(matches!(attribute.read_content(&pool).unwrap(), AttributeContent::Deprecated));

    let bytes = [0, 4, 0, 0, 0, 3, b'a', b'b', b'c'];
    let attribute: Attribute<'_> = Decoder::new(&bytes, Context::Attributes).read().unwrap();
    match attribute.read_content(&pool).unwrap() {
        AttributeContent::SourceDebugExtension(text) => assert!(text.eq_str("abc")),
        other => panic!("unexpected {other:?}"),
    }
}

#[test]
fn unknown_attribute_names_are_refused() {
    let pool = pool(&[b"SourceFile", b"Deprecated", b"Unknown"]);
    let bytes = [0, 3, 0, 0, 0, 1, 0xFF];
    let attribute: Attribute<'_> = Decoder::new(&bytes, Context::Attributes).read().unwrap();
    let err = attribute.read_content(&pool).unwrap_err();
    assert_eq!(err.kind(), DecodeErrorKind::UnknownAttributeName);
    assert_eq!(err.position(), Some(6));
    assert_eq!(err.context(), Context::Attributes);

    // the name is not a string
    let bytes = [0, 4, 0, 0, 0, 0];
    let attribute: Attribute<'_> = Decoder::new(&bytes, Context::Attributes).read().unwrap();
    let err = attribute.read_content(&pool).unwrap_err();
    assert_eq!(err.kind(), DecodeErrorKind::TagMismatch);
    assert_eq!(err.context(), Context::ConstantPool);
}

#[test]
fn attribute_longer_than_input_is_refused() {
    let bytes = [0, 1, 0, 0, 0, 9, 1, 2];
    let err = Decoder::new(&bytes, Context::Attributes).read::<Attribute<'_>>().unwrap_err();
    assert_eq!(err.kind(), DecodeErrorKind::UnexpectedEoi);
    assert_eq!(err.position(), Some(6));
}

#[test]
fn attributes_are_skipped_and_iterated() {
    let bytes = [0, 2, 0, 1, 0, 0, 0, 1, 7, 0, 2, 0, 0, 0, 0, 0xEE];
    let mut decoder = Decoder::new(&bytes, Context::Start);
    let mut attributes: Attributes<'_> = decoder.read().unwrap();
    assert_eq!(decoder.file_position(), 15);
    let first = attributes.next().unwrap();
    assert_eq!(first.name().as_u16(), 1);
    assert_eq!(first.content(), &[7]);
    let second = attributes.next().unwrap();
    assert_eq!(second.name().as_u16(), 2);
    assert!(attributes.next().is_none());

    let mut short = Decoder::new(&[0, 1, 0, 1, 0, 0, 0, 5], Context::Start);
    assert!(short.read::<Attributes<'_>>().is_err());
}
