use noak::error::{Context, DecodeErrorKind, EncodeError, EncodeErrorKind};
use noak::reader::cpool::{Index, Item};
use noak::reader::decoding::Decoder;

#[test]
fn decode_error_text() {
    let err = Decoder::new(&[1, 2], Context::ConstantPool).read::<u32>().unwrap_err();
    assert_eq!(err.to_string(), "unexpected end of input at 0 in constant pool");
    let mut decoder = Decoder::new(&[0; 20], Context::Code);
    decoder.advance(17).unwrap();
    let err = decoder.read::<u32>().unwrap_err();
    assert_eq!(err.to_string(), "unexpected end of input at 17 in code");
    let err = Index::<Item<'_>>::new(0).unwrap_err();
    assert_eq!(err.kind(), DecodeErrorKind::InvalidIndex);
    assert_eq!(err.to_string(), "invalid index into a table or the constant pool");
}

#[test]
fn decode_error_kind_messages() {
    assert_eq!(DecodeErrorKind::InvalidPrefix.message(), "invalid file prefix");
    assert_eq!(DecodeErrorKind::TagReserved.message(), "tag reserved");
    assert_eq!(DecodeErrorKind::AttributeNotFound.message(), "attribute was not found");
}

#[test]
fn context_names() {
    assert_eq!(Context::NoContext.name(), "none");
    assert_eq!(Context::ClassInfo.name(), "class information");
    assert_eq!(Context::AttributeContent.name(), "attribute content");
}

#[test]
fn encode_error_text() {
    let err = EncodeError::from_err("boom".to_string(), Context::Code);
    assert!(matches!(err.kind(), EncodeErrorKind::Other(m) if m == "boom"));
    assert_eq!(err.context(), Context::Code);
    assert_eq!(err.to_string(), "other: boom in code");
    assert_eq!(EncodeErrorKind::TooManyItems.message(), "too many items");
    assert_eq!(EncodeErrorKind::IncorrectBounds.message(), "incorrect bounds (low > high)");
}
