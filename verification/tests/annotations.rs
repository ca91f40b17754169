use noak::error::{Context, DecodeErrorKind};
use noak::reader::attributes::annotations::{Annotation, ElementValue, TargetInfo, TargetType, TypeAnnotation};
use noak::reader::decoding::Decoder;

#[test]
fn element_arrays_are_read() {
    let bytes = [b'[', 0, 2, b'I', 0, 3, b's', 0, 4, 0xAA];
    let mut decoder = Decoder::new(&bytes, Context::AttributeContent);
    let value: ElementValue<'_> = decoder.read().unwrap();
    assert_eq!(decoder.file_position(), 9);
    let array = match value {
        ElementValue::Array(array) => array,
        other => panic!("unexpected {other:?}"),
    };
    let mut values = array.iter();
    assert!(matches!(values.next().unwrap().unwrap(), ElementValue::Int(i) if i.as_u16() == 3));
    assert!(matches!(values.next().unwrap().unwrap(), ElementValue::String(s) if s.as_u16() == 4));
    assert!(values.next().is_none());
}

#[test]
fn nested_annotations_are_read() {
    let bytes = [0, 7, 0, 1, 0, 8, b'[', 0, 1, b'e', 0, 1, 0, 2];
    let mut decoder = Decoder::new(&bytes, Context::AttributeContent);
    let annotation: Annotation<'_> = decoder.read().unwrap();
    assert_eq!(decoder.bytes_remaining(), 0);
    assert_eq!(annotation.type_().as_u16(), 7);
    let mut pairs = annotation.pairs();
    let pair = pairs.next().unwrap().unwrap();
    assert_eq!(pair.name().as_u16(), 8);
    let array = match pair.value() {
        ElementValue::Array(array) => array,
        other => panic!("unexpected {other:?}"),
    };
    match array.iter().next().unwrap().unwrap() {
        ElementValue::Enum { enum_type_name, const_name } => {
            assert_eq!((enum_type_name.as_u16(), const_name.as_u16()), (1, 2));
        },
        other => panic!("unexpected {other:?}"),
    }
    assert!(pairs.next().is_none());
}

#[test]
fn element_values_with_bad_tags_are_refused() {
    let err = Decoder::new(&[b'X', 0, 1], Context::AttributeContent).read::<ElementValue<'_>>().unwrap_err();
    assert_eq!(err.kind(), DecodeErrorKind::InvalidTag);
    assert_eq!(err.position(), Some(1));

    // the second value of the array is missing
    let err = Decoder::new(&[b'[', 0, 2, b'Z', 0, 1], Context::AttributeContent).read::<ElementValue<'_>>().unwrap_err();
    assert_eq!(err.kind(), DecodeErrorKind::UnexpectedEoi);
    assert_eq!(err.position(), Some(6));
}

#[test]
fn type_annotations_are_read() {
    let bytes = [0x13, 0, 0, 5, 0, 0];
    let annotation: TypeAnnotation<'_> = Decoder::new(&bytes, Context::AttributeContent).read().unwrap();
    assert_eq!(annotation.target_type(), TargetType::Field);
    assert!(matches!(annotation.target_info(), TargetInfo::Empty));
    assert_eq!(annotation.type_().as_u16(), 5);
    assert!(annotation.target_path().iter().next().is_none());

    let bytes = [0x40, 0, 1, 0, 2, 0, 10, 0, 3, 1, 3, 0, 0, 6, 0, 0];
    let annotation: TypeAnnotation<'_> = Decoder::new(&bytes, Context::AttributeContent).read().unwrap();
    assert_eq!(annotation.target_type(), TargetType::LocalVariable);
    match annotation.target_info() {
        TargetInfo::LocalVariable(table) => {
            let variable = table.iter().next().unwrap().unwrap();
            let range = variable.range();
            assert_eq!((range.start.as_u32(), range.end.as_u32()), (2, 12));
            assert_eq!(variable.index(), 3);
        },
        other => panic!("unexpected {other:?}"),
    }
    let segment = annotation.target_path().iter().next().unwrap().unwrap();
    assert_eq!(segment.kind(), noak::reader::attributes::annotations::TypePathSegmentKind::TypeArgument);
    assert_eq!(segment.type_argument_index(), 0);
    assert_eq!(annotation.type_().as_u16(), 6);

    let err = Decoder::new(&[0x30], Context::AttributeContent).read::<TypeAnnotation<'_>>().unwrap_err();
    assert_eq!(err.kind(), DecodeErrorKind::InvalidTag);
}

#[test]
fn supertype_targets() {
    let bytes = [0x10, 0xFF, 0xFF, 0, 0, 1, 0, 0];
    let annotation: TypeAnnotation<'_> = Decoder::new(&bytes, Context::AttributeContent).read().unwrap();
    assert!(matches!(
        annotation.target_info(),
        TargetInfo::SuperType { supertype_index: noak::reader::attributes::annotations::SuperTypeIndex::Class }
    ));
}
