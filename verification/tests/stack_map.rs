use noak::error::{Context, DecodeErrorKind};
use noak::reader::attributes::code::{StackMapFrame, StackMapTable, VerificationType};
use noak::reader::decoding::{DecodeInto, Decoder};

#[test]
fn frames_and_their_offsets() {
    let bytes = [
        0, 3, // three frames
        5, // same, at 5
        66, 1, // same locals, one stack item: integer
        255, 0, 4, 0, 1, 7, 0, 9, 0, 0, // full frame: one local (object #9), empty stack
    ];
    let table = StackMapTable::decode_into(Decoder::new(&bytes, Context::AttributeContent)).unwrap();
    let mut frames = table.iter();
    let (index, frame) = frames.next().unwrap().unwrap();
    assert_eq!(index.as_u32(), 5);
    assert!(matches!(frame, StackMapFrame::Same));
    let (index, frame) = frames.next().unwrap().unwrap();
    // 2 plus the one byte read so far
    assert_eq!(index.as_u32(), 3);
    assert!(matches!(frame, StackMapFrame::Same1 { stack: VerificationType::Integer }));
    let (index, frame) = frames.next().unwrap().unwrap();
    // 4 plus the three bytes read so far
    assert_eq!(index.as_u32(), 7);
    match frame {
        StackMapFrame::Full { mut locals, mut stack } => {
            match locals.next().unwrap().unwrap() {
                VerificationType::Object(class) => assert_eq!(class.as_u16(), 9),
                other => panic!("unexpected {other:?}"),
            }
            assert!(locals.next().is_none());
            assert!(stack.next().is_none());
        },
        other => panic!("unexpected {other:?}"),
    }
    assert!(frames.next().is_none());
}

#[test]
fn chop_and_append_frames() {
    let bytes = [0, 2, 249, 0, 1, 253, 0, 2, 1, 8, 0, 3];
    let table = StackMapTable::decode_into(Decoder::new(&bytes, Context::AttributeContent)).unwrap();
    let mut frames = table.iter();
    let (index, frame) = frames.next().unwrap().unwrap();
    assert_eq!(index.as_u32(), 1);
    assert!(matches!(frame, StackMapFrame::Chop { to_chop: 2 }));
    let (index, frame) = frames.next().unwrap().unwrap();
    assert_eq!(index.as_u32(), 5);
    match frame {
        StackMapFrame::Append { mut locals } => {
            assert!(matches!(locals.next().unwrap().unwrap(), VerificationType::Integer));
            match locals.next().unwrap().unwrap() {
                // 3 plus the bytes read before it: three for the first frame, one for the integer
                VerificationType::UninitializedVariable(index) => assert_eq!(index.as_u32(), 7),
                other => panic!("unexpected {other:?}"),
            }
            assert!(locals.next().is_none());
        },
        other => panic!("unexpected {other:?}"),
    }
}

#[test]
fn reserved_frame_types_are_refused() {
    let bytes = [0, 1, 128];
    let table = StackMapTable::decode_into(Decoder::new(&bytes, Context::AttributeContent)).unwrap();
    let err = table.iter().next().unwrap().unwrap_err();
    assert_eq!(err.kind(), DecodeErrorKind::TagReserved);
    assert_eq!(err.position(), Some(3));

    let bytes = [0, 1, 252, 0, 0, 9];
    let table = StackMapTable::decode_into(Decoder::new(&bytes, Context::AttributeContent)).unwrap();
    let err = table.iter().next().unwrap().unwrap_err();
    assert_eq!(err.kind(), DecodeErrorKind::InvalidTag);
}
