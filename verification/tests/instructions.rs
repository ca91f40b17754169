use noak::error::{Context, DecodeErrorKind};
use noak::reader::attributes::code::{RawInstruction, RawInstructions};
use noak::reader::attributes::Code;
use noak::reader::decoding::{DecodeInto, Decoder};

fn code_attribute(code: &[u8]) -> Vec<u8> {
    let mut bytes = vec![0, 2, 0, 1];
    bytes.extend_from_slice(&(code.len() as u32).to_be_bytes());
    bytes.extend_from_slice(code);
    // no exception handlers, no attributes
    bytes.extend_from_slice(&[0, 0, 0, 0]);
    bytes
}

fn instructions(bytes: &[u8]) -> RawInstructions<'_> {
    let code = Code::decode_into(Decoder::new(bytes, Context::AttributeContent)).unwrap();
    code.raw_instructions()
}

#[test]
fn instructions_carry_their_offsets() {
    let bytes = code_attribute(&[0x2a, 0xb7, 0x00, 0x01, 0xb1]);
    let code = Code::decode_into(Decoder::new(&bytes, Context::AttributeContent)).unwrap();
    assert_eq!(code.max_stack(), 2);
    assert_eq!(code.max_locals(), 1);
    let mut insns = code.raw_instructions();
    let (index, insn) = insns.next().unwrap().unwrap();
    assert_eq!(index.as_u32(), 0);
    assert!(matches!(insn, RawInstruction::ALoad0));
    let (index, insn) = insns.next().unwrap().unwrap();
    assert_eq!(index.as_u32(), 1);
    match insn {
        RawInstruction::InvokeSpecial { index } => assert_eq!(index.as_u16(), 1),
        other => panic!("unexpected {other:?}"),
    }
    let (index, insn) = insns.next().unwrap().unwrap();
    assert_eq!(index.as_u32(), 4);
    assert!(matches!(insn, RawInstruction::Return));
    assert!(insns.next().is_none());
}

#[test]
fn table_switch_is_aligned_and_counts_keys() {
    let bytes = code_attribute(&[
        0xaa, 0, 0, 0, // padding
        0, 0, 0, 20, // default
        0, 0, 0, 1, // low
        0, 0, 0, 2, // high
        0, 0, 0, 30, 0, 0, 0, 40, 0xb1,
    ]);
    let mut insns = instructions(&bytes);
    let (index, insn) = insns.next().unwrap().unwrap();
    assert_eq!(index.as_u32(), 0);
    let switch = match insn {
        RawInstruction::TableSwitch(switch) => switch,
        other => panic!("unexpected {other:?}"),
    };
    assert_eq!(switch.default_offset(), 20);
    let mut pairs = switch.pairs();
    let first = pairs.next().unwrap();
    assert_eq!((first.key(), first.offset()), (1, 30));
    let second = pairs.next().unwrap();
    assert_eq!((second.key(), second.offset()), (2, 40));
    assert!(pairs.next().is_none());
    let (index, insn) = insns.next().unwrap().unwrap();
    assert_eq!(index.as_u32(), 24);
    assert!(matches!(insn, RawInstruction::Return));
}

#[test]
fn lookup_switch_is_aligned() {
    let bytes = code_attribute(&[
        0x00, 0xab, 0, 0, // nop, then padding
        0, 0, 0, 9, // default
        0, 0, 0, 1, // one pair
        0, 0, 0, 5, 0, 0, 0, 7, 0xb1,
    ]);
    let mut insns = instructions(&bytes);
    assert!(matches!(insns.next().unwrap().unwrap().1, RawInstruction::Nop));
    let (index, insn) = insns.next().unwrap().unwrap();
    assert_eq!(index.as_u32(), 1);
    let switch = match insn {
        RawInstruction::LookUpSwitch(switch) => switch,
        other => panic!("unexpected {other:?}"),
    };
    assert_eq!(switch.default_offset(), 9);
    let mut pairs = switch.pairs();
    let pair = pairs.next().unwrap();
    assert_eq!((pair.key(), pair.offset()), (5, 7));
    assert!(pairs.next().is_none());
    assert_eq!(insns.next().unwrap().unwrap().0.as_u32(), 20);
}

#[test]
fn negative_table_is_refused() {
    let bytes = code_attribute(&[0xaa, 0, 0, 0, 0, 0, 0, 0, 0, 0, 0, 5, 0, 0, 0, 1]);
    let err = instructions(&bytes).next().unwrap().unwrap_err();
    assert_eq!(err.kind(), DecodeErrorKind::InvalidInstruction);
    assert_eq!(err.position(), Some(8 + 16));
}

#[test]
fn wide_instructions_have_wide_operands() {
    let bytes = code_attribute(&[0xc4, 0x84, 0x01, 0x00, 0xff, 0xfe, 0xc4, 0x15, 0x01, 0x02]);
    let mut insns = instructions(&bytes);
    match insns.next().unwrap().unwrap().1 {
        RawInstruction::IIncW { index, value } => assert_eq!((index, value), (256, -2)),
        other => panic!("unexpected {other:?}"),
    }
    let (index, insn) = insns.next().unwrap().unwrap();
    assert_eq!(index.as_u32(), 6);
    match insn {
        RawInstruction::ILoadW { index } => assert_eq!(index, 0x0102),
        other => panic!("unexpected {other:?}"),
    }
}

#[test]
fn operands_are_read() {
    let bytes = code_attribute(&[0x10, 0xfe, 0x11, 0x01, 0x00, 0xc8, 0xff, 0xff, 0xff, 0xf0, 0xbc, 0x0a, 0x84, 0x03, 0xff]);
    let mut insns = instructions(&bytes);
    assert!(matches!(insns.next().unwrap().unwrap().1, RawInstruction::BIPush { value: -2 }));
    assert!(matches!(insns.next().unwrap().unwrap().1, RawInstruction::SIPush { value: 256 }));
    assert!(matches!(insns.next().unwrap().unwrap().1, RawInstruction::GotoW { offset: -16 }));
    match insns.next().unwrap().unwrap().1 {
        RawInstruction::NewArray { atype } => assert_eq!(atype, noak::reader::attributes::code::ArrayType::Int),
        other => panic!("unexpected {other:?}"),
    }
    assert!(matches!(insns.next().unwrap().unwrap().1, RawInstruction::IInc { index: 3, value: -1 }));
    assert!(insns.next().is_none());
}

#[test]
fn invalid_instructions_are_refused() {
    let bytes = code_attribute(&[0xff]);
    let err = instructions(&bytes).next().unwrap().unwrap_err();
    assert_eq!(err.kind(), DecodeErrorKind::InvalidInstruction);
    assert_eq!(err.position(), Some(9));
    assert_eq!(err.context(), Context::Code);

    let bytes = code_attribute(&[0xc4, 0x00]);
    let err = instructions(&bytes).next().unwrap().unwrap_err();
    assert_eq!(err.kind(), DecodeErrorKind::InvalidInstruction);
    assert_eq!(err.position(), Some(10));

    let bytes = code_attribute(&[0xba, 0x00, 0x01, 0x00, 0x01]);
    let err = instructions(&bytes).next().unwrap().unwrap_err();
    assert_eq!(err.kind(), DecodeErrorKind::InvalidInstruction);
    assert_eq!(err.position(), Some(13));

    let bytes = code_attribute(&[0x12, 0x00]);
    let err = instructions(&bytes).next().unwrap().unwrap_err();
    assert_eq!(err.kind(), DecodeErrorKind::InvalidIndex);
    assert_eq!(err.position(), None);

    let bytes = code_attribute(&[0xbc, 0x03]);
    let err = instructions(&bytes).next().unwrap().unwrap_err();
    assert_eq!(err.kind(), DecodeErrorKind::InvalidTag);
}

#[test]
fn instructions_from_an_index() {
    let bytes = code_attribute(&[0x2a, 0x2b, 0xb1]);
    let code = Code::decode_into(Decoder::new(&bytes, Context::AttributeContent)).unwrap();
    let mut all = code.raw_instructions();
    all.next();
    let (second, _) = all.next().unwrap().unwrap();
    let mut insns = code.raw_instructions_from(second).unwrap();
    let (index, insn) = insns.next().unwrap().unwrap();
    assert_eq!(index.as_u32(), 1);
    assert!(matches!(insn, RawInstruction::ALoad1));
    assert!(matches!(insns.next().unwrap().unwrap().1, RawInstruction::Return));
}
