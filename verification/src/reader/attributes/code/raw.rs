//! The instructions of a method's code, as they are stored.

use crate::error::{spec_error, Context, DecodeError, DecodeErrorKind};
use crate::reader::attributes::code;
use crate::reader::cpool;
use crate::reader::decoding::{lemma_read_byte, spec_map, Decode, Decoder};
use vstd::prelude::*;

verus! {

/// An instruction as it is stored in the code table, with its operands.
#[derive(Debug, Clone, Copy)]
pub enum RawInstruction<'a> {
    AALoad,
    AAStore,
    AConstNull,
    ALoad {
        index: u8,
    },
    ALoadW {
        index: u16,
    },
    ALoad0,
    ALoad1,
    ALoad2,
    ALoad3,
    ANewArray {
        index: cpool::Index<cpool::Item<'a>>,
    },
    AReturn,
    ArrayLength,
    AStore {
        index: u8,
    },
    AStoreW {
        index: u16,
    },
    AStore0,
    AStore1,
    AStore2,
    AStore3,
    AThrow,
    BALoad,
    BAStore,
    BIPush {
        value: i8,
    },
    CALoad,
    CAStore,
    CheckCast {
        index: cpool::Index<cpool::Class>,
    },
    D2F,
    D2I,
    D2L,
    DAdd,
    DALoad,
    DAStore,
    DCmpG,
    DCmpL,
    DConst0,
    DConst1,
    DDiv,
    DLoad {
        index: u8,
    },
    DLoadW {
        index: u16,
    },
    DLoad0,
    DLoad1,
    DLoad2,
    DLoad3,
    DMul,
    DNeg,
    DRem,
    DReturn,
    DStore {
        index: u8,
    },
    DStoreW {
        index: u16,
    },
    DStore0,
    DStore1,
    DStore2,
    DStore3,
    DSub,
    Dup,
    DupX1,
    DupX2,
    Dup2,
    Dup2X1,
    Dup2X2,
    F2D,
    F2I,
    F2L,
    FAdd,
    FALoad,
    FAStore,
    FCmpG,
    FCmpL,
    FConst0,
    FConst1,
    FConst2,
    FDiv,
    FLoad {
        index: u8,
    },
    FLoadW {
        index: u16,
    },
    FLoad0,
    FLoad1,
    FLoad2,
    FLoad3,
    FMul,
    FNeg,
    FRem,
    FReturn,
    FStore {
        index: u8,
    },
    FStoreW {
        index: u16,
    },
    FStore0,
    FStore1,
    FStore2,
    FStore3,
    FSub,
    GetField {
        index: cpool::Index<cpool::FieldRef>,
    },
    GetStatic {
        index: cpool::Index<cpool::FieldRef>,
    },
    Goto {
        offset: i16,
    },
    GotoW {
        offset: i32,
    },
    I2B,
    I2C,
    I2D,
    I2F,
    I2L,
    I2S,
    IAdd,
    IALoad,
    IAnd,
    IAStore,
    IConstM1,
    IConst0,
    IConst1,
    IConst2,
    IConst3,
    IConst4,
    IConst5,
    IDiv,
    IfACmpEq {
        offset: i16,
    },
    IfACmpNe {
        offset: i16,
    },
    IfICmpEq {
        offset: i16,
    },
    IfICmpNe {
        offset: i16,
    },
    IfICmpLt {
        offset: i16,
    },
    IfICmpGe {
        offset: i16,
    },
    IFICmpGt {
        offset: i16,
    },
    IfICmpLe {
        offset: i16,
    },
    IfEq {
        offset: i16,
    },
    IfNe {
        offset: i16,
    },
    IfLt {
        offset: i16,
    },
    IfGe {
        offset: i16,
    },
    IfGt {
        offset: i16,
    },
    IfLe {
        offset: i16,
    },
    IfNonNull {
        offset: i16,
    },
    IfNull {
        offset: i16,
    },
    IInc {
        index: u8,
        value: i8,
    },
    IIncW {
        index: u16,
        value: i16,
    },
    ILoad {
        index: u8,
    },
    ILoadW {
        index: u16,
    },
    ILoad0,
    ILoad1,
    ILoad2,
    ILoad3,
    IMul,
    INeg,
    InstanceOf {
        index: cpool::Index<cpool::Class>,
    },
    InvokeDynamic {
        index: cpool::Index<cpool::InvokeDynamic>,
    },
    InvokeInterface {
        index: cpool::Index<cpool::InterfaceMethodRef>,
        count: u8,
    },
    InvokeSpecial {
        index: cpool::Index<cpool::Item<'a>>,
    },
    InvokeStatic {
        index: cpool::Index<cpool::Item<'a>>,
    },
    InvokeVirtual {
        index: cpool::Index<cpool::MethodRef>,
    },
    IOr,
    IRem,
    IReturn,
    IShL,
    IShR,
    IStore {
        index: u8,
    },
    IStoreW {
        index: u16,
    },
    IStore0,
    IStore1,
    IStore2,
    IStore3,
    ISub,
    IUShR,
    IXor,
    JSr {
        offset: i16,
    },
    JSrW {
        offset: i32,
    },
    L2D,
    L2F,
    L2I,
    LAdd,
    LALoad,
    LAnd,
    LAStore,
    LCmp,
    LConst0,
    LConst1,
    LdC {
        index: cpool::Index<cpool::Item<'a>>,
    },
    LdCW {
        index: cpool::Index<cpool::Item<'a>>,
    },
    LdC2W {
        index: cpool::Index<cpool::Item<'a>>,
    },
    LDiv,
    LLoad {
        index: u8,
    },
    LLoadW {
        index: u16,
    },
    LLoad0,
    LLoad1,
    LLoad2,
    LLoad3,
    LMul,
    LNeg,
    LookUpSwitch(LookUpSwitch<'a>),
    LOr,
    LRem,
    LReturn,
    LShL,
    LShR,
    LStore {
        index: u8,
    },
    LStoreW {
        index: u16,
    },
    LStore0,
    LStore1,
    LStore2,
    LStore3,
    LSub,
    LUShR,
    LXor,
    MonitorEnter,
    MonitorExit,
    MultiANewArray {
        index: cpool::Index<cpool::Class>,
        dimensions: u8,
    },
    New {
        index: cpool::Index<cpool::Class>,
    },
    NewArray {
        atype: ArrayType,
    },
    Nop,
    Pop,
    Pop2,
    PutField {
        index: cpool::Index<cpool::FieldRef>,
    },
    PutStatic {
        index: cpool::Index<cpool::FieldRef>,
    },
    Ret {
        index: u8,
    },
    RetW {
        index: u16,
    },
    Return,
    SALoad,
    SAStore,
    SIPush {
        value: i16,
    },
    Swap,
    TableSwitch(TableSwitch<'a>),
}

/// The instruction that an opcode without operands stands for.
pub open spec fn plain_instruction<'a>(opcode: u8) -> Option<RawInstruction<'a>> {
    match opcode {
        0x32 => Some(RawInstruction::AALoad),
        0x53 => Some(RawInstruction::AAStore),
        0x01 => Some(RawInstruction::AConstNull),
        0x2a => Some(RawInstruction::ALoad0),
        0x2b => Some(RawInstruction::ALoad1),
        0x2c => Some(RawInstruction::ALoad2),
        0x2d => Some(RawInstruction::ALoad3),
        0xb0 => Some(RawInstruction::AReturn),
        0xbe => Some(RawInstruction::ArrayLength),
        0x4b => Some(RawInstruction::AStore0),
        0x4c => Some(RawInstruction::AStore1),
        0x4d => Some(RawInstruction::AStore2),
        0x4e => Some(RawInstruction::AStore3),
        0xbf => Some(RawInstruction::AThrow),
        0x33 => Some(RawInstruction::BALoad),
        0x54 => Some(RawInstruction::BAStore),
        0x34 => Some(RawInstruction::CALoad),
        0x55 => Some(RawInstruction::CAStore),
        0x90 => Some(RawInstruction::D2F),
        0x8e => Some(RawInstruction::D2I),
        0x8f => Some(RawInstruction::D2L),
        0x63 => Some(RawInstruction::DAdd),
        0x31 => Some(RawInstruction::DALoad),
        0x52 => Some(RawInstruction::DAStore),
        0x98 => Some(RawInstruction::DCmpG),
        0x97 => Some(RawInstruction::DCmpL),
        0x0e => Some(RawInstruction::DConst0),
        0x0f => Some(RawInstruction::DConst1),
        0x6f => Some(RawInstruction::DDiv),
        0x26 => Some(RawInstruction::DLoad0),
        0x27 => Some(RawInstruction::DLoad1),
        0x28 => Some(RawInstruction::DLoad2),
        0x29 => Some(RawInstruction::DLoad3),
        0x6b => Some(RawInstruction::DMul),
        0x77 => Some(RawInstruction::DNeg),
        0x73 => Some(RawInstruction::DRem),
        0xaf => Some(RawInstruction::DReturn),
        0x47 => Some(RawInstruction::DStore0),
        0x48 => Some(RawInstruction::DStore1),
        0x49 => Some(RawInstruction::DStore2),
        0x4a => Some(RawInstruction::DStore3),
        0x67 => Some(RawInstruction::DSub),
        0x59 => Some(RawInstruction::Dup),
        0x5a => Some(RawInstruction::DupX1),
        0x5b => Some(RawInstruction::DupX2),
        0x5c => Some(RawInstruction::Dup2),
        0x5d => Some(RawInstruction::Dup2X1),
        0x5e => Some(RawInstruction::Dup2X2),
        0x8d => Some(RawInstruction::F2D),
        0x8b => Some(RawInstruction::F2I),
        0x8c => Some(RawInstruction::F2L),
        0x62 => Some(RawInstruction::FAdd),
        0x30 => Some(RawInstruction::FALoad),
        0x51 => Some(RawInstruction::FAStore),
        0x96 => Some(RawInstruction::FCmpG),
        0x95 => Some(RawInstruction::FCmpL),
        0x0b => Some(RawInstruction::FConst0),
        0x0c => Some(RawInstruction::FConst1),
        0x0d => Some(RawInstruction::FConst2),
        0x6e => Some(RawInstruction::FDiv),
        0x22 => Some(RawInstruction::FLoad0),
        0x23 => Some(RawInstruction::FLoad1),
        0x24 => Some(RawInstruction::FLoad2),
        0x25 => Some(RawInstruction::FLoad3),
        0x6a => Some(RawInstruction::FMul),
        0x76 => Some(RawInstruction::FNeg),
        0x72 => Some(RawInstruction::FRem),
        0xae => Some(RawInstruction::FReturn),
        0x43 => Some(RawInstruction::FStore0),
        0x44 => Some(RawInstruction::FStore1),
        0x45 => Some(RawInstruction::FStore2),
        0x46 => Some(RawInstruction::FStore3),
        0x66 => Some(RawInstruction::FSub),
        0x91 => Some(RawInstruction::I2B),
        0x92 => Some(RawInstruction::I2C),
        0x87 => Some(RawInstruction::I2D),
        0x86 => Some(RawInstruction::I2F),
        0x85 => Some(RawInstruction::I2L),
        0x93 => Some(RawInstruction::I2S),
        0x60 => Some(RawInstruction::IAdd),
        0x2e => Some(RawInstruction::IALoad),
        0x7e => Some(RawInstruction::IAnd),
        0x4f => Some(RawInstruction::IAStore),
        0x02 => Some(RawInstruction::IConstM1),
        0x03 => Some(RawInstruction::IConst0),
        0x04 => Some(RawInstruction::IConst1),
        0x05 => Some(RawInstruction::IConst2),
        0x06 => Some(RawInstruction::IConst3),
        0x07 => Some(RawInstruction::IConst4),
        0x08 => Some(RawInstruction::IConst5),
        0x6c => Some(RawInstruction::IDiv),
        0x1a => Some(RawInstruction::ILoad0),
        0x1b => Some(RawInstruction::ILoad1),
        0x1c => Some(RawInstruction::ILoad2),
        0x1d => Some(RawInstruction::ILoad3),
        0x68 => Some(RawInstruction::IMul),
        0x74 => Some(RawInstruction::INeg),
        0x80 => Some(RawInstruction::IOr),
        0x70 => Some(RawInstruction::IRem),
        0xac => Some(RawInstruction::IReturn),
        0x78 => Some(RawInstruction::IShL),
        0x7a => Some(RawInstruction::IShR),
        0x3b => Some(RawInstruction::IStore0),
        0x3c => Some(RawInstruction::IStore1),
        0x3d => Some(RawInstruction::IStore2),
        0x3e => Some(RawInstruction::IStore3),
        0x64 => Some(RawInstruction::ISub),
        0x7c => Some(RawInstruction::IUShR),
        0x82 => Some(RawInstruction::IXor),
        0x8a => Some(RawInstruction::L2D),
        0x89 => Some(RawInstruction::L2F),
        0x88 => Some(RawInstruction::L2I),
        0x61 => Some(RawInstruction::LAdd),
        0x2f => Some(RawInstruction::LALoad),
        0x7f => Some(RawInstruction::LAnd),
        0x50 => Some(RawInstruction::LAStore),
        0x94 => Some(RawInstruction::LCmp),
        0x09 => Some(RawInstruction::LConst0),
        0x0a => Some(RawInstruction::LConst1),
        0x6d => Some(RawInstruction::LDiv),
        0x1e => Some(RawInstruction::LLoad0),
        0x1f => Some(RawInstruction::LLoad1),
        0x20 => Some(RawInstruction::LLoad2),
        0x21 => Some(RawInstruction::LLoad3),
        0x69 => Some(RawInstruction::LMul),
        0x75 => Some(RawInstruction::LNeg),
        0x81 => Some(RawInstruction::LOr),
        0x71 => Some(RawInstruction::LRem),
        0xad => Some(RawInstruction::LReturn),
        0x79 => Some(RawInstruction::LShL),
        0x7b => Some(RawInstruction::LShR),
        0x3f => Some(RawInstruction::LStore0),
        0x40 => Some(RawInstruction::LStore1),
        0x41 => Some(RawInstruction::LStore2),
        0x42 => Some(RawInstruction::LStore3),
        0x65 => Some(RawInstruction::LSub),
        0x7d => Some(RawInstruction::LUShR),
        0x83 => Some(RawInstruction::LXor),
        0xc2 => Some(RawInstruction::MonitorEnter),
        0xc3 => Some(RawInstruction::MonitorExit),
        0x00 => Some(RawInstruction::Nop),
        0x57 => Some(RawInstruction::Pop),
        0x58 => Some(RawInstruction::Pop2),
        0xb1 => Some(RawInstruction::Return),
        0x35 => Some(RawInstruction::SALoad),
        0x56 => Some(RawInstruction::SAStore),
        0x5f => Some(RawInstruction::Swap),
        _ => None,
    }
}

/// The instruction that an opcode without operands stands for, if it is one.
fn plain_instruction_of<'a>(opcode: u8) -> (r: Option<RawInstruction<'a>>)
    ensures
        r == plain_instruction::<'a>(opcode),
{
    match opcode {
        0x32 => Some(RawInstruction::AALoad),
        0x53 => Some(RawInstruction::AAStore),
        0x01 => Some(RawInstruction::AConstNull),
        0x2a => Some(RawInstruction::ALoad0),
        0x2b => Some(RawInstruction::ALoad1),
        0x2c => Some(RawInstruction::ALoad2),
        0x2d => Some(RawInstruction::ALoad3),
        0xb0 => Some(RawInstruction::AReturn),
        0xbe => Some(RawInstruction::ArrayLength),
        0x4b => Some(RawInstruction::AStore0),
        0x4c => Some(RawInstruction::AStore1),
        0x4d => Some(RawInstruction::AStore2),
        0x4e => Some(RawInstruction::AStore3),
        0xbf => Some(RawInstruction::AThrow),
        0x33 => Some(RawInstruction::BALoad),
        0x54 => Some(RawInstruction::BAStore),
        0x34 => Some(RawInstruction::CALoad),
        0x55 => Some(RawInstruction::CAStore),
        0x90 => Some(RawInstruction::D2F),
        0x8e => Some(RawInstruction::D2I),
        0x8f => Some(RawInstruction::D2L),
        0x63 => Some(RawInstruction::DAdd),
        0x31 => Some(RawInstruction::DALoad),
        0x52 => Some(RawInstruction::DAStore),
        0x98 => Some(RawInstruction::DCmpG),
        0x97 => Some(RawInstruction::DCmpL),
        0x0e => Some(RawInstruction::DConst0),
        0x0f => Some(RawInstruction::DConst1),
        0x6f => Some(RawInstruction::DDiv),
        0x26 => Some(RawInstruction::DLoad0),
        0x27 => Some(RawInstruction::DLoad1),
        0x28 => Some(RawInstruction::DLoad2),
        0x29 => Some(RawInstruction::DLoad3),
        0x6b => Some(RawInstruction::DMul),
        0x77 => Some(RawInstruction::DNeg),
        0x73 => Some(RawInstruction::DRem),
        0xaf => Some(RawInstruction::DReturn),
        0x47 => Some(RawInstruction::DStore0),
        0x48 => Some(RawInstruction::DStore1),
        0x49 => Some(RawInstruction::DStore2),
        0x4a => Some(RawInstruction::DStore3),
        0x67 => Some(RawInstruction::DSub),
        0x59 => Some(RawInstruction::Dup),
        0x5a => Some(RawInstruction::DupX1),
        0x5b => Some(RawInstruction::DupX2),
        0x5c => Some(RawInstruction::Dup2),
        0x5d => Some(RawInstruction::Dup2X1),
        0x5e => Some(RawInstruction::Dup2X2),
        0x8d => Some(RawInstruction::F2D),
        0x8b => Some(RawInstruction::F2I),
        0x8c => Some(RawInstruction::F2L),
        0x62 => Some(RawInstruction::FAdd),
        0x30 => Some(RawInstruction::FALoad),
        0x51 => Some(RawInstruction::FAStore),
        0x96 => Some(RawInstruction::FCmpG),
        0x95 => Some(RawInstruction::FCmpL),
        0x0b => Some(RawInstruction::FConst0),
        0x0c => Some(RawInstruction::FConst1),
        0x0d => Some(RawInstruction::FConst2),
        0x6e => Some(RawInstruction::FDiv),
        0x22 => Some(RawInstruction::FLoad0),
        0x23 => Some(RawInstruction::FLoad1),
        0x24 => Some(RawInstruction::FLoad2),
        0x25 => Some(RawInstruction::FLoad3),
        0x6a => Some(RawInstruction::FMul),
        0x76 => Some(RawInstruction::FNeg),
        0x72 => Some(RawInstruction::FRem),
        0xae => Some(RawInstruction::FReturn),
        0x43 => Some(RawInstruction::FStore0),
        0x44 => Some(RawInstruction::FStore1),
        0x45 => Some(RawInstruction::FStore2),
        0x46 => Some(RawInstruction::FStore3),
        0x66 => Some(RawInstruction::FSub),
        0x91 => Some(RawInstruction::I2B),
        0x92 => Some(RawInstruction::I2C),
        0x87 => Some(RawInstruction::I2D),
        0x86 => Some(RawInstruction::I2F),
        0x85 => Some(RawInstruction::I2L),
        0x93 => Some(RawInstruction::I2S),
        0x60 => Some(RawInstruction::IAdd),
        0x2e => Some(RawInstruction::IALoad),
        0x7e => Some(RawInstruction::IAnd),
        0x4f => Some(RawInstruction::IAStore),
        0x02 => Some(RawInstruction::IConstM1),
        0x03 => Some(RawInstruction::IConst0),
        0x04 => Some(RawInstruction::IConst1),
        0x05 => Some(RawInstruction::IConst2),
        0x06 => Some(RawInstruction::IConst3),
        0x07 => Some(RawInstruction::IConst4),
        0x08 => Some(RawInstruction::IConst5),
        0x6c => Some(RawInstruction::IDiv),
        0x1a => Some(RawInstruction::ILoad0),
        0x1b => Some(RawInstruction::ILoad1),
        0x1c => Some(RawInstruction::ILoad2),
        0x1d => Some(RawInstruction::ILoad3),
        0x68 => Some(RawInstruction::IMul),
        0x74 => Some(RawInstruction::INeg),
        0x80 => Some(RawInstruction::IOr),
        0x70 => Some(RawInstruction::IRem),
        0xac => Some(RawInstruction::IReturn),
        0x78 => Some(RawInstruction::IShL),
        0x7a => Some(RawInstruction::IShR),
        0x3b => Some(RawInstruction::IStore0),
        0x3c => Some(RawInstruction::IStore1),
        0x3d => Some(RawInstruction::IStore2),
        0x3e => Some(RawInstruction::IStore3),
        0x64 => Some(RawInstruction::ISub),
        0x7c => Some(RawInstruction::IUShR),
        0x82 => Some(RawInstruction::IXor),
        0x8a => Some(RawInstruction::L2D),
        0x89 => Some(RawInstruction::L2F),
        0x88 => Some(RawInstruction::L2I),
        0x61 => Some(RawInstruction::LAdd),
        0x2f => Some(RawInstruction::LALoad),
        0x7f => Some(RawInstruction::LAnd),
        0x50 => Some(RawInstruction::LAStore),
        0x94 => Some(RawInstruction::LCmp),
        0x09 => Some(RawInstruction::LConst0),
        0x0a => Some(RawInstruction::LConst1),
        0x6d => Some(RawInstruction::LDiv),
        0x1e => Some(RawInstruction::LLoad0),
        0x1f => Some(RawInstruction::LLoad1),
        0x20 => Some(RawInstruction::LLoad2),
        0x21 => Some(RawInstruction::LLoad3),
        0x69 => Some(RawInstruction::LMul),
        0x75 => Some(RawInstruction::LNeg),
        0x81 => Some(RawInstruction::LOr),
        0x71 => Some(RawInstruction::LRem),
        0xad => Some(RawInstruction::LReturn),
        0x79 => Some(RawInstruction::LShL),
        0x7b => Some(RawInstruction::LShR),
        0x3f => Some(RawInstruction::LStore0),
        0x40 => Some(RawInstruction::LStore1),
        0x41 => Some(RawInstruction::LStore2),
        0x42 => Some(RawInstruction::LStore3),
        0x65 => Some(RawInstruction::LSub),
        0x7d => Some(RawInstruction::LUShR),
        0x83 => Some(RawInstruction::LXor),
        0xc2 => Some(RawInstruction::MonitorEnter),
        0xc3 => Some(RawInstruction::MonitorExit),
        0x00 => Some(RawInstruction::Nop),
        0x57 => Some(RawInstruction::Pop),
        0x58 => Some(RawInstruction::Pop2),
        0xb1 => Some(RawInstruction::Return),
        0x35 => Some(RawInstruction::SALoad),
        0x56 => Some(RawInstruction::SAStore),
        0x5f => Some(RawInstruction::Swap),
        _ => None,
    }
}

/// Reading an instruction that follows the `wide` opcode: a second opcode, then its widened operands.
pub open spec fn spec_wide<'a>(d: Decoder<'a>) -> (Result<RawInstruction<'a>, DecodeError>, Decoder<'a>) {
    let (r, d1) = <u8 as Decode<'a>>::spec_decode(d);
    match r {
        Err(e) => (Err(e), d1),
        Ok(opcode) => match opcode {
            0x19 => spec_map(<u16 as Decode<'a>>::spec_decode(d1), |v: u16| RawInstruction::ALoadW { index: v }),
            0x3a => spec_map(<u16 as Decode<'a>>::spec_decode(d1), |v: u16| RawInstruction::AStoreW { index: v }),
            0x18 => spec_map(<u16 as Decode<'a>>::spec_decode(d1), |v: u16| RawInstruction::DLoadW { index: v }),
            0x39 => spec_map(<u16 as Decode<'a>>::spec_decode(d1), |v: u16| RawInstruction::DStoreW { index: v }),
            0x17 => spec_map(<u16 as Decode<'a>>::spec_decode(d1), |v: u16| RawInstruction::FLoadW { index: v }),
            0x38 => spec_map(<u16 as Decode<'a>>::spec_decode(d1), |v: u16| RawInstruction::FStoreW { index: v }),
            0x15 => spec_map(<u16 as Decode<'a>>::spec_decode(d1), |v: u16| RawInstruction::ILoadW { index: v }),
            0x36 => spec_map(<u16 as Decode<'a>>::spec_decode(d1), |v: u16| RawInstruction::IStoreW { index: v }),
            0x16 => spec_map(<u16 as Decode<'a>>::spec_decode(d1), |v: u16| RawInstruction::LLoadW { index: v }),
            0x37 => spec_map(<u16 as Decode<'a>>::spec_decode(d1), |v: u16| RawInstruction::LStoreW { index: v }),
            0xa9 => spec_map(<u16 as Decode<'a>>::spec_decode(d1), |v: u16| RawInstruction::RetW { index: v }),
            0x84 => spec_map(<(u16, i16) as Decode<'a>>::spec_decode(d1), |p: (u16, i16)| RawInstruction::IIncW { index: p.0, value: p.1 }),
            _ => (Err(d1.error_here(DecodeErrorKind::InvalidInstruction)), d1),
        },
    }
}

fn decode_wide<'a>(decoder: &mut Decoder<'a>) -> (r: Result<RawInstruction<'a>, DecodeError>)
    ensures
        (r, *final(decoder)) == spec_wide(*old(decoder)),
        final(decoder).follows(*old(decoder)),
{
    let opcode: u8 = match decoder.read() {
        Ok(opcode) => opcode,
        Err(e) => return Err(e),
    };
    match opcode {
        0x19 => match decoder.read::<u16>() {
            Ok(v) => Ok(RawInstruction::ALoadW { index: v }),
            Err(e) => Err(e),
        },
        0x3a => match decoder.read::<u16>() {
            Ok(v) => Ok(RawInstruction::AStoreW { index: v }),
            Err(e) => Err(e),
        },
        0x18 => match decoder.read::<u16>() {
            Ok(v) => Ok(RawInstruction::DLoadW { index: v }),
            Err(e) => Err(e),
        },
        0x39 => match decoder.read::<u16>() {
            Ok(v) => Ok(RawInstruction::DStoreW { index: v }),
            Err(e) => Err(e),
        },
        0x17 => match decoder.read::<u16>() {
            Ok(v) => Ok(RawInstruction::FLoadW { index: v }),
            Err(e) => Err(e),
        },
        0x38 => match decoder.read::<u16>() {
            Ok(v) => Ok(RawInstruction::FStoreW { index: v }),
            Err(e) => Err(e),
        },
        0x15 => match decoder.read::<u16>() {
            Ok(v) => Ok(RawInstruction::ILoadW { index: v }),
            Err(e) => Err(e),
        },
        0x36 => match decoder.read::<u16>() {
            Ok(v) => Ok(RawInstruction::IStoreW { index: v }),
            Err(e) => Err(e),
        },
        0x16 => match decoder.read::<u16>() {
            Ok(v) => Ok(RawInstruction::LLoadW { index: v }),
            Err(e) => Err(e),
        },
        0x37 => match decoder.read::<u16>() {
            Ok(v) => Ok(RawInstruction::LStoreW { index: v }),
            Err(e) => Err(e),
        },
        0xa9 => match decoder.read::<u16>() {
            Ok(v) => Ok(RawInstruction::RetW { index: v }),
            Err(e) => Err(e),
        },
        0x84 => match decoder.read::<(u16, i16)>() {
            Ok((index, value)) => Ok(RawInstruction::IIncW { index, value }),
            Err(e) => Err(e),
        },
        _ => Err(DecodeError::from_decoder(DecodeErrorKind::InvalidInstruction, decoder)),
    }
}

/// The padding before the operands of a switch, which aligns them to four bytes from the start of the method;
/// `position` is the position after the opcode.
pub open spec fn switch_padding(position: int, method_start: int) -> int {
    3 - (position - method_start - 1) % 4
}

/// The padding puts the operands of a switch at a multiple of four bytes from the start of the method.
pub proof fn lemma_switch_padding_aligns(position: int, method_start: int)
    requires
        position > method_start,
    ensures
        0 <= switch_padding(position, method_start) <= 3,
        (position + switch_padding(position, method_start) - method_start) % 4 == 0,
{
}

/// Reading `invokedynamic`'s operands: an index, then two bytes that must be zero.
pub open spec fn spec_invoke_dynamic<'a>(d: Decoder<'a>) -> (Result<RawInstruction<'a>, DecodeError>, Decoder<'a>) {
    let (ri, d1) = <cpool::Index<cpool::InvokeDynamic> as Decode<'a>>::spec_decode(d);
    match ri {
        Err(e) => (Err(e), d1),
        Ok(index) => {
            let (rb, d2) = <u8 as Decode<'a>>::spec_decode(d1);
            match rb {
                Err(e) => (Err(e), d2),
                Ok(b) => if b != 0 {
                    (Err(d2.error_here(DecodeErrorKind::InvalidInstruction)), d2)
                } else {
                    let (rc, d3) = <u8 as Decode<'a>>::spec_decode(d2);
                    match rc {
                        Err(e) => (Err(e), d3),
                        Ok(c) => if c != 0 {
                            (Err(d3.error_here(DecodeErrorKind::InvalidInstruction)), d3)
                        } else {
                            (Ok(RawInstruction::InvokeDynamic { index }), d3)
                        },
                    }
                },
            }
        },
    }
}

fn decode_invoke_dynamic<'a>(decoder: &mut Decoder<'a>) -> (r: Result<RawInstruction<'a>, DecodeError>)
    ensures
        (r, *final(decoder)) == spec_invoke_dynamic(*old(decoder)),
        final(decoder).follows(*old(decoder)),
{
    let index = match decoder.read() {
        Ok(index) => index,
        Err(e) => return Err(e),
    };
    let b: u8 = match decoder.read() {
        Ok(b) => b,
        Err(e) => return Err(e),
    };
    if b != 0 {
        return Err(DecodeError::from_decoder(DecodeErrorKind::InvalidInstruction, decoder));
    }
    let c: u8 = match decoder.read() {
        Ok(c) => c,
        Err(e) => return Err(e),
    };
    if c != 0 {
        return Err(DecodeError::from_decoder(DecodeErrorKind::InvalidInstruction, decoder));
    }
    Ok(RawInstruction::InvokeDynamic { index })
}

/// Reading `invokeinterface`'s operands: an index, a count, then a byte that must be zero.
pub open spec fn spec_invoke_interface<'a>(d: Decoder<'a>) -> (Result<RawInstruction<'a>, DecodeError>, Decoder<'a>) {
    let (ri, d1) = <(cpool::Index<cpool::InterfaceMethodRef>, u8) as Decode<'a>>::spec_decode(d);
    match ri {
        Err(e) => (Err(e), d1),
        Ok(p) => {
            let (rb, d2) = <u8 as Decode<'a>>::spec_decode(d1);
            match rb {
                Err(e) => (Err(e), d2),
                Ok(b) => if b != 0 {
                    (Err(d2.error_here(DecodeErrorKind::InvalidInstruction)), d2)
                } else {
                    (Ok(RawInstruction::InvokeInterface { index: p.0, count: p.1 }), d2)
                },
            }
        },
    }
}

fn decode_invoke_interface<'a>(decoder: &mut Decoder<'a>) -> (r: Result<RawInstruction<'a>, DecodeError>)
    ensures
        (r, *final(decoder)) == spec_invoke_interface(*old(decoder)),
        final(decoder).follows(*old(decoder)),
{
    let (index, count) = match decoder.read::<(cpool::Index<cpool::InterfaceMethodRef>, u8)>() {
        Ok(p) => p,
        Err(e) => return Err(e),
    };
    let b: u8 = match decoder.read() {
        Ok(b) => b,
        Err(e) => return Err(e),
    };
    if b != 0 {
        return Err(DecodeError::from_decoder(DecodeErrorKind::InvalidInstruction, decoder));
    }
    Ok(RawInstruction::InvokeInterface { index, count })
}

/// Reading `ldc`'s operand: a one-byte index, which must not be 0.
pub open spec fn spec_ldc<'a>(d: Decoder<'a>) -> (Result<RawInstruction<'a>, DecodeError>, Decoder<'a>) {
    let (r, d1) = <u8 as Decode<'a>>::spec_decode(d);
    match r {
        Err(e) => (Err(e), d1),
        Ok(v) => if v == 0 {
            (Err(spec_error(DecodeErrorKind::InvalidIndex, None, Context::NoContext)), d1)
        } else {
            (Ok(RawInstruction::LdC { index: cpool::Index::spec_new(v as u16) }), d1)
        },
    }
}

fn decode_ldc<'a>(decoder: &mut Decoder<'a>) -> (r: Result<RawInstruction<'a>, DecodeError>)
    ensures
        (r, *final(decoder)) == spec_ldc(*old(decoder)),
        final(decoder).follows(*old(decoder)),
{
    let v: u8 = match decoder.read() {
        Ok(v) => v,
        Err(e) => return Err(e),
    };
    match cpool::Index::new(v as u16) {
        Ok(index) => Ok(RawInstruction::LdC { index }),
        Err(e) => Err(e),
    }
}

/// Reading the operands of `lookupswitch`: the padding, the default offset, then the pairs.
pub open spec fn spec_lookup_switch<'a>(d: Decoder<'a>, method_start: usize) -> (Result<RawInstruction<'a>, DecodeError>, Decoder<'a>) {
    let (rp, d1) = d.spec_try_advance(switch_padding(d.pos() as int, method_start as int));
    match rp {
        Err(e) => (Err(e), d1),
        Ok(_) => spec_map(
            <(i32, LookUpPairs<'a>) as Decode<'a>>::spec_decode(d1),
            |p: (i32, LookUpPairs<'a>)| RawInstruction::LookUpSwitch(LookUpSwitch::spec_new(p.0, p.1)),
        ),
    }
}

/// Reading the operands of `tableswitch`: the padding, the default offset, then the pairs.
pub open spec fn spec_table_switch<'a>(d: Decoder<'a>, method_start: usize) -> (Result<RawInstruction<'a>, DecodeError>, Decoder<'a>) {
    let (rp, d1) = d.spec_try_advance(switch_padding(d.pos() as int, method_start as int));
    match rp {
        Err(e) => (Err(e), d1),
        Ok(_) => spec_map(
            <(i32, TablePairs<'a>) as Decode<'a>>::spec_decode(d1),
            |p: (i32, TablePairs<'a>)| RawInstruction::TableSwitch(TableSwitch::spec_new(p.0, p.1)),
        ),
    }
}

/// Skips the padding before the operands of a switch.
fn skip_switch_padding<'a>(decoder: &mut Decoder<'a>, method_start: usize) -> (r: Result<(), DecodeError>)
    requires
        old(decoder).pos() > method_start,
    ensures
        (r, *final(decoder)) == old(decoder).spec_try_advance(switch_padding(old(decoder).pos() as int, method_start as int)),
        final(decoder).follows(*old(decoder)),
{
    let offset = decoder.file_position() - method_start - 1;
    assert(offset & 3 == offset % 4 && offset & 3 <= 3) by (bit_vector);
    decoder.advance(3 - (offset & 3))
}

fn decode_lookup_switch<'a>(decoder: &mut Decoder<'a>, method_start: usize) -> (r: Result<RawInstruction<'a>, DecodeError>)
    requires
        old(decoder).pos() > method_start,
    ensures
        (r, *final(decoder)) == spec_lookup_switch(*old(decoder), method_start),
        final(decoder).follows(*old(decoder)),
{
    match skip_switch_padding(decoder, method_start) {
        Ok(()) => {},
        Err(e) => return Err(e),
    }
    match decoder.read::<(i32, LookUpPairs<'a>)>() {
        Ok((default_offset, pairs)) => Ok(RawInstruction::LookUpSwitch(LookUpSwitch { default_offset, pairs })),
        Err(e) => Err(e),
    }
}

fn decode_table_switch<'a>(decoder: &mut Decoder<'a>, method_start: usize) -> (r: Result<RawInstruction<'a>, DecodeError>)
    requires
        old(decoder).pos() > method_start,
    ensures
        (r, *final(decoder)) == spec_table_switch(*old(decoder), method_start),
        final(decoder).follows(*old(decoder)),
{
    match skip_switch_padding(decoder, method_start) {
        Ok(()) => {},
        Err(e) => return Err(e),
    }
    match decoder.read::<(i32, TablePairs<'a>)>() {
        Ok((default_offset, pairs)) => Ok(RawInstruction::TableSwitch(TableSwitch { default_offset, pairs })),
        Err(e) => Err(e),
    }
}

/// Reading the operands of an instruction whose opcode has some; other opcodes are refused.
pub open spec fn spec_operands<'a>(opcode: u8, d: Decoder<'a>, method_start: usize) -> (Result<RawInstruction<'a>, DecodeError>, Decoder<'a>) {
    match opcode {
        0x19 => spec_map(<u8 as Decode<'a>>::spec_decode(d), |v: u8| RawInstruction::ALoad { index: v }),
        0xbd => spec_map(<cpool::Index<cpool::Item<'a>> as Decode<'a>>::spec_decode(d), |v: cpool::Index<cpool::Item<'a>>| RawInstruction::ANewArray { index: v }),
        0x3a => spec_map(<u8 as Decode<'a>>::spec_decode(d), |v: u8| RawInstruction::AStore { index: v }),
        0x10 => spec_map(<i8 as Decode<'a>>::spec_decode(d), |v: i8| RawInstruction::BIPush { value: v }),
        0xc0 => spec_map(<cpool::Index<cpool::Class> as Decode<'a>>::spec_decode(d), |v: cpool::Index<cpool::Class>| RawInstruction::CheckCast { index: v }),
        0x18 => spec_map(<u8 as Decode<'a>>::spec_decode(d), |v: u8| RawInstruction::DLoad { index: v }),
        0x39 => spec_map(<u8 as Decode<'a>>::spec_decode(d), |v: u8| RawInstruction::DStore { index: v }),
        0x17 => spec_map(<u8 as Decode<'a>>::spec_decode(d), |v: u8| RawInstruction::FLoad { index: v }),
        0x38 => spec_map(<u8 as Decode<'a>>::spec_decode(d), |v: u8| RawInstruction::FStore { index: v }),
        0xb4 => spec_map(<cpool::Index<cpool::FieldRef> as Decode<'a>>::spec_decode(d), |v: cpool::Index<cpool::FieldRef>| RawInstruction::GetField { index: v }),
        0xb2 => spec_map(<cpool::Index<cpool::FieldRef> as Decode<'a>>::spec_decode(d), |v: cpool::Index<cpool::FieldRef>| RawInstruction::GetStatic { index: v }),
        0xa7 => spec_map(<i16 as Decode<'a>>::spec_decode(d), |v: i16| RawInstruction::Goto { offset: v }),
        0xc8 => spec_map(<i32 as Decode<'a>>::spec_decode(d), |v: i32| RawInstruction::GotoW { offset: v }),
        0xa5 => spec_map(<i16 as Decode<'a>>::spec_decode(d), |v: i16| RawInstruction::IfACmpEq { offset: v }),
        0xa6 => spec_map(<i16 as Decode<'a>>::spec_decode(d), |v: i16| RawInstruction::IfACmpNe { offset: v }),
        0x9f => spec_map(<i16 as Decode<'a>>::spec_decode(d), |v: i16| RawInstruction::IfICmpEq { offset: v }),
        0xa0 => spec_map(<i16 as Decode<'a>>::spec_decode(d), |v: i16| RawInstruction::IfICmpNe { offset: v }),
        0xa1 => spec_map(<i16 as Decode<'a>>::spec_decode(d), |v: i16| RawInstruction::IfICmpLt { offset: v }),
        0xa2 => spec_map(<i16 as Decode<'a>>::spec_decode(d), |v: i16| RawInstruction::IfICmpGe { offset: v }),
        0xa3 => spec_map(<i16 as Decode<'a>>::spec_decode(d), |v: i16| RawInstruction::IFICmpGt { offset: v }),
        0xa4 => spec_map(<i16 as Decode<'a>>::spec_decode(d), |v: i16| RawInstruction::IfICmpLe { offset: v }),
        0x99 => spec_map(<i16 as Decode<'a>>::spec_decode(d), |v: i16| RawInstruction::IfEq { offset: v }),
        0x9a => spec_map(<i16 as Decode<'a>>::spec_decode(d), |v: i16| RawInstruction::IfNe { offset: v }),
        0x9b => spec_map(<i16 as Decode<'a>>::spec_decode(d), |v: i16| RawInstruction::IfLt { offset: v }),
        0x9c => spec_map(<i16 as Decode<'a>>::spec_decode(d), |v: i16| RawInstruction::IfGe { offset: v }),
        0x9d => spec_map(<i16 as Decode<'a>>::spec_decode(d), |v: i16| RawInstruction::IfGt { offset: v }),
        0x9e => spec_map(<i16 as Decode<'a>>::spec_decode(d), |v: i16| RawInstruction::IfLe { offset: v }),
        0xc7 => spec_map(<i16 as Decode<'a>>::spec_decode(d), |v: i16| RawInstruction::IfNonNull { offset: v }),
        0xc6 => spec_map(<i16 as Decode<'a>>::spec_decode(d), |v: i16| RawInstruction::IfNull { offset: v }),
        0x84 => spec_map(<(u8, i8) as Decode<'a>>::spec_decode(d), |p: (u8, i8)| RawInstruction::IInc { index: p.0, value: p.1 }),
        0x15 => spec_map(<u8 as Decode<'a>>::spec_decode(d), |v: u8| RawInstruction::ILoad { index: v }),
        0xc1 => spec_map(<cpool::Index<cpool::Class> as Decode<'a>>::spec_decode(d), |v: cpool::Index<cpool::Class>| RawInstruction::InstanceOf { index: v }),
        0xb7 => spec_map(<cpool::Index<cpool::Item<'a>> as Decode<'a>>::spec_decode(d), |v: cpool::Index<cpool::Item<'a>>| RawInstruction::InvokeSpecial { index: v }),
        0xb8 => spec_map(<cpool::Index<cpool::Item<'a>> as Decode<'a>>::spec_decode(d), |v: cpool::Index<cpool::Item<'a>>| RawInstruction::InvokeStatic { index: v }),
        0xb6 => spec_map(<cpool::Index<cpool::MethodRef> as Decode<'a>>::spec_decode(d), |v: cpool::Index<cpool::MethodRef>| RawInstruction::InvokeVirtual { index: v }),
        0x36 => spec_map(<u8 as Decode<'a>>::spec_decode(d), |v: u8| RawInstruction::IStore { index: v }),
        0xa8 => spec_map(<i16 as Decode<'a>>::spec_decode(d), |v: i16| RawInstruction::JSr { offset: v }),
        0xc9 => spec_map(<i32 as Decode<'a>>::spec_decode(d), |v: i32| RawInstruction::JSrW { offset: v }),
        0x13 => spec_map(<cpool::Index<cpool::Item<'a>> as Decode<'a>>::spec_decode(d), |v: cpool::Index<cpool::Item<'a>>| RawInstruction::LdCW { index: v }),
        0x14 => spec_map(<cpool::Index<cpool::Item<'a>> as Decode<'a>>::spec_decode(d), |v: cpool::Index<cpool::Item<'a>>| RawInstruction::LdC2W { index: v }),
        0x16 => spec_map(<u8 as Decode<'a>>::spec_decode(d), |v: u8| RawInstruction::LLoad { index: v }),
        0x37 => spec_map(<u8 as Decode<'a>>::spec_decode(d), |v: u8| RawInstruction::LStore { index: v }),
        0xc5 => spec_map(<(cpool::Index<cpool::Class>, u8) as Decode<'a>>::spec_decode(d), |p: (cpool::Index<cpool::Class>, u8)| RawInstruction::MultiANewArray { index: p.0, dimensions: p.1 }),
        0xbb => spec_map(<cpool::Index<cpool::Class> as Decode<'a>>::spec_decode(d), |v: cpool::Index<cpool::Class>| RawInstruction::New { index: v }),
        0xbc => spec_map(<ArrayType as Decode<'a>>::spec_decode(d), |v: ArrayType| RawInstruction::NewArray { atype: v }),
        0xb5 => spec_map(<cpool::Index<cpool::FieldRef> as Decode<'a>>::spec_decode(d), |v: cpool::Index<cpool::FieldRef>| RawInstruction::PutField { index: v }),
        0xb3 => spec_map(<cpool::Index<cpool::FieldRef> as Decode<'a>>::spec_decode(d), |v: cpool::Index<cpool::FieldRef>| RawInstruction::PutStatic { index: v }),
        0xa9 => spec_map(<u8 as Decode<'a>>::spec_decode(d), |v: u8| RawInstruction::Ret { index: v }),
        0x11 => spec_map(<i16 as Decode<'a>>::spec_decode(d), |v: i16| RawInstruction::SIPush { value: v }),
        0xba => spec_invoke_dynamic(d),
        0xb9 => spec_invoke_interface(d),
        0x12 => spec_ldc(d),
        0xab => spec_lookup_switch(d, method_start),
        0xaa => spec_table_switch(d, method_start),
        0xc4 => spec_wide(d),
        _ => (Err(d.error_here(DecodeErrorKind::InvalidInstruction)), d),
    }
}

#[verifier::rlimit(50)]
fn decode_operands<'a>(opcode: u8, decoder: &mut Decoder<'a>, method_start: usize) -> (r: Result<RawInstruction<'a>, DecodeError>)
    requires
        old(decoder).pos() > method_start,
    ensures
        (r, *final(decoder)) == spec_operands(opcode, *old(decoder), method_start),
        final(decoder).follows(*old(decoder)),
{
    match opcode {
        0x19 => match decoder.read::<u8>() {
            Ok(v) => Ok(RawInstruction::ALoad { index: v }),
            Err(e) => Err(e),
        },
        0xbd => match decoder.read::<cpool::Index<cpool::Item<'a>>>() {
            Ok(v) => Ok(RawInstruction::ANewArray { index: v }),
            Err(e) => Err(e),
        },
        0x3a => match decoder.read::<u8>() {
            Ok(v) => Ok(RawInstruction::AStore { index: v }),
            Err(e) => Err(e),
        },
        0x10 => match decoder.read::<i8>() {
            Ok(v) => Ok(RawInstruction::BIPush { value: v }),
            Err(e) => Err(e),
        },
        0xc0 => match decoder.read::<cpool::Index<cpool::Class>>() {
            Ok(v) => Ok(RawInstruction::CheckCast { index: v }),
            Err(e) => Err(e),
        },
        0x18 => match decoder.read::<u8>() {
            Ok(v) => Ok(RawInstruction::DLoad { index: v }),
            Err(e) => Err(e),
        },
        0x39 => match decoder.read::<u8>() {
            Ok(v) => Ok(RawInstruction::DStore { index: v }),
            Err(e) => Err(e),
        },
        0x17 => match decoder.read::<u8>() {
            Ok(v) => Ok(RawInstruction::FLoad { index: v }),
            Err(e) => Err(e),
        },
        0x38 => match decoder.read::<u8>() {
            Ok(v) => Ok(RawInstruction::FStore { index: v }),
            Err(e) => Err(e),
        },
        0xb4 => match decoder.read::<cpool::Index<cpool::FieldRef>>() {
            Ok(v) => Ok(RawInstruction::GetField { index: v }),
            Err(e) => Err(e),
        },
        0xb2 => match decoder.read::<cpool::Index<cpool::FieldRef>>() {
            Ok(v) => Ok(RawInstruction::GetStatic { index: v }),
            Err(e) => Err(e),
        },
        0xa7 => match decoder.read::<i16>() {
            Ok(v) => Ok(RawInstruction::Goto { offset: v }),
            Err(e) => Err(e),
        },
        0xc8 => match decoder.read::<i32>() {
            Ok(v) => Ok(RawInstruction::GotoW { offset: v }),
            Err(e) => Err(e),
        },
        0xa5 => match decoder.read::<i16>() {
            Ok(v) => Ok(RawInstruction::IfACmpEq { offset: v }),
            Err(e) => Err(e),
        },
        0xa6 => match decoder.read::<i16>() {
            Ok(v) => Ok(RawInstruction::IfACmpNe { offset: v }),
            Err(e) => Err(e),
        },
        0x9f => match decoder.read::<i16>() {
            Ok(v) => Ok(RawInstruction::IfICmpEq { offset: v }),
            Err(e) => Err(e),
        },
        0xa0 => match decoder.read::<i16>() {
            Ok(v) => Ok(RawInstruction::IfICmpNe { offset: v }),
            Err(e) => Err(e),
        },
        0xa1 => match decoder.read::<i16>() {
            Ok(v) => Ok(RawInstruction::IfICmpLt { offset: v }),
            Err(e) => Err(e),
        },
        0xa2 => match decoder.read::<i16>() {
            Ok(v) => Ok(RawInstruction::IfICmpGe { offset: v }),
            Err(e) => Err(e),
        },
        0xa3 => match decoder.read::<i16>() {
            Ok(v) => Ok(RawInstruction::IFICmpGt { offset: v }),
            Err(e) => Err(e),
        },
        0xa4 => match decoder.read::<i16>() {
            Ok(v) => Ok(RawInstruction::IfICmpLe { offset: v }),
            Err(e) => Err(e),
        },
        0x99 => match decoder.read::<i16>() {
            Ok(v) => Ok(RawInstruction::IfEq { offset: v }),
            Err(e) => Err(e),
        },
        0x9a => match decoder.read::<i16>() {
            Ok(v) => Ok(RawInstruction::IfNe { offset: v }),
            Err(e) => Err(e),
        },
        0x9b => match decoder.read::<i16>() {
            Ok(v) => Ok(RawInstruction::IfLt { offset: v }),
            Err(e) => Err(e),
        },
        0x9c => match decoder.read::<i16>() {
            Ok(v) => Ok(RawInstruction::IfGe { offset: v }),
            Err(e) => Err(e),
        },
        0x9d => match decoder.read::<i16>() {
            Ok(v) => Ok(RawInstruction::IfGt { offset: v }),
            Err(e) => Err(e),
        },
        0x9e => match decoder.read::<i16>() {
            Ok(v) => Ok(RawInstruction::IfLe { offset: v }),
            Err(e) => Err(e),
        },
        0xc7 => match decoder.read::<i16>() {
            Ok(v) => Ok(RawInstruction::IfNonNull { offset: v }),
            Err(e) => Err(e),
        },
        0xc6 => match decoder.read::<i16>() {
            Ok(v) => Ok(RawInstruction::IfNull { offset: v }),
            Err(e) => Err(e),
        },
        0x84 => match decoder.read::<(u8, i8)>() {
            Ok((index, value)) => Ok(RawInstruction::IInc { index, value }),
            Err(e) => Err(e),
        },
        0x15 => match decoder.read::<u8>() {
            Ok(v) => Ok(RawInstruction::ILoad { index: v }),
            Err(e) => Err(e),
        },
        0xc1 => match decoder.read::<cpool::Index<cpool::Class>>() {
            Ok(v) => Ok(RawInstruction::InstanceOf { index: v }),
            Err(e) => Err(e),
        },
        0xb7 => match decoder.read::<cpool::Index<cpool::Item<'a>>>() {
            Ok(v) => Ok(RawInstruction::InvokeSpecial { index: v }),
            Err(e) => Err(e),
        },
        0xb8 => match decoder.read::<cpool::Index<cpool::Item<'a>>>() {
            Ok(v) => Ok(RawInstruction::InvokeStatic { index: v }),
            Err(e) => Err(e),
        },
        0xb6 => match decoder.read::<cpool::Index<cpool::MethodRef>>() {
            Ok(v) => Ok(RawInstruction::InvokeVirtual { index: v }),
            Err(e) => Err(e),
        },
        0x36 => match decoder.read::<u8>() {
            Ok(v) => Ok(RawInstruction::IStore { index: v }),
            Err(e) => Err(e),
        },
        0xa8 => match decoder.read::<i16>() {
            Ok(v) => Ok(RawInstruction::JSr { offset: v }),
            Err(e) => Err(e),
        },
        0xc9 => match decoder.read::<i32>() {
            Ok(v) => Ok(RawInstruction::JSrW { offset: v }),
            Err(e) => Err(e),
        },
        0x13 => match decoder.read::<cpool::Index<cpool::Item<'a>>>() {
            Ok(v) => Ok(RawInstruction::LdCW { index: v }),
            Err(e) => Err(e),
        },
        0x14 => match decoder.read::<cpool::Index<cpool::Item<'a>>>() {
            Ok(v) => Ok(RawInstruction::LdC2W { index: v }),
            Err(e) => Err(e),
        },
        0x16 => match decoder.read::<u8>() {
            Ok(v) => Ok(RawInstruction::LLoad { index: v }),
            Err(e) => Err(e),
        },
        0x37 => match decoder.read::<u8>() {
            Ok(v) => Ok(RawInstruction::LStore { index: v }),
            Err(e) => Err(e),
        },
        0xc5 => match decoder.read::<(cpool::Index<cpool::Class>, u8)>() {
            Ok((index, dimensions)) => Ok(RawInstruction::MultiANewArray { index, dimensions }),
            Err(e) => Err(e),
        },
        0xbb => match decoder.read::<cpool::Index<cpool::Class>>() {
            Ok(v) => Ok(RawInstruction::New { index: v }),
            Err(e) => Err(e),
        },
        0xbc => match decoder.read::<ArrayType>() {
            Ok(v) => Ok(RawInstruction::NewArray { atype: v }),
            Err(e) => Err(e),
        },
        0xb5 => match decoder.read::<cpool::Index<cpool::FieldRef>>() {
            Ok(v) => Ok(RawInstruction::PutField { index: v }),
            Err(e) => Err(e),
        },
        0xb3 => match decoder.read::<cpool::Index<cpool::FieldRef>>() {
            Ok(v) => Ok(RawInstruction::PutStatic { index: v }),
            Err(e) => Err(e),
        },
        0xa9 => match decoder.read::<u8>() {
            Ok(v) => Ok(RawInstruction::Ret { index: v }),
            Err(e) => Err(e),
        },
        0x11 => match decoder.read::<i16>() {
            Ok(v) => Ok(RawInstruction::SIPush { value: v }),
            Err(e) => Err(e),
        },
        0xba => decode_invoke_dynamic(decoder),
        0xb9 => decode_invoke_interface(decoder),
        0x12 => decode_ldc(decoder),
        0xab => decode_lookup_switch(decoder, method_start),
        0xaa => decode_table_switch(decoder, method_start),
        0xc4 => decode_wide(decoder),
        _ => Err(DecodeError::from_decoder(DecodeErrorKind::InvalidInstruction, decoder)),
    }
}

/// Reading one instruction: its opcode, then its operands.
pub open spec fn spec_instruction<'a>(d: Decoder<'a>, method_start: usize) -> (Result<RawInstruction<'a>, DecodeError>, Decoder<'a>) {
    let (r, d1) = <u8 as Decode<'a>>::spec_decode(d);
    match r {
        Err(e) => (Err(e), d1),
        Ok(opcode) => match plain_instruction::<'a>(opcode) {
            Some(insn) => (Ok(insn), d1),
            None => spec_operands(opcode, d1, method_start),
        },
    }
}

impl<'a> RawInstruction<'a> {
    /// Reads one instruction; `method_start` is the position of the method's first instruction.
    pub(crate) fn decode(decoder: &mut Decoder<'a>, method_start: usize) -> (r: Result<RawInstruction<'a>, DecodeError>)
        requires
            old(decoder).pos() >= method_start,
        ensures
            (r, *final(decoder)) == spec_instruction(*old(decoder), method_start),
            final(decoder).follows(*old(decoder)),
    {
        let opcode: u8 = match decoder.read() {
            Ok(opcode) => opcode,
            Err(e) => return Err(e),
        };
        match plain_instruction_of(opcode) {
            Some(insn) => Ok(insn),
            None => decode_operands(opcode, decoder, method_start),
        }
    }
}


/// The opcodes without operands (JVMS §6.5): each stands for its instruction, whatever follows
/// it, and takes one byte.
pub proof fn lemma_plain_opcodes<'a>(d: Decoder<'a>, method_start: usize)
    requires
        d.in_bounds(),
        d.remaining() >= 1,
    ensures
        ({
            let op = d.bytes()[0];
            let (r, after) = spec_instruction(d, method_start);
            &&& op == 0x00 ==> r == Ok::<RawInstruction<'a>, DecodeError>(RawInstruction::Nop) && after == d.spec_advance(1)
            &&& op == 0x01 ==> r == Ok::<RawInstruction<'a>, DecodeError>(RawInstruction::AConstNull) && after == d.spec_advance(1)
            &&& op == 0x02 ==> r == Ok::<RawInstruction<'a>, DecodeError>(RawInstruction::IConstM1) && after == d.spec_advance(1)
            &&& op == 0x03 ==> r == Ok::<RawInstruction<'a>, DecodeError>(RawInstruction::IConst0) && after == d.spec_advance(1)
            &&& op == 0x04 ==> r == Ok::<RawInstruction<'a>, DecodeError>(RawInstruction::IConst1) && after == d.spec_advance(1)
            &&& op == 0x05 ==> r == Ok::<RawInstruction<'a>, DecodeError>(RawInstruction::IConst2) && after == d.spec_advance(1)
            &&& op == 0x06 ==> r == Ok::<RawInstruction<'a>, DecodeError>(RawInstruction::IConst3) && after == d.spec_advance(1)
            &&& op == 0x07 ==> r == Ok::<RawInstruction<'a>, DecodeError>(RawInstruction::IConst4) && after == d.spec_advance(1)
            &&& op == 0x08 ==> r == Ok::<RawInstruction<'a>, DecodeError>(RawInstruction::IConst5) && after == d.spec_advance(1)
            &&& op == 0x09 ==> r == Ok::<RawInstruction<'a>, DecodeError>(RawInstruction::LConst0) && after == d.spec_advance(1)
            &&& op == 0x0a ==> r == Ok::<RawInstruction<'a>, DecodeError>(RawInstruction::LConst1) && after == d.spec_advance(1)
            &&& op == 0x0b ==> r == Ok::<RawInstruction<'a>, DecodeError>(RawInstruction::FConst0) && after == d.spec_advance(1)
            &&& op == 0x0c ==> r == Ok::<RawInstruction<'a>, DecodeError>(RawInstruction::FConst1) && after == d.spec_advance(1)
            &&& op == 0x0d ==> r == Ok::<RawInstruction<'a>, DecodeError>(RawInstruction::FConst2) && after == d.spec_advance(1)
            &&& op == 0x0e ==> r == Ok::<RawInstruction<'a>, DecodeError>(RawInstruction::DConst0) && after == d.spec_advance(1)
            &&& op == 0x0f ==> r == Ok::<RawInstruction<'a>, DecodeError>(RawInstruction::DConst1) && after == d.spec_advance(1)
            &&& op == 0x1a ==> r == Ok::<RawInstruction<'a>, DecodeError>(RawInstruction::ILoad0) && after == d.spec_advance(1)
            &&& op == 0x1b ==> r == Ok::<RawInstruction<'a>, DecodeError>(RawInstruction::ILoad1) && after == d.spec_advance(1)
            &&& op == 0x1c ==> r == Ok::<RawInstruction<'a>, DecodeError>(RawInstruction::ILoad2) && after == d.spec_advance(1)
            &&& op == 0x1d ==> r == Ok::<RawInstruction<'a>, DecodeError>(RawInstruction::ILoad3) && after == d.spec_advance(1)
            &&& op == 0x1e ==> r == Ok::<RawInstruction<'a>, DecodeError>(RawInstruction::LLoad0) && after == d.spec_advance(1)
            &&& op == 0x1f ==> r == Ok::<RawInstruction<'a>, DecodeError>(RawInstruction::LLoad1) && after == d.spec_advance(1)
            &&& op == 0x20 ==> r == Ok::<RawInstruction<'a>, DecodeError>(RawInstruction::LLoad2) && after == d.spec_advance(1)
            &&& op == 0x21 ==> r == Ok::<RawInstruction<'a>, DecodeError>(RawInstruction::LLoad3) && after == d.spec_advance(1)
            &&& op == 0x22 ==> r == Ok::<RawInstruction<'a>, DecodeError>(RawInstruction::FLoad0) && after == d.spec_advance(1)
            &&& op == 0x23 ==> r == Ok::<RawInstruction<'a>, DecodeError>(RawInstruction::FLoad1) && after == d.spec_advance(1)
            &&& op == 0x24 ==> r == Ok::<RawInstruction<'a>, DecodeError>(RawInstruction::FLoad2) && after == d.spec_advance(1)
            &&& op == 0x25 ==> r == Ok::<RawInstruction<'a>, DecodeError>(RawInstruction::FLoad3) && after == d.spec_advance(1)
            &&& op == 0x26 ==> r == Ok::<RawInstruction<'a>, DecodeError>(RawInstruction::DLoad0) && after == d.spec_advance(1)
            &&& op == 0x27 ==> r == Ok::<RawInstruction<'a>, DecodeError>(RawInstruction::DLoad1) && after == d.spec_advance(1)
            &&& op == 0x28 ==> r == Ok::<RawInstruction<'a>, DecodeError>(RawInstruction::DLoad2) && after == d.spec_advance(1)
            &&& op == 0x29 ==> r == Ok::<RawInstruction<'a>, DecodeError>(RawInstruction::DLoad3) && after == d.spec_advance(1)
            &&& op == 0x2a ==> r == Ok::<RawInstruction<'a>, DecodeError>(RawInstruction::ALoad0) && after == d.spec_advance(1)
            &&& op == 0x2b ==> r == Ok::<RawInstruction<'a>, DecodeError>(RawInstruction::ALoad1) && after == d.spec_advance(1)
            &&& op == 0x2c ==> r == Ok::<RawInstruction<'a>, DecodeError>(RawInstruction::ALoad2) && after == d.spec_advance(1)
            &&& op == 0x2d ==> r == Ok::<RawInstruction<'a>, DecodeError>(RawInstruction::ALoad3) && after == d.spec_advance(1)
            &&& op == 0x2e ==> r == Ok::<RawInstruction<'a>, DecodeError>(RawInstruction::IALoad) && after == d.spec_advance(1)
            &&& op == 0x2f ==> r == Ok::<RawInstruction<'a>, DecodeError>(RawInstruction::LALoad) && after == d.spec_advance(1)
            &&& op == 0x30 ==> r == Ok::<RawInstruction<'a>, DecodeError>(RawInstruction::FALoad) && after == d.spec_advance(1)
            &&& op == 0x31 ==> r == Ok::<RawInstruction<'a>, DecodeError>(RawInstruction::DALoad) && after == d.spec_advance(1)
            &&& op == 0x32 ==> r == Ok::<RawInstruction<'a>, DecodeError>(RawInstruction::AALoad) && after == d.spec_advance(1)
            &&& op == 0x33 ==> r == Ok::<RawInstruction<'a>, DecodeError>(RawInstruction::BALoad) && after == d.spec_advance(1)
            &&& op == 0x34 ==> r == Ok::<RawInstruction<'a>, DecodeError>(RawInstruction::CALoad) && after == d.spec_advance(1)
            &&& op == 0x35 ==> r == Ok::<RawInstruction<'a>, DecodeError>(RawInstruction::SALoad) && after == d.spec_advance(1)
            &&& op == 0x3b ==> r == Ok::<RawInstruction<'a>, DecodeError>(RawInstruction::IStore0) && after == d.spec_advance(1)
            &&& op == 0x3c ==> r == Ok::<RawInstruction<'a>, DecodeError>(RawInstruction::IStore1) && after == d.spec_advance(1)
            &&& op == 0x3d ==> r == Ok::<RawInstruction<'a>, DecodeError>(RawInstruction::IStore2) && after == d.spec_advance(1)
            &&& op == 0x3e ==> r == Ok::<RawInstruction<'a>, DecodeError>(RawInstruction::IStore3) && after == d.spec_advance(1)
            &&& op == 0x3f ==> r == Ok::<RawInstruction<'a>, DecodeError>(RawInstruction::LStore0) && after == d.spec_advance(1)
            &&& op == 0x40 ==> r == Ok::<RawInstruction<'a>, DecodeError>(RawInstruction::LStore1) && after == d.spec_advance(1)
            &&& op == 0x41 ==> r == Ok::<RawInstruction<'a>, DecodeError>(RawInstruction::LStore2) && after == d.spec_advance(1)
            &&& op == 0x42 ==> r == Ok::<RawInstruction<'a>, DecodeError>(RawInstruction::LStore3) && after == d.spec_advance(1)
            &&& op == 0x43 ==> r == Ok::<RawInstruction<'a>, DecodeError>(RawInstruction::FStore0) && after == d.spec_advance(1)
            &&& op == 0x44 ==> r == Ok::<RawInstruction<'a>, DecodeError>(RawInstruction::FStore1) && after == d.spec_advance(1)
            &&& op == 0x45 ==> r == Ok::<RawInstruction<'a>, DecodeError>(RawInstruction::FStore2) && after == d.spec_advance(1)
            &&& op == 0x46 ==> r == Ok::<RawInstruction<'a>, DecodeError>(RawInstruction::FStore3) && after == d.spec_advance(1)
            &&& op == 0x47 ==> r == Ok::<RawInstruction<'a>, DecodeError>(RawInstruction::DStore0) && after == d.spec_advance(1)
            &&& op == 0x48 ==> r == Ok::<RawInstruction<'a>, DecodeError>(RawInstruction::DStore1) && after == d.spec_advance(1)
            &&& op == 0x49 ==> r == Ok::<RawInstruction<'a>, DecodeError>(RawInstruction::DStore2) && after == d.spec_advance(1)
            &&& op == 0x4a ==> r == Ok::<RawInstruction<'a>, DecodeError>(RawInstruction::DStore3) && after == d.spec_advance(1)
            &&& op == 0x4b ==> r == Ok::<RawInstruction<'a>, DecodeError>(RawInstruction::AStore0) && after == d.spec_advance(1)
            &&& op == 0x4c ==> r == Ok::<RawInstruction<'a>, DecodeError>(RawInstruction::AStore1) && after == d.spec_advance(1)
            &&& op == 0x4d ==> r == Ok::<RawInstruction<'a>, DecodeError>(RawInstruction::AStore2) && after == d.spec_advance(1)
            &&& op == 0x4e ==> r == Ok::<RawInstruction<'a>, DecodeError>(RawInstruction::AStore3) && after == d.spec_advance(1)
            &&& op == 0x4f ==> r == Ok::<RawInstruction<'a>, DecodeError>(RawInstruction::IAStore) && after == d.spec_advance(1)
            &&& op == 0x50 ==> r == Ok::<RawInstruction<'a>, DecodeError>(RawInstruction::LAStore) && after == d.spec_advance(1)
            &&& op == 0x51 ==> r == Ok::<RawInstruction<'a>, DecodeError>(RawInstruction::FAStore) && after == d.spec_advance(1)
            &&& op == 0x52 ==> r == Ok::<RawInstruction<'a>, DecodeError>(RawInstruction::DAStore) && after == d.spec_advance(1)
            &&& op == 0x53 ==> r == Ok::<RawInstruction<'a>, DecodeError>(RawInstruction::AAStore) && after == d.spec_advance(1)
            &&& op == 0x54 ==> r == Ok::<RawInstruction<'a>, DecodeError>(RawInstruction::BAStore) && after == d.spec_advance(1)
            &&& op == 0x55 ==> r == Ok::<RawInstruction<'a>, DecodeError>(RawInstruction::CAStore) && after == d.spec_advance(1)
            &&& op == 0x56 ==> r == Ok::<RawInstruction<'a>, DecodeError>(RawInstruction::SAStore) && after == d.spec_advance(1)
            &&& op == 0x57 ==> r == Ok::<RawInstruction<'a>, DecodeError>(RawInstruction::Pop) && after == d.spec_advance(1)
            &&& op == 0x58 ==> r == Ok::<RawInstruction<'a>, DecodeError>(RawInstruction::Pop2) && after == d.spec_advance(1)
            &&& op == 0x59 ==> r == Ok::<RawInstruction<'a>, DecodeError>(RawInstruction::Dup) && after == d.spec_advance(1)
            &&& op == 0x5a ==> r == Ok::<RawInstruction<'a>, DecodeError>(RawInstruction::DupX1) && after == d.spec_advance(1)
            &&& op == 0x5b ==> r == Ok::<RawInstruction<'a>, DecodeError>(RawInstruction::DupX2) && after == d.spec_advance(1)
            &&& op == 0x5c ==> r == Ok::<RawInstruction<'a>, DecodeError>(RawInstruction::Dup2) && after == d.spec_advance(1)
            &&& op == 0x5d ==> r == Ok::<RawInstruction<'a>, DecodeError>(RawInstruction::Dup2X1) && after == d.spec_advance(1)
            &&& op == 0x5e ==> r == Ok::<RawInstruction<'a>, DecodeError>(RawInstruction::Dup2X2) && after == d.spec_advance(1)
            &&& op == 0x5f ==> r == Ok::<RawInstruction<'a>, DecodeError>(RawInstruction::Swap) && after == d.spec_advance(1)
            &&& op == 0x60 ==> r == Ok::<RawInstruction<'a>, DecodeError>(RawInstruction::IAdd) && after == d.spec_advance(1)
            &&& op == 0x61 ==> r == Ok::<RawInstruction<'a>, DecodeError>(RawInstruction::LAdd) && after == d.spec_advance(1)
            &&& op == 0x62 ==> r == Ok::<RawInstruction<'a>, DecodeError>(RawInstruction::FAdd) && after == d.spec_advance(1)
            &&& op == 0x63 ==> r == Ok::<RawInstruction<'a>, DecodeError>(RawInstruction::DAdd) && after == d.spec_advance(1)
            &&& op == 0x64 ==> r == Ok::<RawInstruction<'a>, DecodeError>(RawInstruction::ISub) && after == d.spec_advance(1)
            &&& op == 0x65 ==> r == Ok::<RawInstruction<'a>, DecodeError>(RawInstruction::LSub) && after == d.spec_advance(1)
            &&& op == 0x66 ==> r == Ok::<RawInstruction<'a>, DecodeError>(RawInstruction::FSub) && after == d.spec_advance(1)
            &&& op == 0x67 ==> r == Ok::<RawInstruction<'a>, DecodeError>(RawInstruction::DSub) && after == d.spec_advance(1)
            &&& op == 0x68 ==> r == Ok::<RawInstruction<'a>, DecodeError>(RawInstruction::IMul) && after == d.spec_advance(1)
            &&& op == 0x69 ==> r == Ok::<RawInstruction<'a>, DecodeError>(RawInstruction::LMul) && after == d.spec_advance(1)
            &&& op == 0x6a ==> r == Ok::<RawInstruction<'a>, DecodeError>(RawInstruction::FMul) && after == d.spec_advance(1)
            &&& op == 0x6b ==> r == Ok::<RawInstruction<'a>, DecodeError>(RawInstruction::DMul) && after == d.spec_advance(1)
            &&& op == 0x6c ==> r == Ok::<RawInstruction<'a>, DecodeError>(RawInstruction::IDiv) && after == d.spec_advance(1)
            &&& op == 0x6d ==> r == Ok::<RawInstruction<'a>, DecodeError>(RawInstruction::LDiv) && after == d.spec_advance(1)
            &&& op == 0x6e ==> r == Ok::<RawInstruction<'a>, DecodeError>(RawInstruction::FDiv) && after == d.spec_advance(1)
            &&& op == 0x6f ==> r == Ok::<RawInstruction<'a>, DecodeError>(RawInstruction::DDiv) && after == d.spec_advance(1)
            &&& op == 0x70 ==> r == Ok::<RawInstruction<'a>, DecodeError>(RawInstruction::IRem) && after == d.spec_advance(1)
            &&& op == 0x71 ==> r == Ok::<RawInstruction<'a>, DecodeError>(RawInstruction::LRem) && after == d.spec_advance(1)
            &&& op == 0x72 ==> r == Ok::<RawInstruction<'a>, DecodeError>(RawInstruction::FRem) && after == d.spec_advance(1)
            &&& op == 0x73 ==> r == Ok::<RawInstruction<'a>, DecodeError>(RawInstruction::DRem) && after == d.spec_advance(1)
            &&& op == 0x74 ==> r == Ok::<RawInstruction<'a>, DecodeError>(RawInstruction::INeg) && after == d.spec_advance(1)
            &&& op == 0x75 ==> r == Ok::<RawInstruction<'a>, DecodeError>(RawInstruction::LNeg) && after == d.spec_advance(1)
            &&& op == 0x76 ==> r == Ok::<RawInstruction<'a>, DecodeError>(RawInstruction::FNeg) && after == d.spec_advance(1)
            &&& op == 0x77 ==> r == Ok::<RawInstruction<'a>, DecodeError>(RawInstruction::DNeg) && after == d.spec_advance(1)
            &&& op == 0x78 ==> r == Ok::<RawInstruction<'a>, DecodeError>(RawInstruction::IShL) && after == d.spec_advance(1)
            &&& op == 0x79 ==> r == Ok::<RawInstruction<'a>, DecodeError>(RawInstruction::LShL) && after == d.spec_advance(1)
            &&& op == 0x7a ==> r == Ok::<RawInstruction<'a>, DecodeError>(RawInstruction::IShR) && after == d.spec_advance(1)
            &&& op == 0x7b ==> r == Ok::<RawInstruction<'a>, DecodeError>(RawInstruction::LShR) && after == d.spec_advance(1)
            &&& op == 0x7c ==> r == Ok::<RawInstruction<'a>, DecodeError>(RawInstruction::IUShR) && after == d.spec_advance(1)
            &&& op == 0x7d ==> r == Ok::<RawInstruction<'a>, DecodeError>(RawInstruction::LUShR) && after == d.spec_advance(1)
            &&& op == 0x7e ==> r == Ok::<RawInstruction<'a>, DecodeError>(RawInstruction::IAnd) && after == d.spec_advance(1)
            &&& op == 0x7f ==> r == Ok::<RawInstruction<'a>, DecodeError>(RawInstruction::LAnd) && after == d.spec_advance(1)
            &&& op == 0x80 ==> r == Ok::<RawInstruction<'a>, DecodeError>(RawInstruction::IOr) && after == d.spec_advance(1)
            &&& op == 0x81 ==> r == Ok::<RawInstruction<'a>, DecodeError>(RawInstruction::LOr) && after == d.spec_advance(1)
            &&& op == 0x82 ==> r == Ok::<RawInstruction<'a>, DecodeError>(RawInstruction::IXor) && after == d.spec_advance(1)
            &&& op == 0x83 ==> r == Ok::<RawInstruction<'a>, DecodeError>(RawInstruction::LXor) && after == d.spec_advance(1)
            &&& op == 0x85 ==> r == Ok::<RawInstruction<'a>, DecodeError>(RawInstruction::I2L) && after == d.spec_advance(1)
            &&& op == 0x86 ==> r == Ok::<RawInstruction<'a>, DecodeError>(RawInstruction::I2F) && after == d.spec_advance(1)
            &&& op == 0x87 ==> r == Ok::<RawInstruction<'a>, DecodeError>(RawInstruction::I2D) && after == d.spec_advance(1)
            &&& op == 0x88 ==> r == Ok::<RawInstruction<'a>, DecodeError>(RawInstruction::L2I) && after == d.spec_advance(1)
            &&& op == 0x89 ==> r == Ok::<RawInstruction<'a>, DecodeError>(RawInstruction::L2F) && after == d.spec_advance(1)
            &&& op == 0x8a ==> r == Ok::<RawInstruction<'a>, DecodeError>(RawInstruction::L2D) && after == d.spec_advance(1)
            &&& op == 0x8b ==> r == Ok::<RawInstruction<'a>, DecodeError>(RawInstruction::F2I) && after == d.spec_advance(1)
            &&& op == 0x8c ==> r == Ok::<RawInstruction<'a>, DecodeError>(RawInstruction::F2L) && after == d.spec_advance(1)
            &&& op == 0x8d ==> r == Ok::<RawInstruction<'a>, DecodeError>(RawInstruction::F2D) && after == d.spec_advance(1)
            &&& op == 0x8e ==> r == Ok::<RawInstruction<'a>, DecodeError>(RawInstruction::D2I) && after == d.spec_advance(1)
            &&& op == 0x8f ==> r == Ok::<RawInstruction<'a>, DecodeError>(RawInstruction::D2L) && after == d.spec_advance(1)
            &&& op == 0x90 ==> r == Ok::<RawInstruction<'a>, DecodeError>(RawInstruction::D2F) && after == d.spec_advance(1)
            &&& op == 0x91 ==> r == Ok::<RawInstruction<'a>, DecodeError>(RawInstruction::I2B) && after == d.spec_advance(1)
            &&& op == 0x92 ==> r == Ok::<RawInstruction<'a>, DecodeError>(RawInstruction::I2C) && after == d.spec_advance(1)
            &&& op == 0x93 ==> r == Ok::<RawInstruction<'a>, DecodeError>(RawInstruction::I2S) && after == d.spec_advance(1)
            &&& op == 0x94 ==> r == Ok::<RawInstruction<'a>, DecodeError>(RawInstruction::LCmp) && after == d.spec_advance(1)
            &&& op == 0x95 ==> r == Ok::<RawInstruction<'a>, DecodeError>(RawInstruction::FCmpL) && after == d.spec_advance(1)
            &&& op == 0x96 ==> r == Ok::<RawInstruction<'a>, DecodeError>(RawInstruction::FCmpG) && after == d.spec_advance(1)
            &&& op == 0x97 ==> r == Ok::<RawInstruction<'a>, DecodeError>(RawInstruction::DCmpL) && after == d.spec_advance(1)
            &&& op == 0x98 ==> r == Ok::<RawInstruction<'a>, DecodeError>(RawInstruction::DCmpG) && after == d.spec_advance(1)
            &&& op == 0xac ==> r == Ok::<RawInstruction<'a>, DecodeError>(RawInstruction::IReturn) && after == d.spec_advance(1)
            &&& op == 0xad ==> r == Ok::<RawInstruction<'a>, DecodeError>(RawInstruction::LReturn) && after == d.spec_advance(1)
            &&& op == 0xae ==> r == Ok::<RawInstruction<'a>, DecodeError>(RawInstruction::FReturn) && after == d.spec_advance(1)
            &&& op == 0xaf ==> r == Ok::<RawInstruction<'a>, DecodeError>(RawInstruction::DReturn) && after == d.spec_advance(1)
            &&& op == 0xb0 ==> r == Ok::<RawInstruction<'a>, DecodeError>(RawInstruction::AReturn) && after == d.spec_advance(1)
            &&& op == 0xb1 ==> r == Ok::<RawInstruction<'a>, DecodeError>(RawInstruction::Return) && after == d.spec_advance(1)
            &&& op == 0xbe ==> r == Ok::<RawInstruction<'a>, DecodeError>(RawInstruction::ArrayLength) && after == d.spec_advance(1)
            &&& op == 0xbf ==> r == Ok::<RawInstruction<'a>, DecodeError>(RawInstruction::AThrow) && after == d.spec_advance(1)
            &&& op == 0xc2 ==> r == Ok::<RawInstruction<'a>, DecodeError>(RawInstruction::MonitorEnter) && after == d.spec_advance(1)
            &&& op == 0xc3 ==> r == Ok::<RawInstruction<'a>, DecodeError>(RawInstruction::MonitorExit) && after == d.spec_advance(1)
        }),
{
    lemma_read_byte(d);
}

/// The opcodes with operands (JVMS §6.5): an instruction read from one of them is the one that
/// the opcode stands for; opcodes that the JVM specification does not assign are refused.
pub proof fn lemma_operand_opcodes<'a>(d: Decoder<'a>, method_start: usize)
    requires
        d.in_bounds(),
        d.remaining() >= 1,
    ensures
        ({
            let op = d.bytes()[0];
            let r = spec_instruction(d, method_start).0;
            &&& op == 0x10 ==> (r is Ok ==> r->Ok_0 is BIPush)
            &&& op == 0x11 ==> (r is Ok ==> r->Ok_0 is SIPush)
            &&& op == 0x12 ==> (r is Ok ==> r->Ok_0 is LdC)
            &&& op == 0x13 ==> (r is Ok ==> r->Ok_0 is LdCW)
            &&& op == 0x14 ==> (r is Ok ==> r->Ok_0 is LdC2W)
            &&& op == 0x15 ==> (r is Ok ==> r->Ok_0 is ILoad)
            &&& op == 0x16 ==> (r is Ok ==> r->Ok_0 is LLoad)
            &&& op == 0x17 ==> (r is Ok ==> r->Ok_0 is FLoad)
            &&& op == 0x18 ==> (r is Ok ==> r->Ok_0 is DLoad)
            &&& op == 0x19 ==> (r is Ok ==> r->Ok_0 is ALoad)
            &&& op == 0x36 ==> (r is Ok ==> r->Ok_0 is IStore)
            &&& op == 0x37 ==> (r is Ok ==> r->Ok_0 is LStore)
            &&& op == 0x38 ==> (r is Ok ==> r->Ok_0 is FStore)
            &&& op == 0x39 ==> (r is Ok ==> r->Ok_0 is DStore)
            &&& op == 0x3a ==> (r is Ok ==> r->Ok_0 is AStore)
            &&& op == 0x84 ==> (r is Ok ==> r->Ok_0 is IInc)
            &&& op == 0x99 ==> (r is Ok ==> r->Ok_0 is IfEq)
            &&& op == 0x9a ==> (r is Ok ==> r->Ok_0 is IfNe)
            &&& op == 0x9b ==> (r is Ok ==> r->Ok_0 is IfLt)
            &&& op == 0x9c ==> (r is Ok ==> r->Ok_0 is IfGe)
            &&& op == 0x9d ==> (r is Ok ==> r->Ok_0 is IfGt)
            &&& op == 0x9e ==> (r is Ok ==> r->Ok_0 is IfLe)
            &&& op == 0x9f ==> (r is Ok ==> r->Ok_0 is IfICmpEq)
            &&& op == 0xa0 ==> (r is Ok ==> r->Ok_0 is IfICmpNe)
            &&& op == 0xa1 ==> (r is Ok ==> r->Ok_0 is IfICmpLt)
            &&& op == 0xa2 ==> (r is Ok ==> r->Ok_0 is IfICmpGe)
            &&& op == 0xa3 ==> (r is Ok ==> r->Ok_0 is IFICmpGt)
            &&& op == 0xa4 ==> (r is Ok ==> r->Ok_0 is IfICmpLe)
            &&& op == 0xa5 ==> (r is Ok ==> r->Ok_0 is IfACmpEq)
            &&& op == 0xa6 ==> (r is Ok ==> r->Ok_0 is IfACmpNe)
            &&& op == 0xa7 ==> (r is Ok ==> r->Ok_0 is Goto)
            &&& op == 0xa8 ==> (r is Ok ==> r->Ok_0 is JSr)
            &&& op == 0xa9 ==> (r is Ok ==> r->Ok_0 is Ret)
            &&& op == 0xaa ==> (r is Ok ==> r->Ok_0 is TableSwitch)
            &&& op == 0xab ==> (r is Ok ==> r->Ok_0 is LookUpSwitch)
            &&& op == 0xb2 ==> (r is Ok ==> r->Ok_0 is GetStatic)
            &&& op == 0xb3 ==> (r is Ok ==> r->Ok_0 is PutStatic)
            &&& op == 0xb4 ==> (r is Ok ==> r->Ok_0 is GetField)
            &&& op == 0xb5 ==> (r is Ok ==> r->Ok_0 is PutField)
            &&& op == 0xb6 ==> (r is Ok ==> r->Ok_0 is InvokeVirtual)
            &&& op == 0xb7 ==> (r is Ok ==> r->Ok_0 is InvokeSpecial)
            &&& op == 0xb8 ==> (r is Ok ==> r->Ok_0 is InvokeStatic)
            &&& op == 0xb9 ==> (r is Ok ==> r->Ok_0 is InvokeInterface)
            &&& op == 0xba ==> (r is Ok ==> r->Ok_0 is InvokeDynamic)
            &&& op == 0xbb ==> (r is Ok ==> r->Ok_0 is New)
            &&& op == 0xbc ==> (r is Ok ==> r->Ok_0 is NewArray)
            &&& op == 0xbd ==> (r is Ok ==> r->Ok_0 is ANewArray)
            &&& op == 0xc0 ==> (r is Ok ==> r->Ok_0 is CheckCast)
            &&& op == 0xc1 ==> (r is Ok ==> r->Ok_0 is InstanceOf)
            &&& op == 0xc5 ==> (r is Ok ==> r->Ok_0 is MultiANewArray)
            &&& op == 0xc6 ==> (r is Ok ==> r->Ok_0 is IfNull)
            &&& op == 0xc7 ==> (r is Ok ==> r->Ok_0 is IfNonNull)
            &&& op == 0xc8 ==> (r is Ok ==> r->Ok_0 is GotoW)
            &&& op == 0xc9 ==> (r is Ok ==> r->Ok_0 is JSrW)
            &&& op >= 0xca ==> r is Err
        }),
{
    lemma_read_byte(d);
}

/// The instructions that `wide` widens (JVMS §6.5 `wide`): the opcode after it decides the
/// widened instruction, and any other opcode after it is refused.
pub proof fn lemma_wide_opcodes<'a>(d: Decoder<'a>, method_start: usize)
    requires
        d.in_bounds(),
        d.remaining() >= 2,
        d.bytes()[0] == 0xc4,
    ensures
        ({
            let op = d.bytes()[1];
            let r = spec_instruction(d, method_start).0;
            &&& op == 0x15 ==> (r is Ok ==> r->Ok_0 is ILoadW)
            &&& op == 0x16 ==> (r is Ok ==> r->Ok_0 is LLoadW)
            &&& op == 0x17 ==> (r is Ok ==> r->Ok_0 is FLoadW)
            &&& op == 0x18 ==> (r is Ok ==> r->Ok_0 is DLoadW)
            &&& op == 0x19 ==> (r is Ok ==> r->Ok_0 is ALoadW)
            &&& op == 0x36 ==> (r is Ok ==> r->Ok_0 is IStoreW)
            &&& op == 0x37 ==> (r is Ok ==> r->Ok_0 is LStoreW)
            &&& op == 0x38 ==> (r is Ok ==> r->Ok_0 is FStoreW)
            &&& op == 0x39 ==> (r is Ok ==> r->Ok_0 is DStoreW)
            &&& op == 0x3a ==> (r is Ok ==> r->Ok_0 is AStoreW)
            &&& op == 0xa9 ==> (r is Ok ==> r->Ok_0 is RetW)
            &&& op == 0x84 ==> (r is Ok ==> r->Ok_0 is IIncW)
            &&& (op != 0x15 && op != 0x16 && op != 0x17 && op != 0x18 && op != 0x19 && op != 0x36 && op != 0x37 && op != 0x38 && op != 0x39 && op != 0x3a && op != 0xa9 && op != 0x84) ==> r is Err
        }),
{
    lemma_read_byte(d);
    lemma_read_byte(d.spec_advance(1));
    assert(d.spec_advance(1).bytes()[0] == d.bytes()[1]);
}

/// The element type of an array that `newarray` creates.
#[derive(Debug, Copy, Clone, PartialEq, Eq, Structural)]
pub enum ArrayType {
    Boolean,
    Char,
    Float,
    Double,
    Byte,
    Short,
    Int,
    Long,
}

/// The element type that a tag of `newarray` stands for.
pub open spec fn array_type_of_tag(tag: u8) -> Option<ArrayType> {
    match tag {
        4 => Some(ArrayType::Boolean),
        5 => Some(ArrayType::Char),
        6 => Some(ArrayType::Float),
        7 => Some(ArrayType::Double),
        8 => Some(ArrayType::Byte),
        9 => Some(ArrayType::Short),
        10 => Some(ArrayType::Int),
        11 => Some(ArrayType::Long),
        _ => None,
    }
}

impl<'a> Decode<'a> for ArrayType {
    /// Reads a tag between 4 and 11.
    open spec fn spec_decode(decoder: Decoder<'a>) -> (Result<ArrayType, DecodeError>, Decoder<'a>) {
        let (r, after) = <u8 as Decode<'a>>::spec_decode(decoder);
        match r {
            Err(e) => (Err(e), after),
            Ok(tag) => match array_type_of_tag(tag) {
                Some(t) => (Ok(t), after),
                None => (Err(after.error_here(DecodeErrorKind::InvalidTag)), after),
            },
        }
    }

    fn decode(decoder: &mut Decoder<'a>) -> (r: Result<ArrayType, DecodeError>) {
        let tag: u8 = match decoder.read() {
            Ok(tag) => tag,
            Err(e) => return Err(e),
        };
        match tag {
            4 => Ok(ArrayType::Boolean),
            5 => Ok(ArrayType::Char),
            6 => Ok(ArrayType::Float),
            7 => Ok(ArrayType::Double),
            8 => Ok(ArrayType::Byte),
            9 => Ok(ArrayType::Short),
            10 => Ok(ArrayType::Int),
            11 => Ok(ArrayType::Long),
            _ => Err(DecodeError::from_decoder(DecodeErrorKind::InvalidTag, decoder)),
        }
    }
}

/// The element types of `newarray` (JVMS §6.5 `newarray`, Table 6.5.newarray-A): each `atype`
/// code from 4 to 11 stands for its type, and any other code is refused.
pub proof fn lemma_array_type_codes<'a>(d: Decoder<'a>)
    requires
        d.in_bounds(),
        d.remaining() >= 1,
    ensures
        ({
            let code = d.bytes()[0];
            let r = <ArrayType as Decode<'a>>::spec_decode(d).0;
            &&& code == 4 ==> r == Ok::<ArrayType, DecodeError>(ArrayType::Boolean)
            &&& code == 5 ==> r == Ok::<ArrayType, DecodeError>(ArrayType::Char)
            &&& code == 6 ==> r == Ok::<ArrayType, DecodeError>(ArrayType::Float)
            &&& code == 7 ==> r == Ok::<ArrayType, DecodeError>(ArrayType::Double)
            &&& code == 8 ==> r == Ok::<ArrayType, DecodeError>(ArrayType::Byte)
            &&& code == 9 ==> r == Ok::<ArrayType, DecodeError>(ArrayType::Short)
            &&& code == 10 ==> r == Ok::<ArrayType, DecodeError>(ArrayType::Int)
            &&& code == 11 ==> r == Ok::<ArrayType, DecodeError>(ArrayType::Long)
            &&& (code < 4 || code > 11) ==> r is Err
        }),
{
    lemma_read_byte(d);
}

/// The operands of `lookupswitch`.
#[derive(Debug, Clone, Copy)]
pub struct LookUpSwitch<'a> {
    pub(crate) default_offset: i32,
    pub(crate) pairs: LookUpPairs<'a>,
}

impl<'a> LookUpSwitch<'a> {
    pub open(crate) spec fn spec_new(default_offset: i32, pairs: LookUpPairs<'a>) -> LookUpSwitch<'a> {
        LookUpSwitch { default_offset, pairs }
    }

    pub open(crate) spec fn spec_default_offset(self) -> i32 {
        self.default_offset
    }

    pub open(crate) spec fn spec_pairs(self) -> LookUpPairs<'a> {
        self.pairs
    }

    pub fn default_offset(&self) -> (r: i32)
        ensures
            r == self.spec_default_offset(),
    {
        self.default_offset
    }

    pub fn pairs(&self) -> (r: LookUpPairs<'a>)
        ensures
            r == self.spec_pairs(),
    {
        self.pairs
    }
}

/// The key and offset pairs of a `lookupswitch`.
#[derive(Debug, Clone, Copy)]
pub struct LookUpPairs<'a> {
    pub(crate) decoder: Decoder<'a>,
}

impl<'a> LookUpPairs<'a> {
    pub open(crate) spec fn spec_new(decoder: Decoder<'a>) -> LookUpPairs<'a> {
        LookUpPairs { decoder }
    }

    pub open(crate) spec fn spec_decoder(self) -> Decoder<'a> {
        self.decoder
    }

    /// Reads the next pair: a key, then an offset.
    pub fn next(&mut self) -> (r: Option<LookUpPair>)
        ensures
            ({
                let (res, after) = <(i32, i32) as Decode<'a>>::spec_decode(old(self).spec_decoder());
                &&& final(self).spec_decoder() == after
                &&& match res {
                    Ok(p) => r == Some(LookUpPair::spec_new(p.0, p.1)),
                    Err(_) => r is None,
                }
            }),
    {
        match self.decoder.read::<(i32, i32)>() {
            Ok((key, offset)) => Some(LookUpPair { key, offset }),
            Err(_) => None,
        }
    }
}

impl<'a> Decode<'a> for LookUpPairs<'a> {
    /// Reads the number of pairs, then takes eight bytes for each.
    open spec fn spec_decode(decoder: Decoder<'a>) -> (Result<LookUpPairs<'a>, DecodeError>, Decoder<'a>) {
        let (rc, d) = <i32 as Decode<'a>>::spec_decode(decoder);
        match rc {
            Err(e) => (Err(e), d),
            Ok(count) => if count < 0 {
                (Err(d.error_here(DecodeErrorKind::InvalidInstruction)), d)
            } else {
                match d.spec_try_limit(count * 8, Context::Code) {
                    Err(e) => (Err(e), d),
                    Ok(pairs) => (Ok(LookUpPairs::spec_new(pairs)), d.spec_advance(count * 8)),
                }
            },
        }
    }

    fn decode(decoder: &mut Decoder<'a>) -> (r: Result<LookUpPairs<'a>, DecodeError>) {
        let count: i32 = match decoder.read() {
            Ok(count) => count,
            Err(e) => return Err(e),
        };
        if count < 0 {
            return Err(DecodeError::from_decoder(DecodeErrorKind::InvalidInstruction, decoder));
        }
        let bytes: u64 = count as u64 * 8;
        if bytes > decoder.bytes_remaining() as u64 {
            return Err(DecodeError::from_decoder(DecodeErrorKind::UnexpectedEoi, decoder));
        }
        let bytes = bytes as usize;
        let pairs = match decoder.limit(bytes, Context::Code) {
            Ok(pairs) => pairs,
            Err(e) => return Err(e),
        };
        match decoder.advance(bytes) {
            Ok(()) => {},
            Err(e) => return Err(e),
        }
        Ok(LookUpPairs { decoder: pairs })
    }
}

/// A key of a `lookupswitch` and the offset that it jumps to.
#[derive(Debug, Clone, Copy)]
pub struct LookUpPair {
    pub(crate) key: i32,
    pub(crate) offset: i32,
}

impl LookUpPair {
    pub open(crate) spec fn spec_new(key: i32, offset: i32) -> LookUpPair {
        LookUpPair { key, offset }
    }

    pub open(crate) spec fn spec_key(self) -> i32 {
        self.key
    }

    pub open(crate) spec fn spec_offset(self) -> i32 {
        self.offset
    }

    pub fn key(&self) -> (r: i32)
        ensures
            r == self.spec_key(),
    {
        self.key
    }

    pub fn offset(&self) -> (r: i32)
        ensures
            r == self.spec_offset(),
    {
        self.offset
    }
}

/// The operands of `tableswitch`.
#[derive(Debug, Clone, Copy)]
pub struct TableSwitch<'a> {
    pub(crate) default_offset: i32,
    pub(crate) pairs: TablePairs<'a>,
}

impl<'a> TableSwitch<'a> {
    pub open(crate) spec fn spec_new(default_offset: i32, pairs: TablePairs<'a>) -> TableSwitch<'a> {
        TableSwitch { default_offset, pairs }
    }

    pub open(crate) spec fn spec_default_offset(self) -> i32 {
        self.default_offset
    }

    pub open(crate) spec fn spec_pairs(self) -> TablePairs<'a> {
        self.pairs
    }

    pub fn default_offset(&self) -> (r: i32)
        ensures
            r == self.spec_default_offset(),
    {
        self.default_offset
    }

    pub fn pairs(&self) -> (r: TablePairs<'a>)
        ensures
            r == self.spec_pairs(),
    {
        self.pairs
    }
}

/// The offsets of a `tableswitch`, each with the key that leads to it; the keys count up from the lowest.
#[derive(Debug, Copy)]
pub struct TablePairs<'a> {
    pub(crate) decoder: Decoder<'a>,
    pub(crate) key: i64,
}

impl<'a> Clone for TablePairs<'a> {
    fn clone(&self) -> (r: TablePairs<'a>)
        ensures
            r == *self,
    {
        *self
    }
}

impl<'a> TablePairs<'a> {
    /// The keys that are left all fit in an `i32`.
    #[verifier::type_invariant]
    pub(crate) closed spec fn inv(self) -> bool {
        &&& i32::MIN <= self.key
        &&& self.key + self.decoder.remaining() / 4 <= i32::MAX + 1
    }

    pub open(crate) spec fn spec_new(decoder: Decoder<'a>, key: i32) -> TablePairs<'a> {
        TablePairs { decoder, key: key as i64 }
    }

    pub open(crate) spec fn spec_decoder(self) -> Decoder<'a> {
        self.decoder
    }

    /// The key of the next pair.
    pub open(crate) spec fn spec_key(self) -> int {
        self.key as int
    }

    /// Reads the next offset and pairs it with the next key.
    pub fn next(&mut self) -> (r: Option<TablePair>)
        ensures
            ({
                let (res, after) = <i32 as Decode<'a>>::spec_decode(old(self).spec_decoder());
                &&& final(self).spec_decoder() == after
                &&& match res {
                    Ok(offset) => r == Some(TablePair::spec_new(old(self).spec_key() as i32, offset))
                        && final(self).spec_key() == old(self).spec_key() + 1,
                    Err(_) => r is None && final(self).spec_key() == old(self).spec_key(),
                }
            }),
    {
        proof {
            use_type_invariant(&*self);
            use_type_invariant(&self.decoder);
        }
        let mut decoder = self.decoder;
        let offset: i32 = match decoder.read() {
            Ok(offset) => offset,
            Err(_) => return None,
        };
        let key = self.key as i32;
        *self = TablePairs { decoder, key: self.key + 1 };
        Some(TablePair { key, offset })
    }
}

impl<'a> Decode<'a> for TablePairs<'a> {
    /// Reads the lowest and the highest key, then takes four bytes for each key between them.
    open spec fn spec_decode(decoder: Decoder<'a>) -> (Result<TablePairs<'a>, DecodeError>, Decoder<'a>) {
        let (rb, d) = <(i32, i32) as Decode<'a>>::spec_decode(decoder);
        match rb {
            Err(e) => (Err(e), d),
            Ok(bounds) => {
                let count = (bounds.1 - bounds.0 + 1) * 4;
                if count < 0 {
                    (Err(d.error_here(DecodeErrorKind::InvalidInstruction)), d)
                } else {
                    match d.spec_try_limit(count, Context::Code) {
                        Err(e) => (Err(e), d),
                        Ok(pairs) => (Ok(TablePairs::spec_new(pairs, bounds.0)), d.spec_advance(count)),
                    }
                }
            },
        }
    }

    fn decode(decoder: &mut Decoder<'a>) -> (r: Result<TablePairs<'a>, DecodeError>) {
        let (low, high): (i32, i32) = match decoder.read() {
            Ok(bounds) => bounds,
            Err(e) => return Err(e),
        };
        let count: i64 = (high as i64 - low as i64 + 1) * 4;
        if count < 0 {
            return Err(DecodeError::from_decoder(DecodeErrorKind::InvalidInstruction, decoder));
        }
        if count as u64 > decoder.bytes_remaining() as u64 {
            return Err(DecodeError::from_decoder(DecodeErrorKind::UnexpectedEoi, decoder));
        }
        let count = count as usize;
        let pairs = match decoder.limit(count, Context::Code) {
            Ok(pairs) => pairs,
            Err(e) => return Err(e),
        };
        match decoder.advance(count) {
            Ok(()) => {},
            Err(e) => return Err(e),
        }
        Ok(TablePairs { decoder: pairs, key: low as i64 })
    }
}

/// A key of a `tableswitch` and the offset that it jumps to.
#[derive(Debug, Clone, Copy)]
pub struct TablePair {
    pub(crate) key: i32,
    pub(crate) offset: i32,
}

impl TablePair {
    pub open(crate) spec fn spec_new(key: i32, offset: i32) -> TablePair {
        TablePair { key, offset }
    }

    pub open(crate) spec fn spec_key(self) -> i32 {
        self.key
    }

    pub open(crate) spec fn spec_offset(self) -> i32 {
        self.offset
    }

    pub fn key(&self) -> (r: i32)
        ensures
            r == self.spec_key(),
    {
        self.key
    }

    pub fn offset(&self) -> (r: i32)
        ensures
            r == self.spec_offset(),
    {
        self.offset
    }
}

/// The instructions of a method with their indices into the code table.
#[derive(Debug, Copy)]
pub struct RawInstructions<'a> {
    pub(crate) start_position: usize,
    pub(crate) decoder: Decoder<'a>,
}

impl<'a> Clone for RawInstructions<'a> {
    fn clone(&self) -> (r: RawInstructions<'a>)
        ensures
            r == *self,
    {
        *self
    }
}

impl<'a> RawInstructions<'a> {
    /// The decoder is inside the code, and every position in it fits a code index.
    #[verifier::type_invariant]
    pub(crate) open spec fn inv(self) -> bool {
        &&& self.start_position <= self.decoder.pos()
        &&& self.decoder.pos() + self.decoder.remaining() <= self.start_position + u32::MAX
    }

    /// The position of the method's first instruction.
    pub open(crate) spec fn spec_start(self) -> usize {
        self.start_position
    }

    pub open(crate) spec fn spec_decoder(self) -> Decoder<'a> {
        self.decoder
    }

    /// Reads the next instruction and its index, unless the code is used up.
    pub fn next(&mut self) -> (r: Option<Result<(code::Index, RawInstruction<'a>), DecodeError>>)
        ensures
            final(self).spec_start() == old(self).spec_start(),
            old(self).spec_decoder().remaining() == 0 ==> r is None && *final(self) == *old(self),
            old(self).spec_decoder().remaining() != 0 ==> {
                let (res, after) = spec_instruction(old(self).spec_decoder(), old(self).spec_start());
                &&& final(self).spec_decoder() == after
                &&& match res {
                    Ok(insn) => r == Some(
                        Ok::<(code::Index, RawInstruction<'a>), DecodeError>(
                            (code::Index::spec_new((old(self).spec_decoder().pos() - old(self).spec_start()) as u32), insn),
                        ),
                    ),
                    Err(e) => r == Some(Err::<(code::Index, RawInstruction<'a>), DecodeError>(e)),
                }
            },
    {
        proof {
            use_type_invariant(&*self);
            use_type_invariant(&self.decoder);
        }
        if self.decoder.bytes_remaining() == 0 {
            return None;
        }
        let position = self.decoder.file_position() - self.start_position;
        let mut decoder = self.decoder;
        let res = RawInstruction::decode(&mut decoder, self.start_position);
        *self = RawInstructions { start_position: self.start_position, decoder };
        match res {
            Ok(insn) => Some(Ok((code::Index::new(position as u32), insn))),
            Err(err) => Some(Err(err)),
        }
    }
}

} // verus!
