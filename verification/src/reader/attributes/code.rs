//! The code of a method.

pub mod locals;
pub mod raw;
pub mod stack_map;

pub use locals::{LocalVariable, LocalVariableTable, LocalVariableType, LocalVariableTypeTable};
pub use raw::{
    ArrayType, LookUpPair, LookUpPairs, LookUpSwitch, RawInstruction, RawInstructions, TablePair, TablePairs,
    TableSwitch,
};
pub use stack_map::{StackMapFrame, StackMapIter, StackMapTable, VerificationType, VerificationTypeIter};

use crate::error::{Context, DecodeError};
use crate::reader::attributes::AttributeIter;
use crate::reader::cpool;
use crate::reader::decoding::{lemma_read_u16, lemma_read_u32, Decode, DecodeInto, DecodeMany, DecodeManyIter, Decoder};
use core::marker::PhantomData;
use vstd::prelude::*;

verus! {

/// A 0-based index into the code table.
#[derive(Debug, Copy, Clone, PartialEq, Eq, Structural)]
pub struct Index {
    pub(crate) index: u32,
}

impl Index {
    pub open(crate) spec fn spec_new(index: u32) -> Index {
        Index { index }
    }

    pub open(crate) spec fn spec_as_u32(self) -> u32 {
        self.index
    }

    pub(crate) fn new(index: u32) -> (r: Index)
        ensures
            r == Index::spec_new(index),
    {
        Index { index }
    }

    pub fn as_u32(self) -> (r: u32)
        ensures
            r == self.spec_as_u32(),
    {
        self.index
    }
}

impl<'input> Decode<'input> for Index {
    /// Reads a `u32`.
    open spec fn spec_decode(decoder: Decoder<'input>) -> (Result<Index, DecodeError>, Decoder<'input>) {
        let (r, after) = <u32 as Decode<'input>>::spec_decode(decoder);
        match r {
            Ok(v) => (Ok(Index::spec_new(v)), after),
            Err(e) => (Err(e), after),
        }
    }

    fn decode(decoder: &mut Decoder<'input>) -> (r: Result<Index, DecodeError>) {
        match decoder.read::<u32>() {
            Ok(v) => Ok(Index::new(v)),
            Err(e) => Err(e),
        }
    }
}

/// The code of a method: its limits, instructions, exception handlers and attributes.
#[derive(Debug, Clone, Copy)]
pub struct Code<'input> {
    pub(crate) max_stack: u16,
    pub(crate) max_locals: u16,
    pub(crate) raw_instructions: RawInstructions<'input>,
    pub(crate) exception_handlers: ExceptionHandlers<'input>,
    pub(crate) attributes: AttributeIter<'input>,
}

impl<'input> Code<'input> {
    pub open(crate) spec fn spec_max_stack(self) -> u16 {
        self.max_stack
    }

    pub open(crate) spec fn spec_max_locals(self) -> u16 {
        self.max_locals
    }

    pub open(crate) spec fn spec_raw_instructions(self) -> RawInstructions<'input> {
        self.raw_instructions
    }

    pub open(crate) spec fn spec_exception_handlers(self) -> ExceptionHandlers<'input> {
        self.exception_handlers
    }

    pub open(crate) spec fn spec_attributes(self) -> AttributeIter<'input> {
        self.attributes
    }

    pub fn max_stack(&self) -> (r: u16)
        ensures
            r == self.spec_max_stack(),
    {
        self.max_stack
    }

    pub fn max_locals(&self) -> (r: u16)
        ensures
            r == self.spec_max_locals(),
    {
        self.max_locals
    }

    /// The instructions, from the first.
    pub fn raw_instructions(&self) -> (r: RawInstructions<'input>)
        ensures
            r == self.spec_raw_instructions(),
    {
        self.raw_instructions
    }

    /// The instructions, from the one at `index`.
    pub fn raw_instructions_from(&self, index: Index) -> (r: Result<RawInstructions<'input>, DecodeError>)
        ensures
            ({
                let all = self.spec_raw_instructions();
                let (res, after) = all.spec_decoder().spec_try_advance(index.spec_as_u32() as int);
                match res {
                    Ok(_) => r is Ok && r->Ok_0.spec_decoder() == after && r->Ok_0.spec_start() == all.spec_start(),
                    Err(e) => r == Err::<RawInstructions<'input>, DecodeError>(e),
                }
            }),
    {
        let instructions = self.raw_instructions;
        proof {
            use_type_invariant(&instructions);
            use_type_invariant(&instructions.decoder);
        }
        let mut decoder = instructions.decoder;
        match decoder.advance(index.as_u32() as usize) {
            Ok(()) => Ok(RawInstructions { start_position: instructions.start_position, decoder }),
            Err(e) => Err(e),
        }
    }

    pub fn exception_handlers(&self) -> (r: ExceptionHandlers<'input>)
        ensures
            r == self.spec_exception_handlers(),
    {
        self.exception_handlers
    }

    pub fn attributes(&self) -> (r: AttributeIter<'input>)
        ensures
            r == self.spec_attributes(),
    {
        self.attributes
    }
}

/// Reading the content of a `Code` attribute: the limits, the code, the exception table and the attributes.
pub open(crate) spec fn spec_code<'input>(decoder: Decoder<'input>) -> Result<Code<'input>, DecodeError> {
    let (rh, d1) = <(u16, u16, u32) as Decode<'input>>::spec_decode(decoder);
    match rh {
        Err(e) => Err(e),
        Ok(head) => {
            let code_length = head.2 as int;
            match d1.spec_try_limit(code_length, Context::Code) {
                Err(e) => Err(e),
                Ok(code) => {
                    let d2 = d1.spec_advance(code_length);
                    let (rc, d3) = <u16 as Decode<'input>>::spec_decode(d2);
                    match rc {
                        Err(e) => Err(e),
                        Ok(count) => {
                            let table_length = count * 8;
                            match d3.spec_try_limit(table_length, Context::Code) {
                                Err(e) => Err(e),
                                Ok(table) => {
                                    let d4 = d3.spec_advance(table_length);
                                    match <AttributeIter<'input> as Decode<'input>>::spec_decode(d4).0 {
                                        Err(e) => Err(e),
                                        Ok(attributes) => Ok(
                                            Code {
                                                max_stack: head.0,
                                                max_locals: head.1,
                                                raw_instructions: RawInstructions { start_position: d1.pos(), decoder: code },
                                                exception_handlers: ExceptionHandlers { decoder: table },
                                                attributes,
                                            },
                                        ),
                                    }
                                },
                            }
                        },
                    }
                },
            }
        },
    }
}

impl<'input> DecodeInto<'input> for Code<'input> {
    open spec fn spec_decode_into(decoder: Decoder<'input>) -> Result<Code<'input>, DecodeError> {
        spec_code(decoder)
    }

    fn decode_into(decoder: Decoder<'input>) -> (r: Result<Code<'input>, DecodeError>) {
        let mut decoder = decoder;
        let (max_stack, max_locals, code_length): (u16, u16, u32) = match decoder.read() {
            Ok(head) => head,
            Err(e) => return Err(e),
        };
        let code_length = code_length as usize;
        proof {
            use_type_invariant(&decoder);
        }
        let start_position = decoder.file_position();
        let code = match decoder.limit(code_length, Context::Code) {
            Ok(code) => code,
            Err(e) => return Err(e),
        };
        let raw_instructions = RawInstructions { start_position, decoder: code };
        match decoder.advance(code_length) {
            Ok(()) => {},
            Err(e) => return Err(e),
        }
        let exception_count: u16 = match decoder.read() {
            Ok(count) => count,
            Err(e) => return Err(e),
        };
        let table_length = exception_count as usize * 8;
        let table = match decoder.limit(table_length, Context::Code) {
            Ok(table) => table,
            Err(e) => return Err(e),
        };
        let exception_handlers = ExceptionHandlers { decoder: table };
        match decoder.advance(table_length) {
            Ok(()) => {},
            Err(e) => return Err(e),
        }
        let attributes: AttributeIter<'input> = match decoder.read() {
            Ok(attributes) => attributes,
            Err(e) => return Err(e),
        };
        Ok(Code { max_stack, max_locals, raw_instructions, exception_handlers, attributes })
    }
}

/// The exception handlers of a method's code.
#[derive(Debug, Clone, Copy)]
pub struct ExceptionHandlers<'input> {
    pub(crate) decoder: Decoder<'input>,
}

impl<'input> ExceptionHandlers<'input> {
    pub open(crate) spec fn spec_decoder(self) -> Decoder<'input> {
        self.decoder
    }

    /// Reads the next handler; a failed read ends the iteration.
    pub fn next(&mut self) -> (r: Option<ExceptionHandler<'input>>)
        ensures
            ({
                let (res, after) = <ExceptionHandler<'input> as Decode<'input>>::spec_decode(old(self).spec_decoder());
                &&& final(self).spec_decoder() == after
                &&& match res {
                    Ok(h) => r == Some(h),
                    Err(_) => r is None,
                }
            }),
    {
        match self.decoder.read() {
            Ok(h) => Some(h),
            Err(_) => None,
        }
    }
}

/// An entry of the exception table: the range of code it guards, where its handler starts,
/// and the class of exception it catches (any, if none).
#[derive(Debug, Clone, Copy)]
pub struct ExceptionHandler<'input> {
    pub(crate) start: Index,
    pub(crate) end: Index,
    pub(crate) handler: Index,
    pub(crate) catch_type: Option<cpool::Index<cpool::Class>>,
    pub(crate) marker: PhantomData<&'input ()>,
}

impl<'input> ExceptionHandler<'input> {
    pub open(crate) spec fn spec_new(start: u16, end: u16, handler: u16, catch_type: Option<cpool::Index<cpool::Class>>) -> ExceptionHandler<'input> {
        ExceptionHandler {
            start: Index::spec_new(start as u32),
            end: Index::spec_new(end as u32),
            handler: Index::spec_new(handler as u32),
            catch_type,
            marker: PhantomData,
        }
    }

    pub open(crate) spec fn spec_start(self) -> Index {
        self.start
    }

    pub open(crate) spec fn spec_end(self) -> Index {
        self.end
    }

    pub open(crate) spec fn spec_handler(self) -> Index {
        self.handler
    }

    pub open(crate) spec fn spec_catch_type(self) -> Option<cpool::Index<cpool::Class>> {
        self.catch_type
    }

    pub fn start(&self) -> (r: Index)
        ensures
            r == self.spec_start(),
    {
        self.start
    }

    pub fn end(&self) -> (r: Index)
        ensures
            r == self.spec_end(),
    {
        self.end
    }

    pub fn handler(&self) -> (r: Index)
        ensures
            r == self.spec_handler(),
    {
        self.handler
    }

    pub fn catch_type(&self) -> (r: Option<cpool::Index<cpool::Class>>)
        ensures
            r == self.spec_catch_type(),
    {
        self.catch_type
    }
}

impl<'input> Decode<'input> for ExceptionHandler<'input> {
    /// Reads the start, end and handler as `u16`s, then the catch type; 0 catches any exception.
    open spec fn spec_decode(decoder: Decoder<'input>) -> (Result<ExceptionHandler<'input>, DecodeError>, Decoder<'input>) {
        let (r, after) = <(u16, u16, u16) as Decode<'input>>::spec_decode(decoder);
        match r {
            Err(e) => (Err(e), after),
            Ok(t) => {
                let (rc, after2) = <Option<cpool::Index<cpool::Class>> as Decode<'input>>::spec_decode(after);
                match rc {
                    Err(e) => (Err(e), after2),
                    Ok(catch_type) => (Ok(ExceptionHandler::spec_new(t.0, t.1, t.2, catch_type)), after2),
                }
            },
        }
    }

    fn decode(decoder: &mut Decoder<'input>) -> (r: Result<ExceptionHandler<'input>, DecodeError>) {
        let (start, end, handler): (u16, u16, u16) = match decoder.read() {
            Ok(t) => t,
            Err(e) => return Err(e),
        };
        let catch_type: Option<cpool::Index<cpool::Class>> = match decoder.read() {
            Ok(c) => c,
            Err(e) => return Err(e),
        };
        Ok(
            ExceptionHandler {
                start: Index::new(start as u32),
                end: Index::new(end as u32),
                handler: Index::new(handler as u32),
                catch_type,
                marker: PhantomData,
            },
        )
    }
}

/// The layout of a `Code` attribute (JVMS §4.7.3): `max_stack` and `max_locals` as big-endian
/// `u16`, the code length as a big-endian `u32`, then the code itself, whose first instruction is
/// at offset 0.
pub proof fn lemma_code_layout<'input>(d: Decoder<'input>)
    requires
        d.in_bounds(),
        d.remaining() >= 8,
    ensures
        ({
            let b = d.bytes();
            let len = (((b[4] as nat * 256 + b[5] as nat) * 256 + b[6] as nat) * 256 + b[7] as nat) as u32;
            let r = spec_code(d);
            r is Ok ==> {
                let c = r->Ok_0;
                &&& c.spec_max_stack() == (b[0] as nat * 256 + b[1] as nat) as u16
                &&& c.spec_max_locals() == (b[2] as nat * 256 + b[3] as nat) as u16
                &&& len <= d.remaining() - 8
                &&& c.spec_raw_instructions().spec_decoder().bytes() == b.subrange(8, 8 + len)
                &&& c.spec_raw_instructions().spec_decoder().pos() == c.spec_raw_instructions().spec_start()
            }
        }),
{
    let b = d.bytes();
    lemma_read_u16(d);
    let d2 = d.spec_advance(2);
    lemma_read_u16(d2);
    let d4 = d2.spec_advance(2);
    lemma_read_u32(d4);
    assert(d2.bytes()[0] == b[2] && d2.bytes()[1] == b[3]);
    assert(d4.bytes()[0] == b[4] && d4.bytes()[1] == b[5] && d4.bytes()[2] == b[6] && d4.bytes()[3] == b[7]);
    let d8 = d4.spec_advance(4);
    assert(d8 == d.spec_advance(8));
    let len = (((b[4] as nat * 256 + b[5] as nat) * 256 + b[6] as nat) * 256 + b[7] as nat) as u32;
    if len <= d.remaining() - 8 {
        assert(d8.spec_limit(len as int, Context::Code).bytes() =~= b.subrange(8, 8 + len));
    }
}

/// The layout of an exception handler (JVMS §4.7.3): the start, end and handler offsets and the
/// catch type, each a big-endian `u16`, eight bytes in all; a catch type of 0 catches any
/// exception.
pub proof fn lemma_exception_handler_layout<'input>(d: Decoder<'input>)
    requires
        d.in_bounds(),
        d.remaining() >= 8,
    ensures
        ({
            let b = d.bytes();
            let c = (b[6] as nat * 256 + b[7] as nat) as u16;
            let (r, after) = <ExceptionHandler<'input> as Decode<'input>>::spec_decode(d);
            &&& r is Ok
            &&& after == d.spec_advance(8)
            &&& r->Ok_0.spec_start() == Index::spec_new((b[0] as nat * 256 + b[1] as nat) as u16 as u32)
            &&& r->Ok_0.spec_end() == Index::spec_new((b[2] as nat * 256 + b[3] as nat) as u16 as u32)
            &&& r->Ok_0.spec_handler() == Index::spec_new((b[4] as nat * 256 + b[5] as nat) as u16 as u32)
            &&& r->Ok_0.spec_catch_type() == (if c == 0 {
                None
            } else {
                Some(cpool::Index::<cpool::Class>::spec_new(c))
            })
        }),
{
    let b = d.bytes();
    lemma_read_u16(d);
    let d2 = d.spec_advance(2);
    lemma_read_u16(d2);
    let d4 = d2.spec_advance(2);
    lemma_read_u16(d4);
    let d6 = d4.spec_advance(2);
    lemma_read_u16(d6);
    assert(d2.bytes()[0] == b[2] && d2.bytes()[1] == b[3]);
    assert(d4.bytes()[0] == b[4] && d4.bytes()[1] == b[5]);
    assert(d6.bytes()[0] == b[6] && d6.bytes()[1] == b[7]);
    assert(d6.spec_advance(2) == d.spec_advance(8));
}

/// The line number table of a method's code.
pub type LineNumberTable<'input> = DecodeMany<'input, Line<'input>, u16>;

pub type LineNumberIter<'input> = DecodeManyIter<'input, Line<'input>, u16>;

/// An entry of the line number table: where a source line starts in the code.
#[derive(Debug, Clone, Copy)]
pub struct Line<'input> {
    pub(crate) start: Index,
    pub(crate) line_number: u16,
    pub(crate) marker: PhantomData<&'input ()>,
}

impl<'input> Line<'input> {
    pub open(crate) spec fn spec_new(start: Index, line_number: u16) -> Line<'input> {
        Line { start, line_number, marker: PhantomData }
    }

    pub open(crate) spec fn spec_start(self) -> Index {
        self.start
    }

    pub open(crate) spec fn spec_line_number(self) -> u16 {
        self.line_number
    }

    pub fn start(&self) -> (r: Index)
        ensures
            r == self.spec_start(),
    {
        self.start
    }

    pub fn line_number(&self) -> (r: u16)
        ensures
            r == self.spec_line_number(),
    {
        self.line_number
    }
}

impl<'input> Decode<'input> for Line<'input> {
    open spec fn spec_decode(decoder: Decoder<'input>) -> (Result<Line<'input>, DecodeError>, Decoder<'input>) {
        let (r_start, d1) = <Index as Decode<'input>>::spec_decode(decoder);
        match r_start {
            Err(e) => (Err(e), d1),
            Ok(v_start) => {
                let (r_line_number, d2) = <u16 as Decode<'input>>::spec_decode(d1);
                match r_line_number {
                    Err(e) => (Err(e), d2),
                    Ok(v_line_number) => {
                        (Ok(Line::spec_new(v_start, v_line_number)), d2)
                    },
                }
            },
        }
    }

    fn decode(decoder: &mut Decoder<'input>) -> (r: Result<Line<'input>, DecodeError>) {
        let start: Index = match decoder.read() {
            Ok(v) => v,
            Err(e) => return Err(e),
        };
        let line_number: u16 = match decoder.read() {
            Ok(v) => v,
            Err(e) => return Err(e),
        };
        Ok(Line { start, line_number, marker: PhantomData })
    }
}

} // verus!
