//! The stack map table of a method's code.

use crate::error::{DecodeError, DecodeErrorKind};
use crate::reader::attributes::code;
use crate::reader::cpool;
use crate::reader::decoding::{lemma_read_byte, Decode, DecodeInto, Decoder};
use vstd::prelude::*;

verus! {

/// The sum of two offsets, wrapping past `u32::MAX`.
pub open spec fn add_offset(delta: u32, current_offset: u32) -> u32 {
    if delta + current_offset > u32::MAX {
        (delta + current_offset - 0x1_0000_0000) as u32
    } else {
        (delta + current_offset) as u32
    }
}

/// The content of a `StackMapTable` attribute.
#[derive(Debug, Clone, Copy)]
pub struct StackMapTable<'input> {
    pub(crate) iter: StackMapIter<'input>,
}

impl<'input> StackMapTable<'input> {
    pub open(crate) spec fn spec_new(iter: StackMapIter<'input>) -> StackMapTable<'input> {
        StackMapTable { iter }
    }

    pub open(crate) spec fn spec_iter(self) -> StackMapIter<'input> {
        self.iter
    }

    /// An iterator over the frames, from the first.
    pub fn iter(&self) -> (r: StackMapIter<'input>)
        ensures
            r == self.spec_iter(),
    {
        self.iter
    }
}

impl<'input> DecodeInto<'input> for StackMapTable<'input> {
    /// Reads the number of frames; the frames are read on demand.
    open spec fn spec_decode_into(decoder: Decoder<'input>) -> Result<StackMapTable<'input>, DecodeError> {
        let (r, d) = <u16 as Decode<'input>>::spec_decode(decoder);
        match r {
            Err(e) => Err(e),
            Ok(count) => Ok(StackMapTable::spec_new(StackMapIter::spec_new(d, count, 0))),
        }
    }

    fn decode_into(decoder: Decoder<'input>) -> (r: Result<StackMapTable<'input>, DecodeError>) {
        let mut decoder = decoder;
        let count: u16 = match decoder.read() {
            Ok(count) => count,
            Err(e) => return Err(e),
        };
        Ok(StackMapTable { iter: StackMapIter { decoder, remaining: count, current_offset: 0 } })
    }
}

/// An iterator over the frames of a stack map table.
#[derive(Debug, Clone, Copy)]
pub struct StackMapIter<'input> {
    pub(crate) decoder: Decoder<'input>,
    pub(crate) remaining: u16,
    pub(crate) current_offset: u32,
}

impl<'input> StackMapIter<'input> {
    pub open(crate) spec fn spec_new(decoder: Decoder<'input>, remaining: u16, current_offset: u32) -> StackMapIter<'input> {
        StackMapIter { decoder, remaining, current_offset }
    }

    pub open(crate) spec fn spec_decoder(self) -> Decoder<'input> {
        self.decoder
    }

    /// The number of frames left.
    pub open(crate) spec fn spec_remaining(self) -> u16 {
        self.remaining
    }

    /// The number of bytes of the table read so far, wrapping past `u32::MAX`.
    pub open(crate) spec fn spec_current_offset(self) -> u32 {
        self.current_offset
    }

    /// Reads the next frame, if any is left.
    pub fn next(&mut self) -> (r: Option<Result<(code::Index, StackMapFrame<'input>), DecodeError>>)
        ensures
            old(self).spec_remaining() == 0 ==> r is None && *final(self) == *old(self),
            old(self).spec_remaining() > 0 ==> {
                let (res, after) = spec_stack_map_frame(old(self).spec_decoder(), old(self).spec_current_offset());
                &&& r == Some(res)
                &&& *final(self) == StackMapIter::spec_new(
                    after,
                    (old(self).spec_remaining() - 1) as u16,
                    add_offset(
                        (old(self).spec_decoder().remaining() - after.remaining()) as u32,
                        old(self).spec_current_offset(),
                    ),
                )
            },
    {
        if self.remaining == 0 {
            None
        } else {
            self.remaining = self.remaining - 1;
            let before = self.decoder.bytes_remaining();
            let frame = decode_stack_map_frame(&mut self.decoder, self.current_offset);
            let consumed = (before - self.decoder.bytes_remaining()) as u32;
            self.current_offset = consumed.wrapping_add(self.current_offset);
            Some(frame)
        }
    }
}

/// A frame of the stack map table.
#[derive(Debug, Clone, Copy)]
pub enum StackMapFrame<'input> {
    Same,
    SameExtended,
    Same1 { stack: VerificationType },
    Same1Extended { stack: VerificationType },
    Chop { to_chop: u8 },
    Append { locals: VerificationTypeIter<'input> },
    Full { locals: VerificationTypeIter<'input>, stack: VerificationTypeIter<'input> },
}

/// Reading a code offset and adding the current offset to it.
pub open spec fn spec_offset_index<'input>(d: Decoder<'input>, current_offset: u32) -> (Result<code::Index, DecodeError>, Decoder<'input>) {
    let (r, after) = <u16 as Decode<'input>>::spec_decode(d);
    match r {
        Err(e) => (Err(e), after),
        Ok(delta) => (Ok(code::Index::spec_new(add_offset(delta as u32, current_offset))), after),
    }
}

fn read_offset_index<'input>(decoder: &mut Decoder<'input>, current_offset: u32) -> (r: Result<code::Index, DecodeError>)
    ensures
        (r, *final(decoder)) == spec_offset_index(*old(decoder), current_offset),
        final(decoder).follows(*old(decoder)),
{
    match decoder.read::<u16>() {
        Ok(delta) => Ok(code::Index::new((delta as u32).wrapping_add(current_offset))),
        Err(e) => Err(e),
    }
}

/// Reading a frame of the stack map table: its type, then what that type announces.
pub open spec fn spec_stack_map_frame<'input>(d: Decoder<'input>, current_offset: u32) -> (
    Result<(code::Index, StackMapFrame<'input>), DecodeError>,
    Decoder<'input>,
) {
    let (rt, d1) = <u8 as Decode<'input>>::spec_decode(d);
    match rt {
        Err(e) => (Err(e), d1),
        Ok(frame_type) => if frame_type <= 63 {
            (Ok((code::Index::spec_new(frame_type as u32), StackMapFrame::Same)), d1)
        } else if frame_type <= 127 {
            let index = code::Index::spec_new(add_offset((frame_type - 64) as u32, current_offset));
            let (rs, d2) = spec_verification_type(d1, current_offset);
            match rs {
                Err(e) => (Err(e), d2),
                Ok(stack) => (Ok((index, StackMapFrame::Same1 { stack })), d2),
            }
        } else if frame_type <= 246 {
            (Err(d1.error_here(DecodeErrorKind::TagReserved)), d1)
        } else {
            let (ri, d2) = spec_offset_index(d1, current_offset);
            match ri {
                Err(e) => (Err(e), d2),
                Ok(index) => if frame_type == 247 {
                    let (rs, d3) = spec_verification_type(d2, current_offset);
                    match rs {
                        Err(e) => (Err(e), d3),
                        Ok(stack) => (Ok((index, StackMapFrame::Same1 { stack })), d3),
                    }
                } else if frame_type <= 250 {
                    (Ok((index, StackMapFrame::Chop { to_chop: (251 - frame_type) as u8 })), d2)
                } else if frame_type == 251 {
                    (Ok((index, StackMapFrame::SameExtended)), d2)
                } else if frame_type <= 254 {
                    let (rl, d3) = spec_verification_types(d2, (frame_type - 251) as u16, current_offset);
                    match rl {
                        Err(e) => (Err(e), d3),
                        Ok(locals) => (Ok((index, StackMapFrame::Append { locals })), d3),
                    }
                } else {
                    let (rlc, d3) = <u16 as Decode<'input>>::spec_decode(d2);
                    match rlc {
                        Err(e) => (Err(e), d3),
                        Ok(local_count) => {
                            let (rl, d4) = spec_verification_types(d3, local_count, current_offset);
                            match rl {
                                Err(e) => (Err(e), d4),
                                Ok(locals) => {
                                    let (rsc, d5) = <u16 as Decode<'input>>::spec_decode(d4);
                                    match rsc {
                                        Err(e) => (Err(e), d5),
                                        Ok(stack_count) => {
                                            let (rs, d6) = spec_verification_types(d5, stack_count, current_offset);
                                            match rs {
                                                Err(e) => (Err(e), d6),
                                                Ok(stack) => (Ok((index, StackMapFrame::Full { locals, stack })), d6),
                                            }
                                        },
                                    }
                                },
                            }
                        },
                    }
                },
            }
        },
    }
}

fn decode_stack_map_frame<'input>(decoder: &mut Decoder<'input>, current_offset: u32) -> (r: Result<
    (code::Index, StackMapFrame<'input>),
    DecodeError,
>)
    ensures
        (r, *final(decoder)) == spec_stack_map_frame(*old(decoder), current_offset),
        final(decoder).follows(*old(decoder)),
{
    let frame_type: u8 = match decoder.read() {
        Ok(t) => t,
        Err(e) => return Err(e),
    };
    if frame_type <= 63 {
        return Ok((code::Index::new(frame_type as u32), StackMapFrame::Same));
    }
    if frame_type <= 127 {
        let index = code::Index::new(((frame_type - 64) as u32).wrapping_add(current_offset));
        return match decode_verification_type(decoder, current_offset) {
            Ok(stack) => Ok((index, StackMapFrame::Same1 { stack })),
            Err(e) => Err(e),
        };
    }
    if frame_type <= 246 {
        return Err(DecodeError::from_decoder(DecodeErrorKind::TagReserved, decoder));
    }
    let index = match read_offset_index(decoder, current_offset) {
        Ok(index) => index,
        Err(e) => return Err(e),
    };
    if frame_type == 247 {
        match decode_verification_type(decoder, current_offset) {
            Ok(stack) => Ok((index, StackMapFrame::Same1 { stack })),
            Err(e) => Err(e),
        }
    } else if frame_type <= 250 {
        Ok((index, StackMapFrame::Chop { to_chop: 251 - frame_type }))
    } else if frame_type == 251 {
        Ok((index, StackMapFrame::SameExtended))
    } else if frame_type <= 254 {
        match VerificationTypeIter::new(decoder, (frame_type - 251) as u16, current_offset) {
            Ok(locals) => Ok((index, StackMapFrame::Append { locals })),
            Err(e) => Err(e),
        }
    } else {
        let local_count: u16 = match decoder.read() {
            Ok(count) => count,
            Err(e) => return Err(e),
        };
        let locals = match VerificationTypeIter::new(decoder, local_count, current_offset) {
            Ok(locals) => locals,
            Err(e) => return Err(e),
        };
        let stack_count: u16 = match decoder.read() {
            Ok(count) => count,
            Err(e) => return Err(e),
        };
        match VerificationTypeIter::new(decoder, stack_count, current_offset) {
            Ok(stack) => Ok((index, StackMapFrame::Full { locals, stack })),
            Err(e) => Err(e),
        }
    }
}

/// The type of a value in a stack map frame.
#[derive(Debug, Copy, Clone)]
pub enum VerificationType {
    Top,
    Null,
    UninitializedThis,
    Object(cpool::Index<cpool::Class>),
    UninitializedVariable(code::Index),
    Integer,
    Long,
    Float,
    Double,
}

/// The verification type that a tag without operands stands for.
pub open spec fn plain_verification_type(tag: u8) -> Option<VerificationType> {
    match tag {
        0 => Some(VerificationType::Top),
        1 => Some(VerificationType::Integer),
        2 => Some(VerificationType::Float),
        3 => Some(VerificationType::Double),
        4 => Some(VerificationType::Long),
        5 => Some(VerificationType::Null),
        6 => Some(VerificationType::UninitializedThis),
        _ => None,
    }
}

/// Reading a verification type: its tag, then an index for objects and uninitialized variables.
pub open spec fn spec_verification_type<'input>(d: Decoder<'input>, current_offset: u32) -> (
    Result<VerificationType, DecodeError>,
    Decoder<'input>,
) {
    let (rt, d1) = <u8 as Decode<'input>>::spec_decode(d);
    match rt {
        Err(e) => (Err(e), d1),
        Ok(tag) => match plain_verification_type(tag) {
            Some(t) => (Ok(t), d1),
            None => if tag == 7 {
                let (ri, d2) = <cpool::Index<cpool::Class> as Decode<'input>>::spec_decode(d1);
                match ri {
                    Err(e) => (Err(e), d2),
                    Ok(index) => (Ok(VerificationType::Object(index)), d2),
                }
            } else if tag == 8 {
                let (ri, d2) = spec_offset_index(d1, current_offset);
                match ri {
                    Err(e) => (Err(e), d2),
                    Ok(index) => (Ok(VerificationType::UninitializedVariable(index)), d2),
                }
            } else {
                (Err(d1.error_here(DecodeErrorKind::InvalidTag)), d1)
            },
        },
    }
}

fn decode_verification_type<'input>(decoder: &mut Decoder<'input>, current_offset: u32) -> (r: Result<
    VerificationType,
    DecodeError,
>)
    ensures
        (r, *final(decoder)) == spec_verification_type(*old(decoder), current_offset),
        final(decoder).follows(*old(decoder)),
{
    let tag: u8 = match decoder.read() {
        Ok(tag) => tag,
        Err(e) => return Err(e),
    };
    match tag {
        0 => Ok(VerificationType::Top),
        1 => Ok(VerificationType::Integer),
        2 => Ok(VerificationType::Float),
        3 => Ok(VerificationType::Double),
        4 => Ok(VerificationType::Long),
        5 => Ok(VerificationType::Null),
        6 => Ok(VerificationType::UninitializedThis),
        7 => match decoder.read() {
            Ok(index) => Ok(VerificationType::Object(index)),
            Err(e) => Err(e),
        },
        8 => match read_offset_index(decoder, current_offset) {
            Ok(index) => Ok(VerificationType::UninitializedVariable(index)),
            Err(e) => Err(e),
        },
        _ => Err(DecodeError::from_decoder(DecodeErrorKind::InvalidTag, decoder)),
    }
}

/// The verification type tags (JVMS §4.7.4): `Top` 0, `Integer` 1, `Float` 2, `Double` 3,
/// `Long` 4, `Null` 5, `UninitializedThis` 6, each one byte long; `Object` 7 and
/// `Uninitialized` 8 carry an index; every other tag is refused.
pub proof fn lemma_verification_type_tags<'input>(d: Decoder<'input>, current_offset: u32)
    requires
        d.in_bounds(),
        d.remaining() >= 1,
    ensures
        ({
            let tag = d.bytes()[0];
            let (r, after) = spec_verification_type(d, current_offset);
            &&& tag == 0 ==> r == Ok::<VerificationType, DecodeError>(VerificationType::Top) && after == d.spec_advance(1)
            &&& tag == 1 ==> r == Ok::<VerificationType, DecodeError>(VerificationType::Integer) && after == d.spec_advance(1)
            &&& tag == 2 ==> r == Ok::<VerificationType, DecodeError>(VerificationType::Float) && after == d.spec_advance(1)
            &&& tag == 3 ==> r == Ok::<VerificationType, DecodeError>(VerificationType::Double) && after == d.spec_advance(1)
            &&& tag == 4 ==> r == Ok::<VerificationType, DecodeError>(VerificationType::Long) && after == d.spec_advance(1)
            &&& tag == 5 ==> r == Ok::<VerificationType, DecodeError>(VerificationType::Null) && after == d.spec_advance(1)
            &&& tag == 6 ==> r == Ok::<VerificationType, DecodeError>(VerificationType::UninitializedThis) && after == d.spec_advance(1)
            &&& tag == 7 ==> (r is Ok ==> r->Ok_0 is Object)
            &&& tag == 8 ==> (r is Ok ==> r->Ok_0 is UninitializedVariable)
            &&& tag > 8 ==> r is Err
        }),
{
    lemma_read_byte(d);
}

/// The frame types of the stack map table (JVMS §4.7.4): `same` 0 to 63 at that offset,
/// `same_locals_1_stack_item` 64 to 127 with the verification type that follows, 128 to 246
/// reserved, `same_locals_1_stack_item_extended` 247, `chop` 248 to 250 dropping `251 - type`
/// locals, `same_frame_extended` 251, `append` 252 to 254 and `full_frame` 255.
pub proof fn lemma_frame_types<'input>(d: Decoder<'input>, current_offset: u32)
    requires
        d.in_bounds(),
        d.remaining() >= 1,
    ensures
        ({
            let f = d.bytes()[0];
            let (r, after) = spec_stack_map_frame(d, current_offset);
            &&& f <= 63 ==> r == Ok::<(code::Index, StackMapFrame<'input>), DecodeError>(
                (code::Index::spec_new(f as u32), StackMapFrame::Same),
            ) && after == d.spec_advance(1)
            &&& 64 <= f <= 127 ==> (r is Ok ==> r->Ok_0.1 is Same1)
            &&& 64 <= f <= 127 && d.remaining() >= 2 && d.bytes()[1] == 0 ==> r is Ok && r->Ok_0.1 == (StackMapFrame::Same1 { stack: VerificationType::Top })
            &&& 64 <= f <= 127 && d.remaining() >= 2 && d.bytes()[1] == 1 ==> r is Ok && r->Ok_0.1 == (StackMapFrame::Same1 { stack: VerificationType::Integer })
            &&& 64 <= f <= 127 && d.remaining() >= 2 && d.bytes()[1] == 2 ==> r is Ok && r->Ok_0.1 == (StackMapFrame::Same1 { stack: VerificationType::Float })
            &&& 64 <= f <= 127 && d.remaining() >= 2 && d.bytes()[1] == 3 ==> r is Ok && r->Ok_0.1 == (StackMapFrame::Same1 { stack: VerificationType::Double })
            &&& 64 <= f <= 127 && d.remaining() >= 2 && d.bytes()[1] == 4 ==> r is Ok && r->Ok_0.1 == (StackMapFrame::Same1 { stack: VerificationType::Long })
            &&& 64 <= f <= 127 && d.remaining() >= 2 && d.bytes()[1] == 5 ==> r is Ok && r->Ok_0.1 == (StackMapFrame::Same1 { stack: VerificationType::Null })
            &&& 64 <= f <= 127 && d.remaining() >= 2 && d.bytes()[1] == 6 ==> r is Ok && r->Ok_0.1 == (StackMapFrame::Same1 { stack: VerificationType::UninitializedThis })
            &&& 128 <= f <= 246 ==> r is Err
            &&& f == 247 ==> (r is Ok ==> r->Ok_0.1 is Same1)
            &&& 248 <= f <= 250 ==> (r is Ok ==> r->Ok_0.1 == (StackMapFrame::Chop { to_chop: (251 - f) as u8 }))
            &&& f == 251 ==> (r is Ok ==> r->Ok_0.1 is SameExtended)
            &&& 252 <= f <= 254 ==> (r is Ok ==> r->Ok_0.1 is Append)
            &&& f == 255 ==> (r is Ok ==> r->Ok_0.1 is Full)
        }),
{
    lemma_read_byte(d);
    if d.remaining() >= 2 {
        lemma_read_byte(d.spec_advance(1));
        assert(d.spec_advance(1).bytes()[0] == d.bytes()[1]);
    }
}

/// Skipping a verification type: its tag, then the index that objects and uninitialized variables carry.
pub open spec fn spec_skip_verification_type<'input>(d: Decoder<'input>) -> (Result<(), DecodeError>, Decoder<'input>) {
    let (rt, d1) = <u8 as Decode<'input>>::spec_decode(d);
    match rt {
        Err(e) => (Err(e), d1),
        Ok(tag) => if tag == 7 {
            let (ri, d2) = <cpool::Index<cpool::Class> as Decode<'input>>::spec_decode(d1);
            match ri {
                Err(e) => (Err(e), d2),
                Ok(_) => (Ok(()), d2),
            }
        } else if tag == 8 {
            let (ri, d2) = <u16 as Decode<'input>>::spec_decode(d1);
            match ri {
                Err(e) => (Err(e), d2),
                Ok(_) => (Ok(()), d2),
            }
        } else if tag < 7 {
            (Ok(()), d1)
        } else {
            (Err(d1.error_here(DecodeErrorKind::InvalidTag)), d1)
        },
    }
}

fn skip_verification_type<'input>(decoder: &mut Decoder<'input>) -> (r: Result<(), DecodeError>)
    ensures
        (r, *final(decoder)) == spec_skip_verification_type(*old(decoder)),
        final(decoder).follows(*old(decoder)),
{
    let tag: u8 = match decoder.read() {
        Ok(tag) => tag,
        Err(e) => return Err(e),
    };
    if tag == 7 {
        match decoder.read::<cpool::Index<cpool::Class>>() {
            Ok(_) => Ok(()),
            Err(e) => Err(e),
        }
    } else if tag == 8 {
        match decoder.read::<u16>() {
            Ok(_) => Ok(()),
            Err(e) => Err(e),
        }
    } else if tag < 7 {
        Ok(())
    } else {
        Err(DecodeError::from_decoder(DecodeErrorKind::InvalidTag, decoder))
    }
}

/// Skipping `n` verification types one after the other.
pub open spec fn spec_skip_verification_types<'input>(d: Decoder<'input>, n: nat) -> (Result<(), DecodeError>, Decoder<'input>)
    decreases n,
{
    if n == 0 {
        (Ok(()), d)
    } else {
        let (r, d1) = spec_skip_verification_type(d);
        match r {
            Err(e) => (Err(e), d1),
            Ok(_) => spec_skip_verification_types(d1, (n - 1) as nat),
        }
    }
}

/// Reading `count` verification types: they are checked now and read again on demand.
pub open spec fn spec_verification_types<'input>(d: Decoder<'input>, count: u16, current_offset: u32) -> (
    Result<VerificationTypeIter<'input>, DecodeError>,
    Decoder<'input>,
) {
    let (r, d1) = spec_skip_verification_types(d, count as nat);
    match r {
        Err(e) => (Err(e), d1),
        Ok(_) => (Ok(VerificationTypeIter::spec_new(d, count, current_offset)), d1),
    }
}

/// An iterator over the verification types of a frame.
#[derive(Debug, Clone, Copy)]
pub struct VerificationTypeIter<'input> {
    pub(crate) decoder: Decoder<'input>,
    pub(crate) remaining: u16,
    pub(crate) current_offset: u32,
}

impl<'input> VerificationTypeIter<'input> {
    pub open(crate) spec fn spec_new(decoder: Decoder<'input>, remaining: u16, current_offset: u32) -> VerificationTypeIter<'input> {
        VerificationTypeIter { decoder, remaining, current_offset }
    }

    pub open(crate) spec fn spec_decoder(self) -> Decoder<'input> {
        self.decoder
    }

    pub open(crate) spec fn spec_remaining(self) -> u16 {
        self.remaining
    }

    pub open(crate) spec fn spec_current_offset(self) -> u32 {
        self.current_offset
    }

    /// Checks that `count` verification types follow, and returns an iterator over them.
    fn new(decoder: &mut Decoder<'input>, count: u16, current_offset: u32) -> (r: Result<VerificationTypeIter<'input>, DecodeError>)
        ensures
            (r, *final(decoder)) == spec_verification_types(*old(decoder), count, current_offset),
            final(decoder).follows(*old(decoder)),
    {
        let start = *decoder;
        let mut i: u16 = 0;
        while i < count
            invariant
                i <= count,
                spec_skip_verification_types(*decoder, (count - i) as nat) == spec_skip_verification_types(
                    start,
                    count as nat,
                ),
                start == *old(decoder),
                decoder.follows(start),
            decreases count - i,
        {
            match skip_verification_type(decoder) {
                Ok(()) => {},
                Err(e) => return Err(e),
            }
            i = i + 1;
        }
        Ok(VerificationTypeIter { decoder: start, remaining: count, current_offset })
    }

    /// Reads the next verification type, if any is left.
    pub fn next(&mut self) -> (r: Option<Result<VerificationType, DecodeError>>)
        ensures
            old(self).spec_remaining() == 0 ==> r is None && *final(self) == *old(self),
            old(self).spec_remaining() > 0 ==> {
                let (res, after) = spec_verification_type(old(self).spec_decoder(), old(self).spec_current_offset());
                &&& r == Some(res)
                &&& *final(self) == VerificationTypeIter::spec_new(
                    after,
                    (old(self).spec_remaining() - 1) as u16,
                    add_offset(
                        (old(self).spec_decoder().remaining() - after.remaining()) as u32,
                        old(self).spec_current_offset(),
                    ),
                )
            },
    {
        if self.remaining == 0 {
            None
        } else {
            self.remaining = self.remaining - 1;
            let before = self.decoder.bytes_remaining();
            let verification_type = decode_verification_type(&mut self.decoder, self.current_offset);
            let consumed = (before - self.decoder.bytes_remaining()) as u32;
            self.current_offset = consumed.wrapping_add(self.current_offset);
            Some(verification_type)
        }
    }
}

} // verus!
