//! Reading primitive values and counted sequences from a class file.

use crate::error::{spec_error, Context, DecodeError, DecodeErrorKind};
use crate::mutf8::{valid_mutf8, MStr};
use core::marker::PhantomData;
use core::ops::ControlFlow;
use vstd::prelude::*;

verus! {

/// The big-endian value of a byte sequence.
pub open spec fn be_value(bytes: Seq<u8>) -> nat
    decreases bytes.len(),
{
    if bytes.len() == 0 {
        0
    } else {
        be_value(bytes.drop_last()) * 256 + bytes.last() as nat
    }
}

/// A big-endian value of `n` bytes is less than `256^n`.
pub proof fn lemma_be_value_bound(bytes: Seq<u8>)
    ensures
        be_value(bytes) < vstd::arithmetic::power::pow(256, bytes.len()),
    decreases bytes.len(),
{
    vstd::arithmetic::power::lemma_pow_positive(256, bytes.len());
    if bytes.len() > 0 {
        lemma_be_value_bound(bytes.drop_last());
        let p = vstd::arithmetic::power::pow(256, (bytes.len() - 1) as nat);
        vstd::arithmetic::power::lemma_pow_adds(256, (bytes.len() - 1) as nat, 1);
        vstd::arithmetic::power::lemma_pow1(256);
        let v = be_value(bytes.drop_last());
        assert(v * 256 + bytes.last() < p * 256) by (nonlinear_arith)
            requires
                v < p,
                bytes.last() < 256,
        ;
    }
}

/// A cursor over a window of the input buffer.
///
/// The window is `input[start..end]`; `start` is the position inside the file.
#[derive(Debug, Clone, Copy)]
pub struct Decoder<'input> {
    pub(crate) input: &'input [u8],
    pub(crate) start: usize,
    pub(crate) end: usize,
    pub(crate) ctx: Context,
}

impl<'input> Decoder<'input> {
    #[verifier::type_invariant]
    pub(crate) open spec fn inv(self) -> bool {
        self.start <= self.end <= self.input@.len()
    }

    /// The bytes that are left to be read.
    pub open(crate) spec fn bytes(self) -> Seq<u8> {
        self.input@.subrange(self.start as int, self.end as int)
    }

    /// The number of bytes left to be read.
    pub open(crate) spec fn remaining(self) -> int {
        self.end - self.start
    }

    /// Whether the window lies inside the input, as it does for every decoder that is made.
    pub open(crate) spec fn in_bounds(self) -> bool {
        self.start <= self.end <= self.input@.len()
    }

    /// The position inside the file.
    pub open(crate) spec fn pos(self) -> usize {
        self.start
    }

    pub open(crate) spec fn ctx_of(self) -> Context {
        self.ctx
    }

    /// The decoder after `n` bytes were consumed.
    pub open(crate) spec fn spec_advance(self, n: int) -> Decoder<'input> {
        Decoder { start: (self.start + n) as usize, ..self }
    }

    /// The decoder limited to the next `n` bytes, with its own context.
    pub open(crate) spec fn spec_limit(self, n: int, ctx: Context) -> Decoder<'input> {
        Decoder { end: (self.start + n) as usize, ctx, ..self }
    }

    pub open(crate) spec fn spec_with_context(self, ctx: Context) -> Decoder<'input> {
        Decoder { ctx, ..self }
    }

    /// The error at the current position with the given kind.
    pub open(crate) spec fn error_here(self, kind: DecodeErrorKind) -> DecodeError {
        spec_error(kind, Some(self.start), self.ctx)
    }

    /// The result of taking `n` bytes off the front.
    pub open(crate) spec fn spec_split(self, n: int) -> (Result<Seq<u8>, DecodeError>, Decoder<'input>) {
        if 0 <= n <= self.remaining() {
            (Ok(self.bytes().take(n)), self.spec_advance(n))
        } else {
            (Err(self.error_here(DecodeErrorKind::UnexpectedEoi)), self)
        }
    }

    /// Whether this decoder reads the same window as `before`, from the same place or further on.
    pub open(crate) spec fn follows(self, before: Decoder<'input>) -> bool {
        &&& self.input == before.input
        &&& self.end == before.end
        &&& before.start <= self.start
    }

    /// The result of advancing by `n` bytes: the end of the input refuses it.
    pub open(crate) spec fn spec_try_advance(self, n: int) -> (Result<(), DecodeError>, Decoder<'input>) {
        if 0 <= n <= self.remaining() {
            (Ok(()), self.spec_advance(n))
        } else {
            (Err(self.error_here(DecodeErrorKind::UnexpectedEoi)), self)
        }
    }

    /// The result of limiting the decoder to the next `n` bytes.
    pub open(crate) spec fn spec_try_limit(self, n: int, ctx: Context) -> Result<Decoder<'input>, DecodeError> {
        if 0 <= n <= self.remaining() {
            Ok(self.spec_limit(n, ctx))
        } else {
            Err(self.error_here(DecodeErrorKind::UnexpectedEoi))
        }
    }

    /// The decoder over the whole buffer.
    pub open(crate) spec fn spec_new(buf: &'input [u8], ctx: Context) -> Decoder<'input> {
        Decoder { input: buf, start: 0, end: buf@.len() as usize, ctx }
    }

    /// The decoder that a read of `T` leaves behind.
    pub open(crate) spec fn after<T: Decode<'input>>(self) -> Decoder<'input> {
        T::spec_decode(self).1
    }

    pub fn new(buf: &'input [u8], ctx: Context) -> (r: Decoder<'input>)
        ensures
            r == Decoder::spec_new(buf, ctx),
            r.bytes() == buf@,
    {
        Decoder { input: buf, start: 0, end: buf.len(), ctx }
    }

    /// The position inside the file, *not* this decoder.
    pub fn file_position(&self) -> (r: usize)
        ensures
            r == self.pos(),
    {
        self.start
    }

    pub fn bytes_remaining(&self) -> (r: usize)
        ensures
            r == self.remaining(),
            r == self.bytes().len(),
    {
        proof {
            use_type_invariant(self);
        }
        self.end - self.start
    }

    pub fn buf(&self) -> (r: &'input [u8])
        ensures
            r@ == self.bytes(),
    {
        proof {
            use_type_invariant(self);
        }
        let (_, rest) = self.input.split_at(self.start);
        let (window, _) = rest.split_at(self.end - self.start);
        window
    }

    pub fn context(&self) -> (r: Context)
        ensures
            r == self.ctx_of(),
    {
        self.ctx
    }

    pub fn set_context(&mut self, ctx: Context)
        ensures
            *final(self) == old(self).spec_with_context(ctx),
            final(self).follows(*old(self)),
    {
        proof {
            use_type_invariant(&*self);
        }
        self.ctx = ctx;
    }

    /// Creates a new decoder which is limited to the current location and has the length of `count`.
    /// It will have its own context.
    pub fn limit(&self, count: usize, ctx: Context) -> (r: Result<Decoder<'input>, DecodeError>)
        ensures
            count <= self.remaining() ==> r == Ok::<Decoder<'input>, DecodeError>(self.spec_limit(count as int, ctx)),
            r matches Ok(sub) ==> sub.pos() == self.pos() && sub.remaining() == count,
            count > self.remaining() ==> r == Err::<Decoder<'input>, DecodeError>(self.error_here(DecodeErrorKind::UnexpectedEoi)),
    {
        proof {
            use_type_invariant(self);
        }
        if count > self.end - self.start {
            Err(DecodeError::with_info(DecodeErrorKind::UnexpectedEoi, self.start, self.ctx))
        } else {
            Ok(Decoder { input: self.input, start: self.start, end: self.start + count, ctx })
        }
    }

    /// Creates a new decoder with its own context.
    pub fn with_context(&self, ctx: Context) -> (r: Decoder<'input>)
        ensures
            r == self.spec_with_context(ctx),
            r.pos() == self.pos() && r.bytes() == self.bytes(),
    {
        proof {
            use_type_invariant(self);
        }
        Decoder { input: self.input, start: self.start, end: self.end, ctx }
    }

    /// Advances by a specific number of bytes.
    pub fn advance(&mut self, count: usize) -> (r: Result<(), DecodeError>)
        ensures
            count <= old(self).remaining() ==> r == Ok::<(), DecodeError>(()) && *final(self) == old(self).spec_advance(count as int),
            count > old(self).remaining() ==> r == Err::<(), DecodeError>(old(self).error_here(DecodeErrorKind::UnexpectedEoi))
                && *final(self) == *old(self),
            final(self).follows(*old(self)),
    {
        proof {
            use_type_invariant(&*self);
        }
        if count > self.end - self.start {
            Err(DecodeError::with_info(DecodeErrorKind::UnexpectedEoi, self.start, self.ctx))
        } else {
            self.start = self.start + count;
            Ok(())
        }
    }

    /// Reads bytes into the buffer supplied and advances.
    pub fn read_bytes(&mut self, buf: &mut [u8]) -> (r: Result<(), DecodeError>)
        ensures
            old(buf)@.len() <= old(self).remaining() ==> r is Ok
                && *final(self) == old(self).spec_advance(old(buf)@.len() as int)
                && final(buf)@ == old(self).bytes().take(old(buf)@.len() as int),
            old(buf)@.len() > old(self).remaining() ==> r == Err::<(), DecodeError>(old(self).error_here(DecodeErrorKind::UnexpectedEoi))
                && *final(self) == *old(self) && final(buf)@ == old(buf)@,
            final(self).follows(*old(self)),
    {
        proof {
            use_type_invariant(&*self);
        }
        let n = buf.len();
        if n > self.end - self.start {
            return Err(DecodeError::with_info(DecodeErrorKind::UnexpectedEoi, self.start, self.ctx));
        }
        let mut i: usize = 0;
        while i < n
            invariant
                n == buf@.len(),
                n <= self.end - self.start,
                self.start + n <= self.end <= self.input@.len(),
                i <= n,
                forall|j: int| 0 <= j < i ==> buf@[j] == self.input@[self.start + j],
            decreases n - i,
        {
            buf[i] = self.input[self.start + i];
            i = i + 1;
        }
        assert(buf@ =~= old(self).bytes().take(n as int));
        self.start = self.start + n;
        Ok(())
    }

    /// Advances by `count` and returns `count` bytes.
    pub fn split_bytes_off(&mut self, count: usize) -> (r: Result<&'input [u8], DecodeError>)
        ensures
            count <= old(self).remaining() ==> r is Ok && r->Ok_0@ == old(self).bytes().take(count as int)
                && *final(self) == old(self).spec_advance(count as int),
            count > old(self).remaining() ==> r is Err && r->Err_0 == old(self).error_here(DecodeErrorKind::UnexpectedEoi)
                && *final(self) == *old(self),
            final(self).follows(*old(self)),
    {
        proof {
            use_type_invariant(&*self);
        }
        if count > self.end - self.start {
            Err(DecodeError::with_info(DecodeErrorKind::UnexpectedEoi, self.start, self.ctx))
        } else {
            let (_, rest) = self.input.split_at(self.start);
            let (v, _) = rest.split_at(count);
            self.start = self.start + count;
            Ok(v)
        }
    }

    /// Reads `n` bytes as a big-endian number.
    fn read_be(&mut self, n: usize) -> (r: Result<u128, DecodeError>)
        requires
            n <= 16,
        ensures
            n <= old(self).remaining() ==> r == Ok::<u128, DecodeError>(be_value(old(self).bytes().take(n as int)) as u128)
                && *final(self) == old(self).spec_advance(n as int),
            n > old(self).remaining() ==> r == Err::<u128, DecodeError>(old(self).error_here(DecodeErrorKind::UnexpectedEoi))
                && *final(self) == *old(self),
    {
        proof {
            use_type_invariant(&*self);
        }
        if n > self.end - self.start {
            return Err(DecodeError::with_info(DecodeErrorKind::UnexpectedEoi, self.start, self.ctx));
        }
        let ghost bytes = self.bytes();
        let mut v: u128 = 0;
        let mut i: usize = 0;
        while i < n
            invariant
                n <= 16,
                self.start + n <= self.end <= self.input@.len(),
                bytes == self.input@.subrange(self.start as int, self.end as int),
                i <= n,
                v as nat == be_value(bytes.take(i as int)),
            decreases n - i,
        {
            proof {
                assert(bytes.take(i + 1).drop_last() =~= bytes.take(i as int));
                lemma_be_value_bound(bytes.take(i + 1));
                vstd::arithmetic::power::lemma_pow_increases(256, (i + 1) as nat, 16);
                reveal_with_fuel(vstd::arithmetic::power::pow, 17);
                assert(vstd::arithmetic::power::pow(256, 16) == 0x1_0000_0000_0000_0000_0000_0000_0000_0000int);
            }
            v = v * 256 + self.input[self.start + i] as u128;
            i = i + 1;
        }
        self.start = self.start + n;
        Ok(v)
    }

    /// What taking `n` bytes off the front as a modified UTF-8 string gives back.
    pub open(crate) spec fn spec_split_mstr(self, n: int) -> (Result<MStr<'input>, DecodeError>, Decoder<'input>) {
        if 0 <= n <= self.remaining() {
            if valid_mutf8(self.bytes().take(n)) {
                (Ok(MStr::spec_window(self.input, self.start, (self.start + n) as usize)), self.spec_advance(n))
            } else {
                (Err(spec_error(DecodeErrorKind::InvalidMutf8, None, Context::NoContext)), self.spec_advance(n))
            }
        } else {
            (Err(self.error_here(DecodeErrorKind::UnexpectedEoi)), self)
        }
    }

    /// Advances by `count` and returns the `count` bytes as a modified UTF-8 string.
    pub fn split_mstr(&mut self, count: usize) -> (r: Result<MStr<'input>, DecodeError>)
        ensures
            (r, *final(self)) == old(self).spec_split_mstr(count as int),
            final(self).follows(*old(self)),
    {
        proof {
            use_type_invariant(&*self);
        }
        if count > self.end - self.start {
            return Err(DecodeError::with_info(DecodeErrorKind::UnexpectedEoi, self.start, self.ctx));
        }
        let start = self.start;
        self.start = self.start + count;
        proof {
            assert(old(self).bytes().take(count as int) =~= self.input@.subrange(start as int, start + count));
        }
        MStr::from_window(self.input, start, start + count)
    }

    pub fn read<T: Decode<'input>>(&mut self) -> (r: Result<T, DecodeError>)
        ensures
            (r, *final(self)) == T::spec_decode(*old(self)),
            final(self).follows(*old(self)),
    {
        T::decode(self)
    }

    pub fn read_into<T: DecodeInto<'input>>(self) -> (r: Result<T, DecodeError>)
        ensures
            r == T::spec_decode_into(self),
    {
        T::decode_into(self)
    }
}

/// Reading a byte gives the first byte that is left and moves past it.
pub proof fn lemma_read_byte<'input>(d: Decoder<'input>)
    requires
        d.in_bounds(),
        d.remaining() >= 1,
    ensures
        <u8 as Decode<'input>>::spec_decode(d) == (Ok::<u8, DecodeError>(d.bytes()[0]), d.spec_advance(1)),
        d.spec_advance(1).in_bounds(),
        d.spec_advance(1).bytes() == d.bytes().skip(1),
        d.spec_advance(1).remaining() == d.remaining() - 1,
{
    let b = d.bytes().take(1);
    assert(b.drop_last() =~= Seq::<u8>::empty());
    assert(be_value(Seq::<u8>::empty()) == 0);
    assert(be_value(b) == b.last() as nat);
    assert(d.spec_advance(1).bytes() =~= d.bytes().skip(1));
}

/// Reading a `u16` gives the first two bytes that are left, high byte first, and moves past them.
pub proof fn lemma_read_u16<'input>(d: Decoder<'input>)
    requires
        d.in_bounds(),
        d.remaining() >= 2,
    ensures
        <u16 as Decode<'input>>::spec_decode(d) == (
            Ok::<u16, DecodeError>((d.bytes()[0] as nat * 256 + d.bytes()[1] as nat) as u16),
            d.spec_advance(2),
        ),
        d.spec_advance(2).in_bounds(),
        d.spec_advance(2).bytes() == d.bytes().skip(2),
        d.spec_advance(2).remaining() == d.remaining() - 2,
{
    let b = d.bytes().take(2);
    assert(b.drop_last().drop_last() =~= Seq::<u8>::empty());
    assert(be_value(Seq::<u8>::empty()) == 0);
    assert(be_value(b.drop_last()) == b[0] as nat);
    assert(be_value(b) == b[0] as nat * 256 + b[1] as nat);
    assert(d.spec_advance(2).bytes() =~= d.bytes().skip(2));
}

/// Reading a `u32` gives the first four bytes that are left, high byte first, and moves past them.
pub proof fn lemma_read_u32<'input>(d: Decoder<'input>)
    requires
        d.in_bounds(),
        d.remaining() >= 4,
    ensures
        <u32 as Decode<'input>>::spec_decode(d) == (
            Ok::<u32, DecodeError>(
                (((d.bytes()[0] as nat * 256 + d.bytes()[1] as nat) * 256 + d.bytes()[2] as nat) * 256
                    + d.bytes()[3] as nat) as u32,
            ),
            d.spec_advance(4),
        ),
        d.spec_advance(4).in_bounds(),
        d.spec_advance(4).bytes() == d.bytes().skip(4),
        d.spec_advance(4).remaining() == d.remaining() - 4,
{
    let b = d.bytes().take(4);
    let b3 = b.drop_last();
    let b2 = b3.drop_last();
    let b1 = b2.drop_last();
    assert(b1.drop_last() =~= Seq::<u8>::empty());
    assert(be_value(Seq::<u8>::empty()) == 0);
    assert(be_value(b1) == b[0] as nat);
    assert(be_value(b2) == b[0] as nat * 256 + b[1] as nat);
    assert(be_value(b3) == (b[0] as nat * 256 + b[1] as nat) * 256 + b[2] as nat);
    assert(be_value(b) == ((b[0] as nat * 256 + b[1] as nat) * 256 + b[2] as nat) * 256 + b[3] as nat);
    assert(d.spec_advance(4).bytes() =~= d.bytes().skip(4));
}

/// Decoders keep their place in the file. A decoder made over a whole buffer, and every decoder
/// that follows it after any sequence of reads, advances, splits and context changes, successful
/// or not, stands at a position such that the position and the bytes remaining add up to the
/// length of the buffer, and the bytes remaining are the buffer from that position on. A decoder
/// limited to the bytes ahead, or given another context, stands where its parent stands: its
/// position counts from the start of the file.
pub proof fn lemma_file_position<'input>(
    buf: &'input [u8],
    ctx: Context,
    d: Decoder<'input>,
    n: int,
    sub_ctx: Context,
)
    requires
        buf@.len() <= usize::MAX,
        d.follows(Decoder::spec_new(buf, ctx)),
        d.remaining() >= 0,
    ensures
        d.pos() + d.remaining() == buf@.len(),
        d.bytes() == buf@.skip(d.pos() as int),
        d.spec_limit(n, sub_ctx).pos() == d.pos(),
        d.spec_with_context(sub_ctx).pos() == d.pos(),
        d.spec_with_context(sub_ctx).follows(Decoder::spec_new(buf, ctx)),
{
    assert(d.bytes() =~= buf@.skip(d.pos() as int));
}

/// Following is a chain: a decoder that follows one that follows a third follows the third,
/// and every decoder follows itself.
pub proof fn lemma_follows_chain<'input>(a: Decoder<'input>, b: Decoder<'input>, c: Decoder<'input>)
    ensures
        a.follows(a),
        b.follows(a) && c.follows(b) ==> c.follows(a),
{
}

/// A value that can be read from the front of a decoder.
pub trait Decode<'input>: Sized {
    /// What a read gives back, and the decoder it leaves behind.
    spec fn spec_decode(decoder: Decoder<'input>) -> (Result<Self, DecodeError>, Decoder<'input>);

    fn decode(decoder: &mut Decoder<'input>) -> (r: Result<Self, DecodeError>)
        ensures
            (r, *final(decoder)) == Self::spec_decode(*old(decoder)),
            final(decoder).follows(*old(decoder)),
    ;
}

/// A value that is read from a whole decoder.
pub trait DecodeInto<'input>: Sized {
    spec fn spec_decode_into(decoder: Decoder<'input>) -> Result<Self, DecodeError>;

    fn decode_into(decoder: Decoder<'input>) -> (r: Result<Self, DecodeError>)
        ensures
            r == Self::spec_decode_into(decoder),
    ;
}

/// What a read of an `n`-byte big-endian number gives back, as its value.
pub open spec fn spec_read_be<'input>(d: Decoder<'input>, n: int) -> (Result<nat, DecodeError>, Decoder<'input>) {
    match d.spec_split(n).0 {
        Ok(b) => (Ok(be_value(b)), d.spec_advance(n)),
        Err(e) => (Err(e), d),
    }
}

/// A read of `n` bytes gives a value below `256^n`.
proof fn lemma_read_be_bound<'input>(d: Decoder<'input>, n: int)
    requires
        0 <= n,
        d.start <= d.end <= d.input@.len(),
    ensures
        spec_read_be(d, n).0 matches Ok(v) ==> v < vstd::arithmetic::power::pow(256, n as nat),
{
    if 0 <= n <= d.remaining() {
        lemma_be_value_bound(d.bytes().take(n));
    }
}

impl<'input> Decode<'input> for u8 {
    open spec fn spec_decode(decoder: Decoder<'input>) -> (Result<u8, DecodeError>, Decoder<'input>) {
        let (r, after) = spec_read_be(decoder, 1);
        (
            match r {
                Ok(v) => Ok(v as u8),
                Err(e) => Err(e),
            },
            after,
        )
    }

    fn decode(decoder: &mut Decoder<'input>) -> (r: Result<u8, DecodeError>) {
        proof {
            use_type_invariant(&*decoder);
            lemma_read_be_bound(*decoder, 1);
            reveal_with_fuel(vstd::arithmetic::power::pow, 2);
        }
        match decoder.read_be(1) {
            Ok(v) => Ok(v as u8),
            Err(e) => Err(e),
        }
    }
}

impl<'input> Decode<'input> for i8 {
    open spec fn spec_decode(decoder: Decoder<'input>) -> (Result<i8, DecodeError>, Decoder<'input>) {
        let (r, after) = spec_read_be(decoder, 1);
        (
            match r {
                Ok(v) => Ok((v as u8) as i8),
                Err(e) => Err(e),
            },
            after,
        )
    }

    fn decode(decoder: &mut Decoder<'input>) -> (r: Result<i8, DecodeError>) {
        proof {
            use_type_invariant(&*decoder);
            lemma_read_be_bound(*decoder, 1);
            reveal_with_fuel(vstd::arithmetic::power::pow, 2);
        }
        match decoder.read_be(1) {
            Ok(v) => Ok((v as u8) as i8),
            Err(e) => Err(e),
        }
    }
}

impl<'input> Decode<'input> for u16 {
    open spec fn spec_decode(decoder: Decoder<'input>) -> (Result<u16, DecodeError>, Decoder<'input>) {
        let (r, after) = spec_read_be(decoder, 2);
        (
            match r {
                Ok(v) => Ok(v as u16),
                Err(e) => Err(e),
            },
            after,
        )
    }

    fn decode(decoder: &mut Decoder<'input>) -> (r: Result<u16, DecodeError>) {
        proof {
            use_type_invariant(&*decoder);
            lemma_read_be_bound(*decoder, 2);
            reveal_with_fuel(vstd::arithmetic::power::pow, 3);
        }
        match decoder.read_be(2) {
            Ok(v) => Ok(v as u16),
            Err(e) => Err(e),
        }
    }
}

impl<'input> Decode<'input> for i16 {
    open spec fn spec_decode(decoder: Decoder<'input>) -> (Result<i16, DecodeError>, Decoder<'input>) {
        let (r, after) = spec_read_be(decoder, 2);
        (
            match r {
                Ok(v) => Ok((v as u16) as i16),
                Err(e) => Err(e),
            },
            after,
        )
    }

    fn decode(decoder: &mut Decoder<'input>) -> (r: Result<i16, DecodeError>) {
        proof {
            use_type_invariant(&*decoder);
            lemma_read_be_bound(*decoder, 2);
            reveal_with_fuel(vstd::arithmetic::power::pow, 3);
        }
        match decoder.read_be(2) {
            Ok(v) => Ok((v as u16) as i16),
            Err(e) => Err(e),
        }
    }
}

impl<'input> Decode<'input> for u32 {
    open spec fn spec_decode(decoder: Decoder<'input>) -> (Result<u32, DecodeError>, Decoder<'input>) {
        let (r, after) = spec_read_be(decoder, 4);
        (
            match r {
                Ok(v) => Ok(v as u32),
                Err(e) => Err(e),
            },
            after,
        )
    }

    fn decode(decoder: &mut Decoder<'input>) -> (r: Result<u32, DecodeError>) {
        proof {
            use_type_invariant(&*decoder);
            lemma_read_be_bound(*decoder, 4);
            reveal_with_fuel(vstd::arithmetic::power::pow, 5);
        }
        match decoder.read_be(4) {
            Ok(v) => Ok(v as u32),
            Err(e) => Err(e),
        }
    }
}

impl<'input> Decode<'input> for i32 {
    open spec fn spec_decode(decoder: Decoder<'input>) -> (Result<i32, DecodeError>, Decoder<'input>) {
        let (r, after) = spec_read_be(decoder, 4);
        (
            match r {
                Ok(v) => Ok((v as u32) as i32),
                Err(e) => Err(e),
            },
            after,
        )
    }

    fn decode(decoder: &mut Decoder<'input>) -> (r: Result<i32, DecodeError>) {
        proof {
            use_type_invariant(&*decoder);
            lemma_read_be_bound(*decoder, 4);
            reveal_with_fuel(vstd::arithmetic::power::pow, 5);
        }
        match decoder.read_be(4) {
            Ok(v) => Ok((v as u32) as i32),
            Err(e) => Err(e),
        }
    }
}

impl<'input> Decode<'input> for u64 {
    open spec fn spec_decode(decoder: Decoder<'input>) -> (Result<u64, DecodeError>, Decoder<'input>) {
        let (r, after) = spec_read_be(decoder, 8);
        (
            match r {
                Ok(v) => Ok(v as u64),
                Err(e) => Err(e),
            },
            after,
        )
    }

    fn decode(decoder: &mut Decoder<'input>) -> (r: Result<u64, DecodeError>) {
        proof {
            use_type_invariant(&*decoder);
            lemma_read_be_bound(*decoder, 8);
            reveal_with_fuel(vstd::arithmetic::power::pow, 9);
        }
        match decoder.read_be(8) {
            Ok(v) => Ok(v as u64),
            Err(e) => Err(e),
        }
    }
}

impl<'input> Decode<'input> for i64 {
    open spec fn spec_decode(decoder: Decoder<'input>) -> (Result<i64, DecodeError>, Decoder<'input>) {
        let (r, after) = spec_read_be(decoder, 8);
        (
            match r {
                Ok(v) => Ok((v as u64) as i64),
                Err(e) => Err(e),
            },
            after,
        )
    }

    fn decode(decoder: &mut Decoder<'input>) -> (r: Result<i64, DecodeError>) {
        proof {
            use_type_invariant(&*decoder);
            lemma_read_be_bound(*decoder, 8);
            reveal_with_fuel(vstd::arithmetic::power::pow, 9);
        }
        match decoder.read_be(8) {
            Ok(v) => Ok((v as u64) as i64),
            Err(e) => Err(e),
        }
    }
}

impl<'input> Decode<'input> for u128 {
    open spec fn spec_decode(decoder: Decoder<'input>) -> (Result<u128, DecodeError>, Decoder<'input>) {
        let (r, after) = spec_read_be(decoder, 16);
        (
            match r {
                Ok(v) => Ok(v as u128),
                Err(e) => Err(e),
            },
            after,
        )
    }

    fn decode(decoder: &mut Decoder<'input>) -> (r: Result<u128, DecodeError>) {
        proof {
            use_type_invariant(&*decoder);
            lemma_read_be_bound(*decoder, 16);
            reveal_with_fuel(vstd::arithmetic::power::pow, 17);
        }
        match decoder.read_be(16) {
            Ok(v) => Ok(v as u128),
            Err(e) => Err(e),
        }
    }
}

impl<'input> Decode<'input> for i128 {
    open spec fn spec_decode(decoder: Decoder<'input>) -> (Result<i128, DecodeError>, Decoder<'input>) {
        let (r, after) = spec_read_be(decoder, 16);
        (
            match r {
                Ok(v) => Ok((v as u128) as i128),
                Err(e) => Err(e),
            },
            after,
        )
    }

    fn decode(decoder: &mut Decoder<'input>) -> (r: Result<i128, DecodeError>) {
        proof {
            use_type_invariant(&*decoder);
            lemma_read_be_bound(*decoder, 16);
            reveal_with_fuel(vstd::arithmetic::power::pow, 17);
        }
        match decoder.read_be(16) {
            Ok(v) => Ok((v as u128) as i128),
            Err(e) => Err(e),
        }
    }
}

/// A counter that is counted down to zero.
pub trait Countdown: Copy {
    /// The number that is left to count down.
    spec fn spec_count(self) -> nat;

    /// Decrements the counter and returns whether it can continue.
    fn decrement(&mut self) -> (r: ControlFlow<()>)
        ensures
            old(self).spec_count() > 0 ==> r == ControlFlow::<(), ()>::Continue(())
                && final(self).spec_count() == old(self).spec_count() - 1,
            old(self).spec_count() == 0 ==> r == ControlFlow::<(), ()>::Break(()) && *final(self) == *old(self),
    ;

    /// The counter as a `usize`.
    fn to_usize(self) -> (r: usize)
        ensures
            r == self.spec_count(),
    ;
}

impl Countdown for u8 {
    open spec fn spec_count(self) -> nat {
        self as nat
    }

    fn decrement(&mut self) -> (r: ControlFlow<()>) {
        match self.checked_sub(1) {
            Some(i) => {
                *self = i;
                ControlFlow::Continue(())
            },
            None => ControlFlow::Break(()),
        }
    }

    fn to_usize(self) -> (r: usize) {
        self as usize
    }
}

impl Countdown for u16 {
    open spec fn spec_count(self) -> nat {
        self as nat
    }

    fn decrement(&mut self) -> (r: ControlFlow<()>) {
        match self.checked_sub(1) {
            Some(i) => {
                *self = i;
                ControlFlow::Continue(())
            },
            None => ControlFlow::Break(()),
        }
    }

    fn to_usize(self) -> (r: usize) {
        self as usize
    }
}

/// Reading `n` values of `T` one after the other, keeping none of them:
/// the first error, or success, and the decoder left behind.
pub open spec fn spec_skip_many<'input, T: Decode<'input>>(d: Decoder<'input>, n: nat) -> (Result<(), DecodeError>, Decoder<'input>)
    decreases n,
{
    if n == 0 {
        (Ok(()), d)
    } else {
        let (r, after) = T::spec_decode(d);
        match r {
            Err(e) => (Err(e), after),
            Ok(_) => spec_skip_many::<T>(after, (n - 1) as nat),
        }
    }
}

/// The values that `n` reads of `T` give one after the other, as long as none fails.
pub open spec fn spec_values<'input, T: Decode<'input>>(d: Decoder<'input>, n: nat) -> Seq<T>
    decreases n,
{
    if n == 0 {
        Seq::empty()
    } else {
        let (r, after) = T::spec_decode(d);
        match r {
            Err(_) => Seq::empty(),
            Ok(v) => seq![v] + spec_values::<T>(after, (n - 1) as nat),
        }
    }
}

/// A read of a number fails exactly when the input runs out; it then fails at the decoder's
/// position, in its context, and leaves the decoder where it was.
pub proof fn lemma_short_read<'input>(d: Decoder<'input>, n: int)
    requires
        0 <= n,
    ensures
        spec_read_be(d, n).0 is Err <==> n > d.remaining(),
        spec_read_be(d, n).0 is Err ==> spec_read_be(d, n) == (
            Err::<nat, DecodeError>(d.error_here(DecodeErrorKind::UnexpectedEoi)),
            d,
        ),
        spec_read_be(d, n).0 is Ok ==> spec_read_be(d, n).1 == d.spec_advance(n),
{
}

/// Values that were checked by skipping them read without error later on: the first one reads,
/// and the rest are still good after it.
pub proof fn lemma_checked_values_read<'input, T: Decode<'input>>(d: Decoder<'input>, n: nat)
    requires
        n > 0,
        spec_skip_many::<T>(d, n).0 is Ok,
    ensures
        T::spec_decode(d).0 is Ok,
        spec_skip_many::<T>(T::spec_decode(d).1, (n - 1) as nat).0 is Ok,
        spec_values::<T>(d, n) == seq![T::spec_decode(d).0->Ok_0] + spec_values::<T>(T::spec_decode(d).1, (n - 1) as nat),
{
}

/// A counted sequence that decodes has all of its values checked: each of them reads later on.
pub proof fn lemma_decoded_sequence_is_checked<'input, T, Count>(d: Decoder<'input>)
    where
        T: Decode<'input>,
        Count: Decode<'input> + Countdown,
    requires
        DecodeManyIter::<'input, T, Count>::spec_decode(d).0 is Ok,
    ensures
        ({
            let iter = DecodeManyIter::<'input, T, Count>::spec_decode(d).0->Ok_0;
            spec_skip_many::<T>(iter.spec_decoder(), iter.spec_remaining().spec_count()).0 is Ok
        }),
{
}

/// Checked values are all there: as many as were counted.
pub proof fn lemma_checked_values_len<'input, T: Decode<'input>>(d: Decoder<'input>, n: nat)
    requires
        spec_skip_many::<T>(d, n).0 is Ok,
    ensures
        spec_values::<T>(d, n).len() == n,
    decreases n,
{
    if n > 0 {
        lemma_checked_values_len::<T>(T::spec_decode(d).1, (n - 1) as nat);
    }
}

/// A value that is read once and then kept, or the error of that read.
#[derive(Debug, Clone)]
pub enum LazyDecodeRef<R> {
    NotRead,
    Read(R),
    Error(DecodeError),
}

impl<'input, R: Decode<'input>> LazyDecodeRef<R> {
    /// Reads the value on the first call, and gives back the kept value or error on later ones.
    pub fn get(&mut self, decoder: &mut Decoder<'input>) -> (r: Result<&R, DecodeError>)
        ensures
            match *old(self) {
                LazyDecodeRef::NotRead => {
                    let (res, after) = R::spec_decode(*old(decoder));
                    &&& *final(decoder) == after
                    &&& match res {
                        Ok(v) => *final(self) == LazyDecodeRef::Read(v) && r == Ok::<&R, DecodeError>(&v),
                        Err(e) => *final(self) == LazyDecodeRef::<R>::Error(e) && r == Err::<&R, DecodeError>(e),
                    }
                },
                LazyDecodeRef::Read(v) => *final(self) == *old(self) && *final(decoder) == *old(decoder)
                    && r == Ok::<&R, DecodeError>(&v),
                LazyDecodeRef::Error(e) => *final(self) == *old(self) && *final(decoder) == *old(decoder)
                    && r == Err::<&R, DecodeError>(e),
            },
    {
        if let LazyDecodeRef::NotRead = self {
            match decoder.read() {
                Ok(v) => {
                    *self = LazyDecodeRef::Read(v);
                },
                Err(err) => {
                    *self = LazyDecodeRef::Error(err);
                },
            }
        }
        match self {
            LazyDecodeRef::Read(v) => Ok(v),
            LazyDecodeRef::Error(err) => Err(*err),
            LazyDecodeRef::NotRead => Err(DecodeError::new(DecodeErrorKind::UnexpectedEoi)),
        }
    }
}

/// An iterator over `count` values of `T` that follow one another.
#[derive(Debug)]
pub struct DecodeManyIter<'input, T, Count> {
    pub(crate) decoder: Decoder<'input>,
    pub(crate) remaining: Count,
    pub(crate) marker: PhantomData<T>,
}

impl<'input, T, Count: Copy> Clone for DecodeManyIter<'input, T, Count> {
    fn clone(&self) -> (r: Self)
        ensures
            r == *self,
    {
        DecodeManyIter { decoder: self.decoder, remaining: self.remaining, marker: PhantomData }
    }
}

impl<'input, T, Count: Copy> Copy for DecodeManyIter<'input, T, Count> {
}

impl<'input, T, Count> DecodeManyIter<'input, T, Count> {
    pub open(crate) spec fn spec_decoder(self) -> Decoder<'input> {
        self.decoder
    }

    pub open(crate) spec fn spec_remaining(self) -> Count {
        self.remaining
    }

    pub open(crate) spec fn spec_from(decoder: Decoder<'input>, count: Count) -> Self {
        DecodeManyIter { decoder, remaining: count, marker: PhantomData }
    }

    pub fn new(decoder: Decoder<'input>, count: Count) -> (r: DecodeManyIter<'input, T, Count>)
        ensures
            r == Self::spec_from(decoder, count),
    {
        DecodeManyIter { decoder, remaining: count, marker: PhantomData }
    }
}

impl<'input, T: Decode<'input>, Count: Countdown> DecodeManyIter<'input, T, Count> {
    /// The values that are left, as long as none fails to be read.
    pub open(crate) spec fn spec_values(self) -> Seq<T> {
        spec_values::<T>(self.decoder, self.remaining.spec_count())
    }

    /// Reads the next value, if any is left.
    pub fn next(&mut self) -> (r: Option<Result<T, DecodeError>>)
        ensures
            old(self).spec_remaining().spec_count() == 0 ==> r is None && *final(self) == *old(self),
            old(self).spec_remaining().spec_count() > 0 ==> {
                let (res, after) = T::spec_decode(old(self).spec_decoder());
                &&& r == Some(res)
                &&& final(self).spec_decoder() == after
                &&& final(self).spec_remaining().spec_count() == old(self).spec_remaining().spec_count() - 1
            },
    {
        match self.remaining.decrement() {
            ControlFlow::Continue(()) => Some(self.decoder.read()),
            ControlFlow::Break(()) => None,
        }
    }
}

impl<'input, T, Count> Decode<'input> for DecodeManyIter<'input, T, Count> where
    T: Decode<'input>,
    Count: Decode<'input> + Countdown,
 {
    /// Reads the count and checks that that many values can be read after it.
    open spec fn spec_decode(decoder: Decoder<'input>) -> (Result<Self, DecodeError>, Decoder<'input>) {
        let (rc, start) = Count::spec_decode(decoder);
        match rc {
            Err(e) => (Err(e), start),
            Ok(c) => {
                let (rs, end) = spec_skip_many::<T>(start, c.spec_count());
                match rs {
                    Err(e) => (Err(e), end),
                    Ok(_) => (Ok(Self::spec_from(start, c)), end),
                }
            },
        }
    }

    fn decode(decoder: &mut Decoder<'input>) -> (r: Result<Self, DecodeError>) {
        let count: Count = match decoder.read() {
            Ok(c) => c,
            Err(e) => return Err(e),
        };
        let start = *decoder;
        let mut remaining = count;
        loop
            invariant
                spec_skip_many::<T>(*decoder, remaining.spec_count()) == spec_skip_many::<T>(
                    start,
                    count.spec_count(),
                ),
                Count::spec_decode(*old(decoder)) == (Ok::<Count, DecodeError>(count), start),
                decoder.follows(*old(decoder)),
            ensures
                spec_skip_many::<T>(start, count.spec_count()) == (Ok::<(), DecodeError>(()), *decoder),
            decreases remaining.spec_count(),
        {
            let ghost before = *decoder;
            let ghost n = remaining.spec_count();
            match remaining.decrement() {
                ControlFlow::Continue(()) => {
                    assert(spec_skip_many::<T>(before, n) == match T::spec_decode(before).0 {
                        Err(e) => (Err(e), T::spec_decode(before).1),
                        Ok(_) => spec_skip_many::<T>(T::spec_decode(before).1, (n - 1) as nat),
                    });
                    match decoder.read::<T>() {
                        Ok(_) => {},
                        Err(e) => {
                            assert(spec_skip_many::<T>(start, count.spec_count()) == (Err::<(), DecodeError>(e), *decoder));
                            return Err(e);
                        },
                    }
                },
                ControlFlow::Break(()) => break,
            }
        }
        Ok(DecodeManyIter { decoder: start, remaining: count, marker: PhantomData })
    }
}

impl<'input, T, Count> DecodeInto<'input> for DecodeManyIter<'input, T, Count> where
    Count: Decode<'input>,
 {
    /// Reads the count; the values after it are read on demand.
    open spec fn spec_decode_into(decoder: Decoder<'input>) -> Result<Self, DecodeError> {
        let (rc, start) = Count::spec_decode(decoder);
        match rc {
            Err(e) => Err(e),
            Ok(c) => Ok(Self::spec_from(start, c)),
        }
    }

    fn decode_into(decoder: Decoder<'input>) -> (r: Result<Self, DecodeError>) {
        let mut decoder = decoder;
        match decoder.read() {
            Ok(remaining) => Ok(DecodeManyIter { decoder, remaining, marker: PhantomData }),
            Err(e) => Err(e),
        }
    }
}

/// A count-prefixed sequence of values of `T`.
#[derive(Debug)]
pub struct DecodeMany<'input, T, Count> {
    pub(crate) iter: DecodeManyIter<'input, T, Count>,
}

impl<'input, T, Count: Copy> Clone for DecodeMany<'input, T, Count> {
    fn clone(&self) -> (r: Self)
        ensures
            r == *self,
    {
        DecodeMany { iter: self.iter }
    }
}

impl<'input, T, Count: Copy> Copy for DecodeMany<'input, T, Count> {
}

impl<'input, T, Count> DecodeMany<'input, T, Count> {
    pub open(crate) spec fn spec_iter(self) -> DecodeManyIter<'input, T, Count> {
        self.iter
    }

    pub open(crate) spec fn spec_from(iter: DecodeManyIter<'input, T, Count>) -> Self {
        DecodeMany { iter }
    }
}

impl<'input, T, Count> DecodeMany<'input, T, Count> where T: Decode<'input>, Count: Decode<'input> + Countdown {
    /// An iterator over the values, from the first.
    pub fn iter(&self) -> (r: DecodeManyIter<'input, T, Count>)
        ensures
            r == self.spec_iter(),
    {
        self.iter
    }
}

impl<'input, T, Count> Decode<'input> for DecodeMany<'input, T, Count> where
    T: Decode<'input>,
    Count: Decode<'input> + Countdown,
 {
    open spec fn spec_decode(decoder: Decoder<'input>) -> (Result<Self, DecodeError>, Decoder<'input>) {
        let (r, after) = DecodeManyIter::<'input, T, Count>::spec_decode(decoder);
        (
            match r {
                Ok(iter) => Ok(Self::spec_from(iter)),
                Err(e) => Err(e),
            },
            after,
        )
    }

    fn decode(decoder: &mut Decoder<'input>) -> (r: Result<Self, DecodeError>) {
        match decoder.read() {
            Ok(iter) => Ok(DecodeMany { iter }),
            Err(e) => Err(e),
        }
    }
}

impl<'input, T, Count> DecodeInto<'input> for DecodeMany<'input, T, Count> where
    Count: Decode<'input>,
 {
    open spec fn spec_decode_into(decoder: Decoder<'input>) -> Result<Self, DecodeError> {
        match DecodeManyIter::<'input, T, Count>::spec_decode_into(decoder) {
            Ok(iter) => Ok(Self::spec_from(iter)),
            Err(e) => Err(e),
        }
    }

    fn decode_into(decoder: Decoder<'input>) -> (r: Result<Self, DecodeError>) {
        match decoder.read_into() {
            Ok(iter) => Ok(DecodeMany { iter }),
            Err(e) => Err(e),
        }
    }
}

/// An iterator that reads values of `T` until the input is used up.
#[derive(Debug)]
pub struct DecodeIter<'input, T> {
    pub(crate) decoder: Decoder<'input>,
    pub(crate) marker: PhantomData<T>,
}

impl<'input, T> Clone for DecodeIter<'input, T> {
    fn clone(&self) -> (r: Self)
        ensures
            r == *self,
    {
        DecodeIter { decoder: self.decoder, marker: PhantomData }
    }
}

impl<'input, T> DecodeIter<'input, T> {
    pub open(crate) spec fn spec_decoder(self) -> Decoder<'input> {
        self.decoder
    }

    pub fn new(decoder: Decoder<'input>) -> (r: DecodeIter<'input, T>)
        ensures
            r.spec_decoder() == decoder,
    {
        DecodeIter { decoder, marker: PhantomData }
    }
}

impl<'input, T: Decode<'input>> DecodeIter<'input, T> {
    /// Reads the next value; the end of the input ends the iteration.
    pub fn next(&mut self) -> (r: Option<Result<T, DecodeError>>)
        ensures
            ({
                let (res, after) = T::spec_decode(old(self).spec_decoder());
                &&& final(self).spec_decoder() == after
                &&& match res {
                    Err(e) => if e.spec_kind() == DecodeErrorKind::UnexpectedEoi {
                        r is None
                    } else {
                        r == Some(Err::<T, DecodeError>(e))
                    },
                    Ok(v) => r == Some(Ok::<T, DecodeError>(v)),
                }
            }),
    {
        match self.decoder.read() {
            Err(err) => {
                if err.kind() == DecodeErrorKind::UnexpectedEoi {
                    None
                } else {
                    Some(Err(err))
                }
            },
            res => Some(res),
        }
    }
}

/// An iterator over a number of values of `T` that follow one another, read on demand.
#[derive(Debug)]
pub struct DecodeCounted<'input, T> {
    pub(crate) decoder: Decoder<'input>,
    pub(crate) remaining: u16,
    pub(crate) marker: PhantomData<T>,
}

impl<'input, T> Clone for DecodeCounted<'input, T> {
    fn clone(&self) -> (r: Self)
        ensures
            r == *self,
    {
        DecodeCounted { decoder: self.decoder, remaining: self.remaining, marker: PhantomData }
    }
}

impl<'input, T> Copy for DecodeCounted<'input, T> {
}

impl<'input, T> DecodeCounted<'input, T> {
    pub open(crate) spec fn spec_decoder(self) -> Decoder<'input> {
        self.decoder
    }

    pub open(crate) spec fn spec_remaining(self) -> u16 {
        self.remaining
    }

    pub open(crate) spec fn spec_from(decoder: Decoder<'input>, count: u16) -> Self {
        DecodeCounted { decoder, remaining: count, marker: PhantomData }
    }

    pub fn new(decoder: Decoder<'input>, count: u16) -> (r: DecodeCounted<'input, T>)
        ensures
            r == Self::spec_from(decoder, count),
    {
        DecodeCounted { decoder, remaining: count, marker: PhantomData }
    }

    /// The number of values that are left.
    pub fn count(self) -> (r: usize)
        ensures
            r == self.spec_remaining(),
    {
        self.remaining as usize
    }
}

impl<'input, T: Decode<'input>> DecodeCounted<'input, T> {
    /// Reads the next value, if any is left.
    pub fn next(&mut self) -> (r: Option<Result<T, DecodeError>>)
        ensures
            old(self).spec_remaining() == 0 ==> r is None && *final(self) == *old(self),
            old(self).spec_remaining() > 0 ==> {
                let (res, after) = T::spec_decode(old(self).spec_decoder());
                &&& r == Some(res)
                &&& *final(self) == Self::spec_from(after, (old(self).spec_remaining() - 1) as u16)
            },
    {
        if self.remaining == 0 {
            None
        } else {
            self.remaining = self.remaining - 1;
            Some(self.decoder.read())
        }
    }
}

impl<'input, T> DecodeInto<'input> for DecodeCounted<'input, T> {
    /// Reads the count; the values after it are read on demand.
    open spec fn spec_decode_into(decoder: Decoder<'input>) -> Result<Self, DecodeError> {
        let (rc, start) = u16::spec_decode(decoder);
        match rc {
            Err(e) => Err(e),
            Ok(c) => Ok(Self::spec_from(start, c)),
        }
    }

    fn decode_into(decoder: Decoder<'input>) -> (r: Result<Self, DecodeError>) {
        let mut decoder = decoder;
        match decoder.read() {
            Ok(remaining) => Ok(DecodeCounted { decoder, remaining, marker: PhantomData }),
            Err(e) => Err(e),
        }
    }
}

/// A count-prefixed sequence of values of `T` that hands out fresh iterators.
#[derive(Debug)]
pub struct DecodeCountedCopy<'input, T> {
    pub(crate) iter: DecodeCounted<'input, T>,
}

impl<'input, T> Clone for DecodeCountedCopy<'input, T> {
    fn clone(&self) -> (r: Self)
        ensures
            r == *self,
    {
        DecodeCountedCopy { iter: self.iter }
    }
}

impl<'input, T> DecodeCountedCopy<'input, T> {
    pub open(crate) spec fn spec_iter(self) -> DecodeCounted<'input, T> {
        self.iter
    }

    pub open(crate) spec fn spec_from(iter: DecodeCounted<'input, T>) -> Self {
        DecodeCountedCopy { iter }
    }

    /// An iterator over the values, from the first.
    pub fn iter(&self) -> (r: DecodeCounted<'input, T>)
        ensures
            r == self.spec_iter(),
    {
        self.iter
    }
}

impl<'input, T> DecodeInto<'input> for DecodeCountedCopy<'input, T> {
    open spec fn spec_decode_into(decoder: Decoder<'input>) -> Result<Self, DecodeError> {
        match DecodeCounted::<'input, T>::spec_decode_into(decoder) {
            Ok(iter) => Ok(Self::spec_from(iter)),
            Err(e) => Err(e),
        }
    }

    fn decode_into(decoder: Decoder<'input>) -> (r: Result<Self, DecodeError>) {
        match decoder.read_into() {
            Ok(iter) => Ok(DecodeCountedCopy { iter }),
            Err(e) => Err(e),
        }
    }
}

/// A read whose value is mapped by `f`.
pub open spec fn spec_map<'input, A, B>(
    r: (Result<A, DecodeError>, Decoder<'input>),
    f: spec_fn(A) -> B,
) -> (Result<B, DecodeError>, Decoder<'input>) {
    (
        match r.0 {
            Ok(a) => Ok(f(a)),
            Err(e) => Err(e),
        },
        r.1,
    )
}

impl<'input, A: Decode<'input>, B: Decode<'input>> Decode<'input> for (A, B) {
    /// Reads `A`, then `B`.
    open spec fn spec_decode(decoder: Decoder<'input>) -> (Result<(A, B), DecodeError>, Decoder<'input>) {
        let (ra, d1) = A::spec_decode(decoder);
        match ra {
            Err(e) => (Err(e), d1),
            Ok(a) => {
                let (rb, d2) = B::spec_decode(d1);
                match rb {
                    Err(e) => (Err(e), d2),
                    Ok(b) => (Ok((a, b)), d2),
                }
            },
        }
    }

    fn decode(decoder: &mut Decoder<'input>) -> (r: Result<(A, B), DecodeError>) {
        let a = match decoder.read::<A>() {
            Ok(a) => a,
            Err(e) => return Err(e),
        };
        match decoder.read::<B>() {
            Ok(b) => Ok((a, b)),
            Err(e) => Err(e),
        }
    }
}

impl<'input, A: Decode<'input>, B: Decode<'input>, C: Decode<'input>> Decode<'input> for (A, B, C) {
    /// Reads `A`, then `B`, then `C`.
    open spec fn spec_decode(decoder: Decoder<'input>) -> (Result<(A, B, C), DecodeError>, Decoder<'input>) {
        let (ra, d1) = <(A, B)>::spec_decode(decoder);
        match ra {
            Err(e) => (Err(e), d1),
            Ok(ab) => {
                let (rc, d2) = C::spec_decode(d1);
                match rc {
                    Err(e) => (Err(e), d2),
                    Ok(c) => (Ok((ab.0, ab.1, c)), d2),
                }
            },
        }
    }

    fn decode(decoder: &mut Decoder<'input>) -> (r: Result<(A, B, C), DecodeError>) {
        let ab = match decoder.read::<(A, B)>() {
            Ok(ab) => ab,
            Err(e) => return Err(e),
        };
        match decoder.read::<C>() {
            Ok(c) => Ok((ab.0, ab.1, c)),
            Err(e) => Err(e),
        }
    }
}

} // verus!
