use noak::error::{Context, DecodeErrorKind};
use noak::reader::decoding::{DecodeCounted, DecodeInto, DecodeIter, DecodeMany, Decoder, LazyDecodeRef};

#[test]
fn reads_big_endian_values() {
    let mut decoder = Decoder::new(&[0x12, 0x34, 0x56, 0x78, 0xFF], Context::Start);
    assert_eq!(decoder.read::<u16>().unwrap(), 0x1234);
    assert_eq!(decoder.file_position(), 2);
    assert_eq!(decoder.read::<u16>().unwrap(), 0x5678);
    assert_eq!(decoder.read::<i8>().unwrap(), -1);
    assert_eq!(decoder.bytes_remaining(), 0);
    let err = decoder.read::<u8>().unwrap_err();
    assert_eq!(err.kind(), DecodeErrorKind::UnexpectedEoi);
    assert_eq!(err.position(), Some(5));
    assert_eq!(err.context(), Context::Start);
}

#[test]
fn reads_wide_values() {
    let mut decoder = Decoder::new(
        &[0xFF, 0xFF, 0xFF, 0xFE, 0, 0, 0, 0, 0, 0, 1, 0, 0x80, 0, 0, 0, 0, 0, 0, 0],
        Context::Start,
    );
    assert_eq!(decoder.read::<i32>().unwrap(), -2);
    assert_eq!(decoder.read::<u64>().unwrap(), 256);
    assert_eq!(decoder.read::<i64>().unwrap(), i64::MIN);
}

#[test]
fn failed_read_leaves_decoder_unchanged() {
    let mut decoder = Decoder::new(&[0x01, 0x02, 0x03], Context::Code);
    assert!(decoder.read::<u32>().is_err());
    assert_eq!(decoder.file_position(), 0);
    assert_eq!(decoder.read::<u16>().unwrap(), 0x0102);
}

#[test]
fn limit_and_advance() {
    let decoder = Decoder::new(&[1, 2, 3, 4, 5], Context::Start);
    let mut limited = decoder.limit(2, Context::Attributes).unwrap();
    assert_eq!(limited.bytes_remaining(), 2);
    assert_eq!(limited.context(), Context::Attributes);
    assert_eq!(limited.buf(), &[1, 2]);
    assert_eq!(limited.read::<u16>().unwrap(), 0x0102);
    let err = limited.read::<u8>().unwrap_err();
    assert_eq!(err.kind(), DecodeErrorKind::UnexpectedEoi);
    assert_eq!(err.position(), Some(2));
    assert_eq!(err.context(), Context::Attributes);

    let err = decoder.limit(6, Context::Code).unwrap_err();
    assert_eq!(err.kind(), DecodeErrorKind::UnexpectedEoi);
    assert_eq!(err.position(), Some(0));

    let mut decoder = decoder.with_context(Context::Fields);
    decoder.advance(3).unwrap();
    assert_eq!(decoder.file_position(), 3);
    assert_eq!(decoder.context(), Context::Fields);
    assert!(decoder.advance(3).is_err());
    assert_eq!(decoder.file_position(), 3);
    decoder.set_context(Context::Methods);
    assert_eq!(decoder.context(), Context::Methods);
}

#[test]
fn split_and_read_bytes() {
    let mut decoder = Decoder::new(&[9, 8, 7, 6, 5], Context::Start);
    assert_eq!(decoder.split_bytes_off(2).unwrap(), &[9, 8]);
    let mut buf = [0u8; 2];
    decoder.read_bytes(&mut buf).unwrap();
    assert_eq!(buf, [7, 6]);
    let mut big = [0u8; 4];
    assert!(decoder.read_bytes(&mut big).is_err());
    assert_eq!(big, [0, 0, 0, 0]);
    assert!(decoder.split_bytes_off(2).is_err());
    assert_eq!(decoder.buf(), &[5]);
}

#[test]
fn decode_many_reads_counted_values() {
    let mut decoder = Decoder::new(&[2, 0, 1, 0, 2, 0xAA], Context::Start);
    let many: DecodeMany<'_, u16, u8> = decoder.read().unwrap();
    assert_eq!(decoder.file_position(), 5);
    let mut iter = many.iter();
    assert_eq!(iter.next(), Some(Ok(1)));
    assert_eq!(iter.next(), Some(Ok(2)));
    assert_eq!(iter.next(), None);

    let mut short = Decoder::new(&[3, 0, 1], Context::Start);
    assert!(short.read::<DecodeMany<'_, u16, u8>>().is_err());
}

#[test]
fn decode_counted_reads_on_demand() {
    let mut counted = DecodeCounted::<u16>::decode_into(Decoder::new(&[0, 2, 0, 5], Context::Start)).unwrap();
    assert_eq!(counted.count(), 2);
    assert_eq!(counted.next(), Some(Ok(5)));
    let second = counted.next().unwrap();
    assert_eq!(second.unwrap_err().kind(), DecodeErrorKind::UnexpectedEoi);
    assert_eq!(counted.next(), None);
}

#[test]
fn decode_iter_stops_at_end_of_input() {
    let mut iter = DecodeIter::<u16>::new(Decoder::new(&[0, 1, 0, 2, 3], Context::Start));
    assert_eq!(iter.next(), Some(Ok(1)));
    assert_eq!(iter.next(), Some(Ok(2)));
    assert_eq!(iter.next(), None);
}

#[test]
fn lazy_value_is_read_once() {
    let mut decoder = Decoder::new(&[0, 7, 0, 9], Context::Start);
    let mut lazy: LazyDecodeRef<u16> = LazyDecodeRef::NotRead;
    assert_eq!(lazy.get(&mut decoder), Ok(&7));
    assert_eq!(decoder.file_position(), 2);
    assert_eq!(lazy.get(&mut decoder), Ok(&7));
    assert_eq!(decoder.file_position(), 2);

    let mut empty = Decoder::new(&[], Context::Start);
    let mut failing: LazyDecodeRef<u16> = LazyDecodeRef::NotRead;
    let err = failing.get(&mut empty).unwrap_err();
    assert_eq!(err.kind(), DecodeErrorKind::UnexpectedEoi);
    assert_eq!(failing.get(&mut empty).unwrap_err(), err);
}

#[test]
fn tuples_read_in_order() {
    let mut decoder = Decoder::new(&[1, 0, 2, 0, 0, 0, 3], Context::Start);
    assert_eq!(decoder.read::<(u8, u16, u32)>().unwrap(), (1, 2, 3));
}

#[test]
fn position_and_remaining_add_up_to_input() {
    let input = [1u8, 2, 3, 4, 5, 6, 7, 8];
    let mut decoder = Decoder::new(&input, Context::Start);
    let check = |d: &Decoder<'_>| {
        assert_eq!(d.file_position() + d.bytes_remaining(), input.len());
        assert_eq!(d.buf(), &input[d.file_position()..]);
    };
    check(&decoder);
    decoder.advance(1).unwrap();
    check(&decoder);
    assert!(decoder.advance(100).is_err());
    check(&decoder);
    assert_eq!(decoder.read::<u16>().unwrap(), 0x0203);
    check(&decoder);
    decoder.split_bytes_off(2).unwrap();
    check(&decoder);
    decoder.set_context(Context::Fields);
    check(&decoder);
    let mut sub = decoder.limit(2, Context::Code).unwrap();
    assert_eq!(sub.file_position(), 5);
    assert_eq!(sub.read::<u8>().unwrap(), 6);
    assert_eq!(sub.file_position(), 6);
    assert_eq!(decoder.with_context(Context::Methods).file_position(), 5);
}
