use noak::error::Context;
use noak::reader::decoding::Decoder;
use noak::reader::read_header;
use noak::Version;

#[test]
fn valid_header() {
    let mut decoder = Decoder::new(&[
            // magic bytes
            0xCA, 0xFE, 0xBA, 0xBE,
            // minor version
            0x00, 0x00,
            // major version
            0x00, 0x38,
    ], Context::Start);

    let version = read_header(&mut decoder).unwrap();
    assert_eq!(version, Version { major: 0x38, minor: 0 });
}

#[test]
fn invalid_header() {
    let mut decoder = Decoder::new(&[
            // invalid magic bytes
            0xBE, 0xBA, 0xFE, 0xCA,
    ], Context::Start);

    assert!(read_header(&mut decoder).is_err());
}
