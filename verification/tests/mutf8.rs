use noak::mutf8::{__private_is_mutf8_valid, __private_utf8_to_mutf8};
use noak::{MStr, MString};

fn literal(s: &str) -> Vec<u8> {
    __private_utf8_to_mutf8(s.as_bytes())
}

#[test]
fn valid_mutf8() {
    assert!(__private_is_mutf8_valid(b"Hello World"));
    assert!(__private_is_mutf8_valid("Ich grüße die Welt".as_bytes()));
    assert!(__private_is_mutf8_valid("你好，世界".as_bytes()));
    // paired surrogates
    assert!(__private_is_mutf8_valid(&[0xED, 0xA0, 0xBD, 0xED, 0xB0, 0x96]));
    // unpaired surrogates
    assert!(__private_is_mutf8_valid(&[0xED, 0xBB, 0x8B]));
    assert!(__private_is_mutf8_valid(&[0xED, 0xA7, 0xAB]));
    assert!(__private_is_mutf8_valid(&[0xED, 0xAD, 0x9C, 0x26, 0x0A, 0x0A]));
}

#[test]
fn invalid_mutf8() {
    assert!(!__private_is_mutf8_valid(&[0xFF]));
    assert!(!__private_is_mutf8_valid(&[0x00]));
    assert!(!__private_is_mutf8_valid(&[0xED, 0xAD, 0xBD, 0xED, 0x25]));
}

#[test]
fn display() {
    let greeting = literal("Ich grüße die Welt");
    assert_eq!(MStr::from_mutf8(&greeting).unwrap().display().to_string(), "Ich grüße die Welt");
    let crab = literal("Hello 🦀");
    assert_eq!(MStr::from_mutf8(&crab).unwrap().display().to_string(), "Hello 🦀");
    assert_eq!(MStr::from_mutf8(b"Test \xED\xBB\x8B.").unwrap().display().to_string(), "Test \u{FFFD}.");
}

#[test]
fn iterate() {
    let s = MStr::from_mutf8(&[0xED, 0xA0, 0xBD, 0xED, 0xB0, 0x96]).unwrap();
    assert_eq!(s.chars().next_back(), s.chars().next());
}

#[test]
fn valid_mutf8_macro() {
    let hello = literal("Hello World");
    assert_eq!(MStr::from_mutf8(&hello).unwrap().to_str().unwrap(), "Hello World");
    let greeting = literal("Ich grüße die Welt");
    assert_eq!(MStr::from_mutf8(&greeting).unwrap().to_str().unwrap(), "Ich grüße die Welt");
    let crab = literal("Hello 🦀");
    assert_eq!(MStr::from_mutf8(&crab).unwrap().display().to_string(), "Hello 🦀");
    let surrogates = MStr::from_mutf8(b"\xED\xA0\xBD\xED\xB0\x96 \xED\xBB\x8B \xED\xA7\xAB \xED\xAD\x9C \x26\x0A\x0A").unwrap();
    assert!(__private_is_mutf8_valid(surrogates.as_bytes()));
    assert_eq!(
        literal("Ich grüße die 🦀.").as_slice(),
        MString::from("Ich grüße die 🦀.").as_bytes()
    );
    assert_eq!(
        literal("这里有一些三字节的案例").as_slice(),
        MString::from("这里有一些三字节的案例").as_bytes()
    );
}
