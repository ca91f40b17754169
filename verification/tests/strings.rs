use noak::descriptor::{BaseType, TypeDescriptor};
use noak::mutf8::{__private_utf8_to_mutf8, __private_utf8_to_mutf8_length};
use noak::{MStr, MString};
use std::cmp::Ordering;

#[test]
fn strings_compare_with_str() {
    let crab = MString::from("Ich grüße die 🦀.");
    assert!(crab.as_mstr().eq_str("Ich grüße die 🦀."));
    assert!(!crab.as_mstr().eq_str("Ich grüße die 🦀"));
    assert!(!crab.as_mstr().eq_str("Ich grüße die 🦀.."));
    assert_eq!(crab.as_mstr().partial_cmp_str("Ich grüße die 🦀."), Some(Ordering::Equal));
    assert_eq!(crab.as_mstr().partial_cmp_str("Ich"), Some(Ordering::Greater));
    assert_eq!(crab.as_mstr().partial_cmp_str("Ich grüße die 🦀.!"), Some(Ordering::Less));
    assert_eq!(crab.as_mstr().partial_cmp_str("Ich grüsse"), Some(Ordering::Greater));
    let surrogate = MStr::from_mutf8(b"\xED\xBB\x8B").unwrap();
    assert!(!surrogate.eq_str("\u{FFFD}"));
    assert_eq!(surrogate.partial_cmp_str("a"), Some(Ordering::Greater));
    assert_eq!(surrogate.partial_cmp_str("\u{FFFD}"), Some(Ordering::Less));
}

#[test]
fn strings_are_built_from_chars() {
    let mut s = MString::new();
    s.push('\0');
    assert_eq!(s.as_bytes(), &[0xC0, 0x80]);
    s.extend(&['a', '🦀']);
    assert_eq!(s.as_bytes(), &[0xC0, 0x80, b'a', 0xED, 0xA0, 0xBE, 0xED, 0xB6, 0x80]);
    s.extend_str("ß");
    assert_eq!(&s.as_bytes()[9..], &[0xC3, 0x9F]);
    let t = MString::from_chars(&['\0', 'a', '🦀', 'ß']);
    assert_eq!(t.as_bytes(), s.as_bytes());
    assert_eq!(s.as_mstr().len(), 11);
    assert!(!s.as_mstr().is_empty());
    assert!(MString::with_capacity(4).as_mstr().is_empty());
}

#[test]
fn strings_from_bytes() {
    assert!(MString::from_mutf8(vec![0x00]).is_err());
    let s = MString::from_mutf8(vec![b'h', b'i']).unwrap();
    assert!(s.as_mstr().eq_str("hi"));
    assert!(MStr::from_mutf8(&[0xC0]).is_err());
    let owned = MStr::from_mutf8(b"abc").unwrap().to_owned();
    assert_eq!(owned.as_bytes(), b"abc");
}

#[test]
fn string_slices_and_boundaries() {
    let bytes = __private_utf8_to_mutf8("aß€".as_bytes());
    let s = MStr::from_mutf8(&bytes).unwrap();
    assert!(s.is_char_boundary(0));
    assert!(s.is_char_boundary(1));
    assert!(!s.is_char_boundary(2));
    assert!(s.is_char_boundary(3));
    assert!(s.is_char_boundary(6));
    assert!(s.slice(1, 3).eq_str("ß"));
    assert_eq!(s.to_str(), Some("aß€"));
    assert_eq!(MStr::from_mutf8(b"\xC0\x80").unwrap().to_str(), None);
}

#[test]
fn chars_from_both_ends() {
    let bytes = __private_utf8_to_mutf8("a🦀b".as_bytes());
    let s = MStr::from_mutf8(&bytes).unwrap();
    let mut chars = s.chars();
    assert_eq!(chars.next(), Some(Ok('a')));
    assert_eq!(chars.next_back(), Some(Ok('b')));
    assert_eq!(chars.next_back(), Some(Ok('🦀')));
    assert_eq!(chars.next(), None);
    let surrogates = MStr::from_mutf8(b"x\xED\xBB\x8B").unwrap();
    let mut lossy = surrogates.chars_lossy();
    assert_eq!(lossy.next_back(), Some('\u{FFFD}'));
    assert_eq!(lossy.next(), Some('x'));
    assert_eq!(lossy.next(), None);
    let mut raw = surrogates.chars();
    assert_eq!(raw.next_back(), Some(Err(0xDECB)));
    assert!(raw.as_mstr().eq_str("x"));
}

#[test]
fn literal_conversion_agrees_with_from() {
    for text in ["", "\0", "plain", "Ich grüße die Welt", "𝄞 music", "你好"] {
        assert_eq!(__private_utf8_to_mutf8(text.as_bytes()).as_slice(), MString::from(text).as_bytes());
        assert_eq!(MString::from(text).as_mstr().display().to_string(), text);
    }
}

#[test]
fn descriptors_as_text() {
    let m = MString::from("[[Ljava/lang/String;");
    assert_eq!(TypeDescriptor::parse(m.as_mstr()).unwrap().to_string(), "[[Ljava/lang/String;");
    let m = MString::from("J");
    assert_eq!(TypeDescriptor::parse(m.as_mstr()).unwrap().to_string(), "J");
    assert_eq!(BaseType::Char.to_string(), "C");
    let name = MString::from("a/B");
    assert_eq!(BaseType::Object(name.as_mstr()).to_string(), "La/B;");
}

#[test]
fn unchecked_strings_keep_their_bytes() {
    let s = MStr::from_mutf8_unchecked(b"\xC0\x80ok");
    assert_eq!(s.as_bytes(), b"\xC0\x80ok");
    assert_eq!(s.chars().next(), Some(Ok('\0')));
}

#[test]
fn strings_from_mutable_bytes() {
    let mut bytes = b"abc".to_vec();
    let s = MStr::from_mutf8_mut(&mut bytes).unwrap();
    assert!(s.eq_str("abc"));
    let mut bad = vec![0xFFu8];
    assert!(MStr::from_mutf8_mut(&mut bad).is_err());
    let mut more = b"xyz".to_vec();
    assert!(MStr::from_mutf8_unchecked_mut(&mut more).eq_str("xyz"));
}

#[test]
fn strings_order_by_bytes() {
    let a = MStr::from_mutf8(b"abc").unwrap();
    let b = MStr::from_mutf8(b"abd").unwrap();
    let prefix = MStr::from_mutf8(b"ab").unwrap();
    assert!(a < b);
    assert!(prefix < a);
    assert_eq!(a.partial_cmp(&a), Some(Ordering::Equal));
    assert_eq!(b.partial_cmp(&prefix), Some(Ordering::Greater));
    assert_eq!(MString::default(), MString::new());
    assert_eq!(MString::from("x"), MString::from("x"));
    assert!(MString::from("a") < MString::from("b"));
}

#[test]
fn default_string_is_empty() {
    let s = MStr::default();
    assert!(s.is_empty());
    assert!(s.eq_str(""));
    assert_eq!(s.chars().next(), None);
}

#[test]
fn chars_backwards_are_reversed() {
    let s = MStr::from_mutf8(b"a\xED\xA0\xBD\xED\xB0\x96\xED\xBB\x8B\xED\xA7\xAB\xED\xB0\x96\xC3\x9F").unwrap();
    let mut forward = Vec::new();
    let mut chars = s.chars();
    while let Some(c) = chars.next() {
        forward.push(c);
    }
    let mut backward = Vec::new();
    let mut chars = s.chars();
    while let Some(c) = chars.next_back() {
        backward.push(c);
    }
    backward.reverse();
    assert_eq!(forward, backward);
    assert_eq!(
        forward,
        vec![Ok('a'), Ok('\u{1F416}'), Err(0xDECB), Ok('\u{8AC16}'), Ok('ß')]
    );
    let mut lossy_forward = Vec::new();
    let mut lossy = s.chars_lossy();
    while let Some(c) = lossy.next() {
        lossy_forward.push(c);
    }
    let mut lossy_backward = Vec::new();
    let mut lossy = s.chars_lossy();
    while let Some(c) = lossy.next_back() {
        lossy_backward.push(c);
    }
    lossy_backward.reverse();
    assert_eq!(lossy_forward, lossy_backward);
}

#[test]
fn encoded_length_is_sum_of_widths() {
    assert_eq!(__private_utf8_to_mutf8_length("a\0é🦀".as_bytes()), 11);
    assert_eq!(__private_utf8_to_mutf8_length("Hello 🦀".as_bytes()), 12);
    assert_eq!(MString::from("a\0é🦀").as_mstr().len(), 11);
    assert_eq!(__private_utf8_to_mutf8("\0".as_bytes()), vec![0xC0, 0x80]);
    assert_eq!(__private_utf8_to_mutf8("🦀".as_bytes()), vec![0xED, 0xA0, 0xBE, 0xED, 0xB6, 0x80]);
}

#[test]
fn type_parse_rejects_text_after_semicolon() {
    let cut = __private_utf8_to_mutf8("La;é".as_bytes());
    assert!(TypeDescriptor::parse(MStr::from_mutf8(&cut).unwrap()).is_err());
    let int = MStr::from_mutf8(b"[I").unwrap();
    assert_eq!(
        TypeDescriptor::parse(int),
        Ok(TypeDescriptor { dimensions: 1, base: BaseType::Integer })
    );
    let bad = MStr::from_mutf8(b"La;b").unwrap();
    assert!(TypeDescriptor::parse(bad).is_err());
    let name = __private_utf8_to_mutf8("Lé;".as_bytes());
    let parsed = TypeDescriptor::parse(MStr::from_mutf8(&name).unwrap()).unwrap();
    assert_eq!(parsed.dimensions, 0);
    assert!(matches!(parsed.base, BaseType::Object(n) if n.eq_str("é")));
}
