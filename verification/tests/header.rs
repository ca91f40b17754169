use noak::reader::cpool::{Index, Item};
use noak::{AccessFlags, Version};

#[test]
fn versions() {
    assert_eq!(Version::latest(), Version { major: 62, minor: 0 });
    assert_eq!(Version::latest(), Version::V18());
    assert!(!Version::latest().is_preview());
    assert!(Version { major: 56, minor: 65535 }.is_preview());
    assert!(!Version { major: 55, minor: 65535 }.is_preview());
    assert_eq!(Version::V1_1(), Version { major: 45, minor: 3 });
    assert!(Version::V8() < Version::V9());
}

#[test]
fn access_flags() {
    let flags = AccessFlags::PUBLIC().union(AccessFlags::FINAL());
    assert_eq!(flags.bits(), 0x11);
    assert!(flags.contains(AccessFlags::PUBLIC()));
    assert!(flags.contains(AccessFlags::FINAL()));
    assert!(!flags.contains(AccessFlags::STATIC()));
    assert!(AccessFlags::empty().is_empty());
    assert_eq!(AccessFlags::from_bits(0x8000).unwrap(), AccessFlags::MODULE());
    assert_eq!(AccessFlags::SUPER(), AccessFlags::SYNCHRONIZED());
}

#[test]
fn indices_keep_their_number() {
    for n in [1u16, 2, 0x7FFF, u16::MAX] {
        assert_eq!(Index::<Item<'_>>::new(n).unwrap().as_u16(), n);
    }
    assert!(Index::<Item<'_>>::new(0).is_err());
}
