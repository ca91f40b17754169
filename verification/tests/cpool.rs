use noak::error::Context;
use noak::reader::cpool::{ConstantPool, Double, Index, Integer, Item, Long, String, Utf8};
use noak::reader::decoding::Decoder;
use noak::MStr;

#[test]
fn empty() {
    let mut decoder = Decoder::new(&[
        // length
        0x00, 0x01
    ], Context::ConstantPool);
    let pool = ConstantPool::decode(&mut decoder).unwrap();
    assert_eq!(pool.iter().len(), 0);
}

#[test]
fn negative_length() {
    let mut decoder = Decoder::new(&[
        // length
        0x00, 0x00
    ], Context::ConstantPool);
    assert!(ConstantPool::decode(&mut decoder).is_err());
}

#[test]
fn iteration_and_decoding() {
    let mut decoder = Decoder::new(&[
        // length
        0x00, 0x06,
        // integer
        0x03,
        0x00, 0x00, 0x00, 0x05,
        // utf8
        0x01,
        0x00, 0x0B,
        b'h', b'e', b'l', b'l', b'o', b' ', b'w', b'o', b'r', b'l', b'd',
        // long (takes up two spaces)
        0x05,
        0x00, 0x00, 0x00, 0x00, 0x00, 0x00, 0x00, 0xFF,
        // string
        0x08,
        0x00, 0x02,
        // random bytes which should not be read
        0xAB, 0xC4, 0x12, 0x4B, 0xFF, 0x00,
    ], Context::ConstantPool);
    let pool = ConstantPool::decode(&mut decoder).unwrap();
    let items = pool.iter();
    let mut iter = items.iter();
    assert_eq!(iter.next(), Some(&Item::Integer(Integer { value: 5 })));
    assert_eq!(
        iter.next(),
        Some(&Item::Utf8(Utf8 {
            content: MStr::from_mutf8(b"hello world").unwrap(),
        }))
    );
    assert_eq!(iter.next(), Some(&Item::Long(Long { value: 0xFF })));
    assert_eq!(
        iter.next(),
        Some(&Item::String(String {
            string: Index::new(2).unwrap(),
        }))
    );
    assert_eq!(iter.next(), None);
}

#[test]
fn get() {
    // just to test that it will work with non-'static strings
    let some_string = b"hello world".to_vec();
    let content = vec![
        Some(Item::Integer(Integer { value: 2 })),
        Some(Item::Long(Long { value: 3 })),
        None,
        Some(Item::Integer(Integer { value: 4 })),
        Some(Item::String(String {
            string: Index::new(6).unwrap(),
        })),
        Some(Item::Utf8(Utf8 {
            content: MStr::from_mutf8(&some_string).unwrap(),
        })),
    ];

    let pool = ConstantPool::from_entries(content);
    assert_eq!(pool.get(Index::new(1).unwrap()), Ok(&Integer { value: 2 }));
    assert_eq!(pool.get(Index::new(2).unwrap()), Ok(&Long { value: 3 }));
    assert_eq!(pool.get(Index::new(4).unwrap()), Ok(&Integer { value: 4 }));
    let string: &String = pool.get(Index::new(5).unwrap()).unwrap();
    assert_eq!(
        pool.get(string.string),
        Ok(&Utf8 {
            content: MStr::from_mutf8(&some_string).unwrap(),
        })
    );

    assert!(pool.get::<Double>(Index::new(4).unwrap()).is_err());
    assert!(pool.get::<Item<'_>>(Index::new(3).unwrap()).is_err());
    assert!(pool.get::<Item<'_>>(Index::new(7).unwrap()).is_err());
    assert!(Index::<Item<'_>>::new(0).is_err());
}
