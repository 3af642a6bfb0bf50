use record_view::record::{ExampleKey, LayoutError, KEY_SIZE};
use record_view::view::BorrowedView;
use zerocopy::{AsBytes, BigEndian, U64};

#[test]
fn size_is_eight() {
    assert_eq!(ExampleKey::size(), 8);
    assert_eq!(KEY_SIZE, 8);
}

#[test]
fn new_writes_the_big_endian_encoding() {
    assert_eq!(ExampleKey::new(1).0, [0, 0, 0, 0, 0, 0, 0, 1]);
    assert_eq!(
        ExampleKey::new(0x1234_5678_9abc_def0).0,
        [0x12, 0x34, 0x56, 0x78, 0x9a, 0xbc, 0xde, 0xf0]
    );
    assert_eq!(ExampleKey::new(0).0, [0u8; 8]);
    assert_eq!(ExampleKey::new(u64::MAX).0, [0xffu8; 8]);
}

#[test]
fn get_reads_the_big_endian_encoding() {
    assert_eq!(ExampleKey([0, 0, 0, 0, 0, 0, 0, 1]).get(), 1);
    assert_eq!(ExampleKey([1, 0, 0, 0, 0, 0, 0, 0]).get(), 1u64 << 56);
    assert_eq!(
        ExampleKey([0x12, 0x34, 0x56, 0x78, 0x9a, 0xbc, 0xde, 0xf0]).get(),
        0x1234_5678_9abc_def0
    );
}

#[test]
fn new_then_get_is_the_identity() {
    for key in [0u64, 1, 2, 255, 256, 65535, 65536, 1 << 32, 1 << 63, u64::MAX] {
        assert_eq!(ExampleKey::new(key).get(), key);
    }
}

#[test]
fn get_then_new_is_the_identity() {
    let bytes = [0xa1, 0xb2, 0xc3, 0xd4, 0xe5, 0xf6, 0x07, 0x18];
    let record = ExampleKey(bytes);
    assert_eq!(ExampleKey::new(record.get()), record);
}

#[test]
fn as_bytes_gives_the_wire_form() {
    let record = ExampleKey::new(0x0102_0304_0506_0708);
    assert_eq!(record.as_bytes(), &[1, 2, 3, 4, 5, 6, 7, 8]);
    assert_eq!(record.as_bytes().len(), KEY_SIZE);
    let view = BorrowedView::from_slice(record.as_bytes()).unwrap();
    assert_eq!(view.key(), 0x0102_0304_0506_0708);
}

#[test]
fn record_agrees_with_the_big_endian_integer_type() {
    for key in [0u64, 7, 0xfeed_face_cafe_beef, u64::MAX] {
        let wire = U64::<BigEndian>::new(key);
        let record = ExampleKey::new(key);
        assert_eq!(record.as_bytes(), wire.as_bytes());
        assert_eq!(record.get(), wire.get());
    }
}

#[test]
fn clone_keeps_the_bytes() {
    let record = ExampleKey::new(42);
    let copy = record.clone();
    assert_eq!(copy, record);
    assert_eq!(copy.get(), 42);
}

#[test]
fn size_mismatch_is_the_only_error() {
    let error = BorrowedView::from_slice(&[1, 2, 3]).unwrap_err();
    assert_eq!(error, LayoutError::SizeMismatch);
    assert_eq!(format!("{:?}", error), "SizeMismatch");
}
