use potw_pallets::encoding::{copy_bytes, payload_id};
use potw_pallets::origin::{ensure_origin, ensure_root, ensure_signed, BadOrigin, Origin, OriginCheck};

#[test]
fn payload_id_of_empty_payload() {
    assert_eq!(
        payload_id(1, &[]),
        [189, 208, 37, 127, 189, 30, 148, 64, 153, 59, 24, 246, 0, 10, 114, 31]
    );
}

#[test]
fn payload_id_of_short_payload() {
    assert_eq!(
        payload_id(7, b"hello"),
        [152, 73, 1, 184, 160, 84, 246, 136, 25, 154, 103, 186, 50, 224, 11, 61]
    );
}

#[test]
fn payload_id_with_two_byte_length_prefix() {
    let bytes: Vec<u8> = (0u8..100).collect();
    assert_eq!(
        payload_id(42, &bytes),
        [159, 224, 108, 57, 141, 94, 228, 44, 138, 59, 151, 167, 198, 234, 206, 103]
    );
}

#[test]
fn payload_id_of_longest_note() {
    let bytes = vec![b'x'; 1000];
    assert_eq!(
        payload_id(3, &bytes),
        [203, 233, 116, 183, 187, 33, 174, 221, 47, 233, 4, 47, 70, 54, 206, 219]
    );
}

#[test]
fn payload_id_depends_on_account_and_bytes() {
    assert_ne!(payload_id(1, b"a"), payload_id(2, b"a"));
    assert_ne!(payload_id(1, b"a"), payload_id(1, b"b"));
    assert_eq!(payload_id(9, b"same"), payload_id(9, b"same"));
}

#[test]
fn copy_bytes_copies() {
    let v = vec![1u8, 2, 3];
    assert_eq!(copy_bytes(&v), v);
}

#[test]
fn ensure_signed_gives_the_signer() {
    assert_eq!(ensure_signed(Origin::Signed(5)), Ok(5));
    assert_eq!(ensure_signed(Origin::Root), Err(BadOrigin));
    assert_eq!(ensure_signed(Origin::Unsigned), Err(BadOrigin));
}

#[test]
fn ensure_root_accepts_root_only() {
    assert_eq!(ensure_root(Origin::Root), Ok(()));
    assert_eq!(ensure_root(Origin::Signed(1)), Err(BadOrigin));
    assert_eq!(ensure_root(Origin::Unsigned), Err(BadOrigin));
}

#[test]
fn ensure_origin_follows_the_check() {
    assert_eq!(ensure_origin(OriginCheck::Root, Origin::Root), Ok(()));
    assert_eq!(ensure_origin(OriginCheck::Root, Origin::Signed(1)), Err(BadOrigin));
    assert_eq!(ensure_origin(OriginCheck::Signed, Origin::Signed(1)), Ok(()));
    assert_eq!(ensure_origin(OriginCheck::Signed, Origin::Unsigned), Err(BadOrigin));
    assert_eq!(ensure_origin(OriginCheck::SignedBy(2), Origin::Signed(2)), Ok(()));
    assert_eq!(ensure_origin(OriginCheck::SignedBy(2), Origin::Signed(3)), Err(BadOrigin));
    assert_eq!(ensure_origin(OriginCheck::SignedBy(2), Origin::Root), Err(BadOrigin));
}
