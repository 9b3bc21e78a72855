use hd_keys::base58check::{decode_check, encode_check, split_check, strip_checksum, with_checksum};
use hd_keys::bytes::{
    append_bytes, bytes_equal, copy_bytes, is_zero, sub_bytes, u32_from_be_bytes, u32_to_be_bytes,
};
use hd_keys::hash::{double_sha256, hash160};
use hd_keys::keypair::ExtendedKeyErrors;

#[test]
fn u32_is_written_big_endian() {
    assert_eq!(u32_to_be_bytes(0x0488ade4), vec![0x04, 0x88, 0xad, 0xe4]);
    assert_eq!(u32_to_be_bytes(0), vec![0, 0, 0, 0]);
    assert_eq!(u32_to_be_bytes(u32::MAX), vec![0xff, 0xff, 0xff, 0xff]);
    assert_eq!(u32_to_be_bytes(0x80000000), vec![0x80, 0, 0, 0]);
}

#[test]
fn u32_is_read_big_endian() {
    assert_eq!(u32_from_be_bytes(&[0x04, 0x88, 0xb2, 0x1e]), 0x0488b21e);
    assert_eq!(u32_from_be_bytes(&[0, 0, 0, 1]), 1);
    assert_eq!(u32_from_be_bytes(&[0xff, 0xff, 0xff, 0xff]), u32::MAX);
    for value in [0u32, 1, 255, 256, 65535, 65536, 0x7fffffff, 0x80000000, u32::MAX] {
        assert_eq!(u32_from_be_bytes(&u32_to_be_bytes(value)), value);
    }
}

#[test]
fn sub_bytes_copies_the_range() {
    let src = [1u8, 2, 3, 4, 5];
    assert_eq!(sub_bytes(&src, 1, 4), vec![2, 3, 4]);
    assert_eq!(sub_bytes(&src, 0, 5), vec![1, 2, 3, 4, 5]);
    assert_eq!(sub_bytes(&src, 2, 2), Vec::<u8>::new());
    assert_eq!(copy_bytes(&src), vec![1, 2, 3, 4, 5]);
    assert_eq!(copy_bytes(&[]), Vec::<u8>::new());
}

#[test]
fn append_bytes_keeps_what_was_there() {
    let mut dst = vec![9u8, 8];
    append_bytes(&mut dst, &[1, 2, 3]);
    assert_eq!(dst, vec![9, 8, 1, 2, 3]);
    append_bytes(&mut dst, &[]);
    assert_eq!(dst, vec![9, 8, 1, 2, 3]);
}

#[test]
fn bytes_equal_compares_length_and_content() {
    assert!(bytes_equal(&[], &[]));
    assert!(bytes_equal(&[1, 2, 3], &[1, 2, 3]));
    assert!(!bytes_equal(&[1, 2, 3], &[1, 2, 4]));
    assert!(!bytes_equal(&[1, 2, 3], &[1, 2]));
    assert!(!bytes_equal(&[0], &[]));
}

#[test]
fn is_zero_looks_at_every_byte() {
    assert!(is_zero(&[]));
    assert!(is_zero(&[0, 0, 0, 0]));
    assert!(!is_zero(&[0, 0, 0, 1]));
    assert!(!is_zero(&[1, 0, 0, 0]));
    assert!(!is_zero(&[0, 7, 0]));
}

#[test]
fn double_sha256_of_the_empty_string() {
    assert_eq!(
        hex::encode(double_sha256(&[])),
        "5df6e0e2761359d30a8275058e299fcc0381534545f55cf43e41983f5d4c9456"
    );
}

#[test]
fn double_sha256_of_hello() {
    assert_eq!(
        hex::encode(double_sha256(b"hello")),
        "9595c9df90075148eb06860365df33584b75bff782a510c6cd4883a419833d50"
    );
}

#[test]
fn hash160_of_the_generator() {
    let point =
        hex::decode("0279be667ef9dcbbac55a06295ce870b07029bfcdb2dce28d959f2815b16f81798").unwrap();
    assert_eq!(hex::encode(hash160(&point)), "751e76e8199196d454941c45d1b3a323f1433bd6");
}

#[test]
fn checksum_is_the_head_of_the_double_hash() {
    let data = with_checksum(b"hello");
    assert_eq!(hex::encode(&data), "68656c6c6f9595c9df");
    assert_eq!(with_checksum(&[]), vec![0x5d, 0xf6, 0xe0, 0xe2]);
}

#[test]
fn strip_checksum_holds_the_tail_against_the_digest() {
    let digest = [0xaau8, 0xbb, 0xcc, 0xdd, 0x01, 0x02];
    assert_eq!(strip_checksum(&[1, 2, 3, 0xaa, 0xbb, 0xcc, 0xdd], &digest), Ok(vec![1, 2, 3]));
    assert_eq!(strip_checksum(&[0xaa, 0xbb, 0xcc, 0xdd], &digest), Ok(vec![]));
    assert_eq!(
        strip_checksum(&[1, 2, 3, 0xaa, 0xbb, 0xcc, 0xde], &digest),
        Err(ExtendedKeyErrors::InvalidChecksum)
    );
    assert_eq!(
        strip_checksum(&[0xbb, 0xcc, 0xdd], &digest),
        Err(ExtendedKeyErrors::InvalidLength)
    );
    assert_eq!(
        strip_checksum(&[1, 2, 3, 0xaa, 0xbb, 0xcc, 0xdd], &[0xaa, 0xbb, 0xcc]),
        Err(ExtendedKeyErrors::InvalidLength)
    );
}

#[test]
fn split_check_undoes_with_checksum() {
    for payload in [&b""[..], &b"a"[..], &b"hello"[..], &[0u8; 78][..]] {
        assert_eq!(split_check(&with_checksum(payload)), Ok(payload.to_vec()));
    }
    assert_eq!(split_check(&[1, 2, 3]), Err(ExtendedKeyErrors::InvalidLength));
    assert_eq!(split_check(&[1, 2, 3, 4]), Err(ExtendedKeyErrors::InvalidChecksum));
}

#[test]
fn encode_check_known_text() {
    // A version byte of zero before twenty zero bytes: the address of the
    // all-zero hash.
    assert_eq!(encode_check(&[0u8; 21]), "1111111111111111111114oLvT2");
}

#[test]
fn decode_check_undoes_encode_check() {
    for payload in [&b""[..], &b"hello"[..], &[0u8; 21][..], &[0xffu8; 78][..]] {
        assert_eq!(decode_check(&encode_check(payload)), Ok(payload.to_vec()));
    }
}

#[test]
fn decode_check_refuses_what_is_not_base58() {
    assert_eq!(decode_check("0OIl"), Err(ExtendedKeyErrors::Base58Decode));
    assert_eq!(decode_check("1111111111111111111114oLvT0"), Err(ExtendedKeyErrors::Base58Decode));
    assert_eq!(decode_check("abc def"), Err(ExtendedKeyErrors::Base58Decode));
}

#[test]
fn decode_check_refuses_a_wrong_checksum() {
    assert_eq!(
        decode_check("1111111111111111111114oLvT3"),
        Err(ExtendedKeyErrors::InvalidChecksum)
    );
}

#[test]
fn decode_check_refuses_a_text_too_short_for_a_checksum() {
    assert_eq!(decode_check(""), Err(ExtendedKeyErrors::InvalidLength));
    assert_eq!(decode_check("111"), Err(ExtendedKeyErrors::InvalidLength));
}
