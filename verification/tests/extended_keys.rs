use hd_keys::keypair::extended_key::{hardened_child_input, normal_child_input};
use hd_keys::keypair::{
    ExtendedKeyErrors, ExtendedPrivateKey, ExtendedPublicKey, Payload, PublicKey,
    HARDENED_KEY_OFFSET, XPRIV_VERSION_BYTE, XPUB_VERSION_BYTE,
};

const SEED_1: &str = "000102030405060708090a0b0c0d0e0f";
const M_1_PRV: &str = "xprv9s21ZrQH143K3QTDL4LXw2F7HEK3wJUD2nW2nRk4stbPy6cq3jPPqjiChkVvvNKmPGJxWUtg6LnF5kejMRNNU3TGtRBeJgk33yuGBxrMPHi";
const M_1_PUB: &str = "xpub661MyMwAqRbcFtXgS5sYJABqqG9YLmC4Q1Rdap9gSE8NqtwybGhePY2gZ29ESFjqJoCu1Rupje8YtGqsefD265TMg7usUDFdp6W1EGMcet8";
const M_1_0H_PRV: &str = "xprv9uHRZZhk6KAJC1avXpDAp4MDc3sQKNxDiPvvkX8Br5ngLNv1TxvUxt4cV1rGL5hj6KCesnDYUhd7oWgT11eZG7XnxHrnYeSvkzY7d2bhkJ7";
const M_1_0H_PUB: &str = "xpub68Gmy5EdvgibQVfPdqkBBCHxA5htiqg55crXYuXoQRKfDBFA1WEjWgP6LHhwBZeNK1VTsfTFUHCdrfp1bgwQ9xv5ski8PX9rL2dZXvgGDnw";
const M_1_0H_1_PRV: &str = "xprv9wTYmMFdV23N2TdNG573QoEsfRrWKQgWeibmLntzniatZvR9BmLnvSxqu53Kw1UmYPxLgboyZQaXwTCg8MSY3H2EU4pWcQDnRnrVA1xe8fs";
const M_1_0H_1_PUB: &str = "xpub6ASuArnXKPbfEwhqN6e3mwBcDTgzisQN1wXN9BJcM47sSikHjJf3UFHKkNAWbWMiGj7Wf5uMash7SyYq527Hqck2AxYysAA7xmALppuCkwQ";

const SEED_2: &str = "fffcf9f6f3f0edeae7e4e1dedbd8d5d2cfccc9c6c3c0bdbab7b4b1aeaba8a5a29f9c999693908d8a8784817e7b7875726f6c696663605d5a5754514e4b484542";
const M_2_PRV: &str = "xprv9s21ZrQH143K31xYSDQpPDxsXRTUcvj2iNHm5NUtrGiGG5e2DtALGdso3pGz6ssrdK4PFmM8NSpSBHNqPqm55Qn3LqFtT2emdEXVYsCzC2U";
const M_2_PUB: &str = "xpub661MyMwAqRbcFW31YEwpkMuc5THy2PSt5bDMsktWQcFF8syAmRUapSCGu8ED9W6oDMSgv6Zz8idoc4a6mr8BDzTJY47LJhkJ8UB7WEGuduB";
const M_2_0_PRV: &str = "xprv9vHkqa6EV4sPZHYqZznhT2NPtPCjKuDKGY38FBWLvgaDx45zo9WQRUT3dKYnjwih2yJD9mkrocEZXo1ex8G81dwSM1fwqWpWkeS3v86pgKt";
const M_2_0_PUB: &str = "xpub69H7F5d8KSRgmmdJg2KhpAK8SR3DjMwAdkxj3ZuxV27CprR9LgpeyGmXUbC6wb7ERfvrnKZjXoUmmDznezpbZb7ap6r1D3tgFxHmwMkQTPH";

const M_1_SCALAR: &str = "e8f32e723decf4051aefac8e2c93c9c5b214313817cdb01a1494b917c8436b35";
const M_1_POINT: &str = "0339a36013301597daef41fbe593a02cc513d0b55527ec2df1050e2e8ff49c85c2";
const M_1_CHAIN: &str = "873dff81c02f525623fd1fe5167eac3a55a049de3d314bb42ee227ffed37d508";
const ORDER: &str = "fffffffffffffffffffffffffffffffebaaedce6af48a03bbfd25e8cd0364141";

fn master_1() -> ExtendedPrivateKey {
    ExtendedPrivateKey::from_seed(&hex::decode(SEED_1).unwrap()).unwrap()
}

fn master_2() -> ExtendedPrivateKey {
    ExtendedPrivateKey::from_seed(&hex::decode(SEED_2).unwrap()).unwrap()
}

fn private_fields(depth: u8, fingerprint: [u8; 4], child_number: u32) -> Payload {
    let mut key_material = vec![0u8];
    key_material.extend_from_slice(&hex::decode(M_1_SCALAR).unwrap());
    Payload {
        version: XPRIV_VERSION_BYTE,
        depth,
        parent_fingerprint: fingerprint.to_vec(),
        child_number,
        chain_code: hex::decode(M_1_CHAIN).unwrap(),
        key_material,
    }
}

fn public_fields(depth: u8, fingerprint: [u8; 4], child_number: u32) -> Payload {
    Payload {
        version: XPUB_VERSION_BYTE,
        depth,
        parent_fingerprint: fingerprint.to_vec(),
        child_number,
        chain_code: hex::decode(M_1_CHAIN).unwrap(),
        key_material: hex::decode(M_1_POINT).unwrap(),
    }
}

#[test]
fn master_key_of_the_first_seed() {
    let m = master_1();
    assert_eq!(m.to_string(), M_1_PRV);
    assert_eq!(m.private_key().to_hex(), M_1_SCALAR);
    assert_eq!(hex::encode(m.chain_code()), M_1_CHAIN);
    assert_eq!(m.depth(), 0);
    assert_eq!(m.parent_fingerprint(), vec![0, 0, 0, 0]);
    assert_eq!(m.child_number(), 0);
    assert_eq!(m.public_key().to_hex(), Ok(M_1_POINT.to_string()));
}

#[test]
fn master_key_of_the_second_seed() {
    let m = master_2();
    assert_eq!(m.to_string(), M_2_PRV);
    assert_eq!(m.neuter().to_string(), M_2_PUB);
}

#[test]
fn master_from_digest_splits_the_digest() {
    let mut digest = hex::decode(M_1_SCALAR).unwrap();
    digest.extend_from_slice(&hex::decode(M_1_CHAIN).unwrap());
    assert_eq!(ExtendedPrivateKey::master_from_digest(&digest), Ok(master_1()));
    assert_eq!(
        ExtendedPrivateKey::master_from_digest(&digest[..63]),
        Err(ExtendedKeyErrors::InvalidLength)
    );
    assert_eq!(
        ExtendedPrivateKey::master_from_digest(&[0u8; 64]),
        Err(ExtendedKeyErrors::InvalidScalar)
    );
    let mut high = hex::decode(ORDER).unwrap();
    high.extend_from_slice(&[7u8; 32]);
    assert_eq!(ExtendedPrivateKey::master_from_digest(&high), Err(ExtendedKeyErrors::InvalidScalar));
}

#[test]
fn neutering_keeps_every_field_but_the_key() {
    let m = master_1();
    let p = m.neuter();
    assert_eq!(p.to_string(), M_1_PUB);
    assert_eq!(p.public_key(), m.public_key());
    assert_eq!(p.chain_code(), m.chain_code());
    assert_eq!(p.depth(), m.depth());
    assert_eq!(p.parent_fingerprint(), m.parent_fingerprint());
    assert_eq!(p.child_number(), m.child_number());
    let child = m.derive_child(HARDENED_KEY_OFFSET).unwrap();
    let neutered = child.neuter();
    assert_eq!(neutered.depth(), 1);
    assert_eq!(neutered.child_number(), HARDENED_KEY_OFFSET);
    assert_eq!(neutered.parent_fingerprint(), child.parent_fingerprint());
    assert_eq!(&child.serialize()[4..45], &neutered.serialize()[4..45]);
}

#[test]
fn first_hardened_child_matches_the_reference() {
    let m = master_1();
    let child = m.derive_child(0x80000000).unwrap();
    assert_eq!(child.to_string(), M_1_0H_PRV);
    assert_eq!(child.neuter().to_string(), M_1_0H_PUB);
    assert_eq!(child.depth(), 1);
    assert_eq!(child.child_number(), 0x80000000);
    assert_eq!(hex::encode(child.parent_fingerprint()), "3442193e");
}

#[test]
fn first_normal_child_matches_the_reference() {
    let m = master_2();
    let child = m.derive_child(0).unwrap();
    assert_eq!(child.to_string(), M_2_0_PRV);
    assert_eq!(child.neuter().to_string(), M_2_0_PUB);
    assert_eq!(m.neuter().derive_child(0).unwrap().to_string(), M_2_0_PUB);
}

#[test]
fn grandchild_matches_the_reference() {
    let child = master_1().derive_child(0x80000000).unwrap();
    let grandchild = child.derive_child(1).unwrap();
    assert_eq!(grandchild.to_string(), M_1_0H_1_PRV);
    assert_eq!(grandchild.neuter().to_string(), M_1_0H_1_PUB);
    assert_eq!(child.neuter().derive_child(1).unwrap().to_string(), M_1_0H_1_PUB);
    assert_eq!(grandchild.depth(), 2);
}

#[test]
fn hardened_and_normal_children_differ_and_repeat() {
    let m = master_1();
    let hardened = m.derive_child(0x80000000).unwrap();
    let normal = m.derive_child(0).unwrap();
    assert_ne!(hardened, normal);
    assert_ne!(hardened.private_key(), normal.private_key());
    assert_ne!(hardened.chain_code(), normal.chain_code());
    assert_eq!(m.derive_child(0x80000000), Ok(hardened));
    assert_eq!(m.derive_child(0), Ok(normal));
    let p = m.neuter();
    assert_eq!(p.derive_child(0), p.derive_child(0));
}

#[test]
fn derivation_leaves_the_parent_as_it_was() {
    let m = master_1();
    let before = m.clone();
    let _ = m.derive_child(5);
    let _ = m.neuter();
    assert_eq!(m, before);
}

#[test]
fn public_key_cannot_derive_hardened_children() {
    let p = master_1().neuter();
    for index in [0x80000000u32, 0x80000001, 0xdeadbeef, u32::MAX] {
        assert_eq!(
            p.derive_child(index),
            Err(ExtendedKeyErrors::CannotDeriveHardenedFromPublic)
        );
        assert!(master_1().derive_child(index).is_ok());
    }
    assert!(p.derive_child(0x7fffffff).is_ok());
    let deep = ExtendedPublicKey::from_payload(&public_fields(255, [1, 2, 3, 4], 9)).unwrap();
    assert_eq!(
        deep.derive_child(0x80000000),
        Err(ExtendedKeyErrors::CannotDeriveHardenedFromPublic)
    );
}

#[test]
fn private_and_public_derivation_agree() {
    let m = master_2();
    let p = m.neuter();
    for index in [0u32, 1, 2, 1000, 0x7fffffff] {
        let from_private = m.derive_child(index).unwrap();
        let from_public = p.derive_child(index).unwrap();
        assert_eq!(from_private.neuter(), from_public);
        assert_eq!(from_private.public_key(), from_public.public_key());
        let deeper = from_private.derive_child(index).unwrap();
        assert_eq!(deeper.neuter(), from_public.derive_child(index).unwrap());
    }
}

#[test]
fn no_children_at_depth_255() {
    let deep = ExtendedPrivateKey::from_payload(&private_fields(255, [1, 2, 3, 4], 9)).unwrap();
    assert_eq!(deep.depth(), 255);
    assert_eq!(deep.derive_child(0), Err(ExtendedKeyErrors::DepthOverflow));
    assert_eq!(deep.derive_child(0x80000000), Err(ExtendedKeyErrors::DepthOverflow));
    assert_eq!(deep.neuter().derive_child(0), Err(ExtendedKeyErrors::DepthOverflow));
    let almost = ExtendedPrivateKey::from_payload(&private_fields(254, [1, 2, 3, 4], 9)).unwrap();
    assert_eq!(almost.derive_child(0).unwrap().depth(), 255);
    assert_eq!(almost.neuter().derive_child(0).unwrap().depth(), 255);
}

#[test]
fn payload_layout_is_bit_exact() {
    let bytes = master_1().derive_child(0x80000000).unwrap().serialize();
    assert_eq!(bytes.len(), 78);
    assert_eq!(&bytes[0..4], &[0x04, 0x88, 0xad, 0xe4]);
    assert_eq!(bytes[4], 1);
    assert_eq!(&bytes[5..9], &[0x34, 0x42, 0x19, 0x3e]);
    assert_eq!(&bytes[9..13], &[0x80, 0, 0, 0]);
    assert_eq!(
        hex::encode(&bytes[13..45]),
        "47fdacbd0f1097043b78c63c20c34ef4ed9a111d980047ad16282c7ae6236141"
    );
    assert_eq!(bytes[45], 0);
    assert_eq!(
        hex::encode(&bytes[46..78]),
        "edb2e14f9ee77d26dd93b4ecede8d16ed408ce149b6cd80b0715a2d911a0afea"
    );
    let public = master_1().neuter().serialize();
    assert_eq!(public.len(), 78);
    assert_eq!(&public[0..4], &[0x04, 0x88, 0xb2, 0x1e]);
    assert_eq!(public[4], 0);
    assert_eq!(&public[5..13], &[0u8; 8]);
    assert_eq!(hex::encode(&public[13..45]), M_1_CHAIN);
    assert_eq!(hex::encode(&public[45..78]), M_1_POINT);
}

#[test]
fn payload_fields_join_and_split() {
    let fields = private_fields(3, [0xde, 0xad, 0xbe, 0xef], 0x01020304);
    let bytes = fields.join().unwrap();
    assert_eq!(bytes.len(), 78);
    assert_eq!(&bytes[..13], &[0x04, 0x88, 0xad, 0xe4, 3, 0xde, 0xad, 0xbe, 0xef, 1, 2, 3, 4]);
    assert_eq!(Payload::split(&bytes), Ok(fields));
    assert_eq!(Payload::split(&bytes[..77]), Err(ExtendedKeyErrors::InvalidLength));
    let mut short = private_fields(3, [0, 0, 0, 0], 1);
    short.chain_code.pop();
    assert_eq!(short.join(), Err(ExtendedKeyErrors::InvalidLength));
    let mut long = private_fields(3, [0, 0, 0, 0], 1);
    long.key_material.push(0);
    assert_eq!(long.join(), Err(ExtendedKeyErrors::InvalidLength));
    let mut wide = private_fields(3, [0, 0, 0, 0], 1);
    wide.parent_fingerprint.push(0);
    assert_eq!(wide.join(), Err(ExtendedKeyErrors::InvalidLength));
}

#[test]
fn extended_keys_round_trip() {
    let m = master_1();
    let keys = [
        m.clone(),
        m.derive_child(0).unwrap(),
        m.derive_child(0x80000000).unwrap(),
        m.derive_child(7).unwrap().derive_child(0xffffffff).unwrap(),
    ];
    for key in keys {
        assert_eq!(ExtendedPrivateKey::deserialize(&key.serialize()), Ok(key.clone()));
        assert_eq!(ExtendedPrivateKey::from_string(&key.to_string()), Ok(key.clone()));
        assert_eq!(ExtendedPrivateKey::from_payload(&key.to_payload()), Ok(key.clone()));
        let public = key.neuter();
        assert_eq!(ExtendedPublicKey::deserialize(&public.serialize()), Ok(public.clone()));
        assert_eq!(ExtendedPublicKey::from_string(&public.to_string()), Ok(public.clone()));
        assert_eq!(ExtendedPublicKey::from_payload(&public.to_payload()), Ok(public.clone()));
        assert_eq!(public.clone(), public);
    }
}

#[test]
fn reference_texts_are_read() {
    assert_eq!(ExtendedPrivateKey::from_string(M_1_PRV), Ok(master_1()));
    assert_eq!(ExtendedPublicKey::from_string(M_1_PUB), Ok(master_1().neuter()));
    let child = ExtendedPrivateKey::from_string(M_1_0H_PRV).unwrap();
    assert_eq!(child.depth(), 1);
    assert_eq!(child.child_number(), 0x80000000);
    assert_eq!(ExtendedPublicKey::from_string(M_1_0H_PUB), Ok(child.neuter()));
}

#[test]
fn changing_any_character_breaks_the_checksum() {
    for text in [M_1_PRV, M_1_0H_PUB] {
        for at in 0..text.len() {
            let mut changed: Vec<char> = text.chars().collect();
            changed[at] = if changed[at] == '2' { '3' } else { '2' };
            let changed: String = changed.into_iter().collect();
            assert_eq!(
                ExtendedPrivateKey::from_string(&changed),
                Err(ExtendedKeyErrors::InvalidChecksum)
            );
            assert_eq!(
                ExtendedPublicKey::from_string(&changed),
                Err(ExtendedKeyErrors::InvalidChecksum)
            );
        }
    }
}

#[test]
fn text_that_is_not_base58_is_refused() {
    let changed = M_1_PRV.replacen('K', "0", 1);
    assert_eq!(ExtendedPrivateKey::from_string(&changed), Err(ExtendedKeyErrors::Base58Decode));
    assert_eq!(ExtendedPublicKey::from_string("xpub l"), Err(ExtendedKeyErrors::Base58Decode));
}

#[test]
fn payload_of_the_wrong_length_is_refused() {
    assert_eq!(ExtendedPrivateKey::deserialize(&[]), Err(ExtendedKeyErrors::InvalidLength));
    assert_eq!(ExtendedPrivateKey::deserialize(&[0u8; 77]), Err(ExtendedKeyErrors::InvalidLength));
    assert_eq!(ExtendedPublicKey::deserialize(&[0u8; 79]), Err(ExtendedKeyErrors::InvalidLength));
    assert_eq!(ExtendedPrivateKey::from_string(""), Err(ExtendedKeyErrors::InvalidLength));
    let text = hd_keys::base58check::encode_check(&[1u8; 77]);
    assert_eq!(ExtendedPrivateKey::from_string(&text), Err(ExtendedKeyErrors::InvalidLength));
    assert_eq!(ExtendedPublicKey::from_string(&text), Err(ExtendedKeyErrors::InvalidLength));
    let mut fields = private_fields(1, [0, 0, 0, 1], 1);
    fields.chain_code.push(0);
    assert_eq!(ExtendedPrivateKey::from_payload(&fields), Err(ExtendedKeyErrors::InvalidLength));
}

#[test]
fn payload_of_the_other_kind_is_refused() {
    assert_eq!(ExtendedPrivateKey::from_string(M_1_PUB), Err(ExtendedKeyErrors::InvalidVersion));
    assert_eq!(ExtendedPublicKey::from_string(M_1_PRV), Err(ExtendedKeyErrors::InvalidVersion));
    let mut fields = private_fields(1, [0, 0, 0, 1], 1);
    fields.version = 0x0488ade5;
    assert_eq!(ExtendedPrivateKey::from_payload(&fields), Err(ExtendedKeyErrors::InvalidVersion));
}

#[test]
fn master_payload_with_a_parent_is_refused() {
    assert_eq!(
        ExtendedPrivateKey::from_payload(&private_fields(0, [0, 0, 0, 1], 0)),
        Err(ExtendedKeyErrors::InvalidMaster)
    );
    assert_eq!(
        ExtendedPrivateKey::from_payload(&private_fields(0, [0, 0, 0, 0], 1)),
        Err(ExtendedKeyErrors::InvalidMaster)
    );
    assert_eq!(
        ExtendedPublicKey::from_payload(&public_fields(0, [1, 0, 0, 0], 0)),
        Err(ExtendedKeyErrors::InvalidMaster)
    );
    assert_eq!(
        ExtendedPublicKey::from_payload(&public_fields(0, [0, 0, 0, 0], 0x80000000)),
        Err(ExtendedKeyErrors::InvalidMaster)
    );
    assert!(ExtendedPrivateKey::from_payload(&private_fields(0, [0, 0, 0, 0], 0)).is_ok());
    assert!(ExtendedPublicKey::from_payload(&public_fields(1, [0, 0, 0, 0], 0)).is_ok());
}

#[test]
fn private_payload_without_a_scalar_is_refused() {
    let mut zero = private_fields(1, [0, 0, 0, 1], 1);
    zero.key_material = vec![0u8; 33];
    assert_eq!(ExtendedPrivateKey::from_payload(&zero), Err(ExtendedKeyErrors::InvalidScalar));
    let mut order = private_fields(1, [0, 0, 0, 1], 1);
    order.key_material = vec![0u8];
    order.key_material.extend_from_slice(&hex::decode(ORDER).unwrap());
    assert_eq!(ExtendedPrivateKey::from_payload(&order), Err(ExtendedKeyErrors::InvalidScalar));
    let mut prefix = private_fields(1, [0, 0, 0, 1], 1);
    prefix.key_material[0] = 1;
    assert_eq!(ExtendedPrivateKey::from_payload(&prefix), Err(ExtendedKeyErrors::InvalidScalar));
    let mut point = private_fields(1, [0, 0, 0, 1], 1);
    point.key_material = hex::decode(M_1_POINT).unwrap();
    assert_eq!(ExtendedPrivateKey::from_payload(&point), Err(ExtendedKeyErrors::InvalidScalar));
}

#[test]
fn public_payload_without_a_point_is_refused() {
    let mut scalar = public_fields(1, [0, 0, 0, 1], 1);
    scalar.key_material = vec![0u8];
    scalar.key_material.extend_from_slice(&hex::decode(M_1_SCALAR).unwrap());
    assert_eq!(ExtendedPublicKey::from_payload(&scalar), Err(ExtendedKeyErrors::InvalidPoint));
    let mut uncompressed_tag = public_fields(1, [0, 0, 0, 1], 1);
    uncompressed_tag.key_material[0] = 4;
    assert_eq!(
        ExtendedPublicKey::from_payload(&uncompressed_tag),
        Err(ExtendedKeyErrors::InvalidPoint)
    );
    let mut compact_tag = public_fields(1, [0, 0, 0, 1], 1);
    compact_tag.key_material[0] = 5;
    assert_eq!(ExtendedPublicKey::from_payload(&compact_tag), Err(ExtendedKeyErrors::InvalidPoint));
    let mut off_field = public_fields(1, [0, 0, 0, 1], 1);
    off_field.key_material = vec![0xffu8; 33];
    off_field.key_material[0] = 2;
    assert_eq!(ExtendedPublicKey::from_payload(&off_field), Err(ExtendedKeyErrors::InvalidPoint));
}

#[test]
fn hash_input_of_a_hardened_child() {
    let scalar = hex::decode(M_1_SCALAR).unwrap();
    let data = hardened_child_input(&scalar, 0x80000000);
    assert_eq!(data.len(), 37);
    assert_eq!(data[0], 0);
    assert_eq!(&data[1..33], &scalar[..]);
    assert_eq!(&data[33..], &[0x80, 0, 0, 0]);
}

#[test]
fn hash_input_of_a_normal_child() {
    let point = hex::decode(M_1_POINT).unwrap();
    let data = normal_child_input(&point, 0x01020304);
    assert_eq!(data.len(), 37);
    assert_eq!(&data[..33], &point[..]);
    assert_eq!(&data[33..], &[1, 2, 3, 4]);
}

#[test]
fn private_child_from_digest_adds_mod_the_order() {
    let parent = ExtendedPrivateKey::from_payload(&private_fields(1, [0, 0, 0, 1], 1)).unwrap();
    let print = [9u8, 8, 7, 6];
    // IL = 1: the child scalar is the parent's plus one.
    let mut digest = vec![0u8; 64];
    digest[31] = 1;
    digest[63] = 0xaa;
    let child = parent.child_from_digest(5, &digest, &print).unwrap();
    assert_eq!(
        child.private_key().to_hex(),
        "e8f32e723decf4051aefac8e2c93c9c5b214313817cdb01a1494b917c8436b36"
    );
    assert_eq!(child.chain_code(), digest[32..].to_vec());
    assert_eq!(child.depth(), 2);
    assert_eq!(child.child_number(), 5);
    assert_eq!(child.parent_fingerprint(), print.to_vec());
    // IL = 0 is below the order and leaves the scalar as it is.
    let same = parent.child_from_digest(5, &[0u8; 64], &print).unwrap();
    assert_eq!(same.private_key(), parent.private_key());
    // IL = n - parent: the sum is zero mod n.
    let mut cancel = hex::decode("170cd18dc2130bfae5105371d36c3639089aabae977af021ab3da57507f2d60c").unwrap();
    cancel.extend_from_slice(&[0u8; 32]);
    assert_eq!(
        parent.child_from_digest(5, &cancel, &print),
        Err(ExtendedKeyErrors::InvalidChildKey)
    );
    // IL = n and IL above n are refused.
    let mut high = hex::decode(ORDER).unwrap();
    high.extend_from_slice(&[0u8; 32]);
    assert_eq!(parent.child_from_digest(5, &high, &print), Err(ExtendedKeyErrors::InvalidChildKey));
    assert_eq!(
        parent.child_from_digest(5, &[0xffu8; 64], &print),
        Err(ExtendedKeyErrors::InvalidChildKey)
    );
    assert_eq!(
        parent.child_from_digest(5, &digest[..63], &print),
        Err(ExtendedKeyErrors::InvalidLength)
    );
    assert_eq!(
        parent.child_from_digest(5, &digest, &print[..3]),
        Err(ExtendedKeyErrors::InvalidLength)
    );
    let deep = ExtendedPrivateKey::from_payload(&private_fields(255, [0, 0, 0, 1], 1)).unwrap();
    assert_eq!(deep.child_from_digest(5, &digest, &print), Err(ExtendedKeyErrors::DepthOverflow));
}

#[test]
fn public_child_from_parts_checks_in_order() {
    let parent = ExtendedPublicKey::from_payload(&public_fields(1, [0, 0, 0, 1], 1)).unwrap();
    let print = [9u8, 8, 7, 6];
    let chain = [3u8; 32];
    let point = PublicKey::from_hex(M_1_POINT.to_string(), true).unwrap();
    let child = parent.child_from_parts(5, Some(point.clone()), &chain, &print).unwrap();
    assert_eq!(child.public_key(), point);
    assert_eq!(child.chain_code(), chain.to_vec());
    assert_eq!(child.depth(), 2);
    assert_eq!(child.child_number(), 5);
    assert_eq!(child.parent_fingerprint(), print.to_vec());
    assert_eq!(
        parent.child_from_parts(5, None, &chain, &print),
        Err(ExtendedKeyErrors::InvalidChildKey)
    );
    assert_eq!(
        parent.child_from_parts(0x80000000, Some(point.clone()), &chain, &print),
        Err(ExtendedKeyErrors::CannotDeriveHardenedFromPublic)
    );
    assert_eq!(
        parent.child_from_parts(5, Some(point.clone()), &chain[..31], &print),
        Err(ExtendedKeyErrors::InvalidLength)
    );
    assert_eq!(
        parent.child_from_parts(5, Some(point.clone()), &chain, &[]),
        Err(ExtendedKeyErrors::InvalidLength)
    );
    let uncompressed = PublicKey::from_hex(M_1_POINT.to_string(), false).unwrap();
    assert_eq!(
        parent.child_from_parts(5, Some(uncompressed), &chain, &print),
        Err(ExtendedKeyErrors::InvalidPoint)
    );
    let deep = ExtendedPublicKey::from_payload(&public_fields(255, [0, 0, 0, 1], 1)).unwrap();
    assert_eq!(
        deep.child_from_parts(5, Some(point), &chain, &print),
        Err(ExtendedKeyErrors::DepthOverflow)
    );
}
