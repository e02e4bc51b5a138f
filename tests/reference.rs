use keyless_mux::action::{ConstructionError, KeylessAction, KeylessRsaPadding, KeylessSignDigest};
use keyless_mux::reference::{check_rsa_payload, KeyMaterial, ReferenceError};

use openssl::asn1::Asn1Time;
use openssl::ec::{EcGroup, EcKey};
use openssl::hash::MessageDigest;
use openssl::nid::Nid;
use openssl::pkey::{PKey, Private};
use openssl::rsa::{Padding, Rsa};
use openssl::sign::Verifier;
use openssl::x509::{X509NameBuilder, X509};

fn self_signed(key: &PKey<Private>, md: MessageDigest) -> X509 {
    let mut name = X509NameBuilder::new().unwrap();
    name.append_entry_by_text("CN", "keyless test").unwrap();
    let name = name.build();
    let mut b = X509::builder().unwrap();
    b.set_version(2).unwrap();
    b.set_subject_name(&name).unwrap();
    b.set_issuer_name(&name).unwrap();
    b.set_pubkey(key).unwrap();
    b.set_not_before(&Asn1Time::days_from_now(0).unwrap()).unwrap();
    b.set_not_after(&Asn1Time::days_from_now(1).unwrap()).unwrap();
    b.sign(key, md).unwrap();
    b.build()
}

fn rsa_material() -> (KeyMaterial, PKey<Private>) {
    let key = PKey::from_rsa(Rsa::generate(2048).unwrap()).unwrap();
    let cert = self_signed(&key, MessageDigest::sha256());
    (KeyMaterial { cert, key: Some(key.clone()) }, key)
}

#[test]
fn rsa_sign_sha256_scenario() {
    let (m, key) = rsa_material();
    let payload = [0u8; 32];
    let sig = m.pkey_sign_rsa(KeylessSignDigest::Sha256, KeylessRsaPadding::Pkcs1, &payload).unwrap();
    assert_eq!(sig.len(), 256);
    let public = m.cert.public_key().unwrap();
    let mut v = Verifier::new(MessageDigest::sha256(), &public).unwrap();
    v.set_rsa_padding(Padding::PKCS1).unwrap();
    assert!(v.verify_oneshot(&sig, &payload).unwrap());
    drop(key);
}

#[test]
fn pkcs1_signing_is_deterministic() {
    let (m, _key) = rsa_material();
    let payload = [7u8; 20];
    let a = m.pkey_sign_rsa(KeylessSignDigest::Sha1, KeylessRsaPadding::Pkcs1, &payload).unwrap();
    let b = m.pkey_sign_rsa(KeylessSignDigest::Sha1, KeylessRsaPadding::Pkcs1, &payload).unwrap();
    assert_eq!(a, b);
}

#[test]
fn pss_signatures_always_verify() {
    let (m, _key) = rsa_material();
    let payload = [3u8; 48];
    let public = m.cert.public_key().unwrap();
    for _ in 0..3 {
        let sig = m.pkey_sign_rsa(KeylessSignDigest::Sha384, KeylessRsaPadding::Pss, &payload).unwrap();
        let mut v = Verifier::new(MessageDigest::sha384(), &public).unwrap();
        v.set_rsa_padding(Padding::PKCS1_PSS).unwrap();
        assert!(v.verify_oneshot(&sig, &payload).unwrap());
    }
}

#[test]
fn ecdsa_signatures_always_verify() {
    let group = EcGroup::from_curve_name(Nid::X9_62_PRIME256V1).unwrap();
    let key = PKey::from_ec_key(EcKey::generate(&group).unwrap()).unwrap();
    let cert = self_signed(&key, MessageDigest::sha256());
    let m = KeyMaterial { cert, key: Some(key) };
    let payload = [9u8; 32];
    let public = m.cert.public_key().unwrap();
    for _ in 0..3 {
        let sig = m.compute(KeylessAction::EcdsaSign(KeylessSignDigest::Sha256), &payload).unwrap();
        let mut v = Verifier::new(MessageDigest::sha256(), &public).unwrap();
        assert!(v.verify_oneshot(&sig, &payload).unwrap());
    }
}

#[test]
fn ed25519_signs_raw_payload() {
    let key = PKey::generate_ed25519().unwrap();
    let cert = self_signed(&key, MessageDigest::null());
    let m = KeyMaterial { cert, key: Some(key) };
    let payload = b"any length at all";
    let a = m.pkey_sign_ed(payload).unwrap();
    let b = m.compute(KeylessAction::Ed25519Sign, payload).unwrap();
    assert_eq!(a.len(), 64);
    assert_eq!(a, b);
    let public = m.cert.public_key().unwrap();
    let mut v = Verifier::new_without_digest(&public).unwrap();
    assert!(v.verify_oneshot(&a, payload).unwrap());
}

#[test]
fn private_decrypt_wrong_size_is_refused() {
    let (m, _key) = rsa_material();
    assert_eq!(
        m.rsa_private_decrypt(KeylessRsaPadding::Pkcs1, &[0u8; 100]),
        Err(ReferenceError::Payload(ConstructionError::PayloadModulusMismatch { payload: 100, modulus: 256 }))
    );
    assert_eq!(
        m.rsa_public_encrypt(KeylessRsaPadding::Pkcs1, &[0u8; 257]),
        Err(ReferenceError::Payload(ConstructionError::PayloadTooLarge { payload: 257, modulus: 256 }))
    );
}

#[test]
fn public_encrypt_then_private_decrypt() {
    let (m, _key) = rsa_material();
    let msg = b"keyless reference".to_vec();
    let c = m.rsa_public_encrypt(KeylessRsaPadding::Pkcs1, &msg).unwrap();
    assert_eq!(c.len(), 256);
    assert_ne!(c, msg);
    let p = m.rsa_private_decrypt(KeylessRsaPadding::Pkcs1, &c).unwrap();
    assert_eq!(p, msg);
}

#[test]
fn private_encrypt_then_public_decrypt() {
    let (m, _key) = rsa_material();
    let msg = vec![5u8; 40];
    let c = m.rsa_private_encrypt(KeylessRsaPadding::Pkcs1, &msg).unwrap();
    assert_eq!(c.len(), 256);
    let p = m.compute(KeylessAction::RsaPublicDecrypt(KeylessRsaPadding::Pkcs1), &c).unwrap();
    assert_eq!(p, msg);
}

#[test]
fn missing_private_key() {
    let (m, _key) = rsa_material();
    let public_only = KeyMaterial { cert: m.cert.clone(), key: None };
    assert_eq!(
        public_only.compute(KeylessAction::RsaSign(KeylessSignDigest::Sha256, KeylessRsaPadding::Pkcs1), &[0; 32]),
        Err(ReferenceError::NoPrivateKey)
    );
    assert_eq!(
        public_only.rsa_private_decrypt(KeylessRsaPadding::Pkcs1, &[0; 256]),
        Err(ReferenceError::NoPrivateKey)
    );
    assert_eq!(public_only.pkey_sign_ed(&[1]), Err(ReferenceError::NoPrivateKey));
    // public key operations still work
    assert!(public_only.rsa_public_encrypt(KeylessRsaPadding::Oaep, &[1, 2, 3]).is_ok());
}

#[test]
fn sign_payload_must_be_digest_sized() {
    let (m, _key) = rsa_material();
    assert_eq!(
        m.pkey_sign(KeylessSignDigest::Sha512, &[0; 32]),
        Err(ReferenceError::Payload(ConstructionError::PayloadDigestMismatch { payload: 32, digest: 64 }))
    );
}

#[test]
fn rsa_operation_on_ec_key() {
    let group = EcGroup::from_curve_name(Nid::X9_62_PRIME256V1).unwrap();
    let key = PKey::from_ec_key(EcKey::generate(&group).unwrap()).unwrap();
    let cert = self_signed(&key, MessageDigest::sha256());
    let m = KeyMaterial { cert, key: Some(key) };
    assert_eq!(m.rsa_public_encrypt(KeylessRsaPadding::Pkcs1, &[1]), Err(ReferenceError::NotRsaKey));
    assert_eq!(m.rsa_private_decrypt(KeylessRsaPadding::Pkcs1, &[1]), Err(ReferenceError::NotRsaKey));
}

#[test]
fn rsa_signs_with_every_digest() {
    let (m, _key) = rsa_material();
    let digests = [
        (KeylessSignDigest::Md5Sha1, 36usize),
        (KeylessSignDigest::Sha1, 20),
        (KeylessSignDigest::Sha224, 28),
        (KeylessSignDigest::Sha256, 32),
        (KeylessSignDigest::Sha384, 48),
        (KeylessSignDigest::Sha512, 64),
    ];
    for (d, n) in digests {
        let sig = m.compute(KeylessAction::RsaSign(d, KeylessRsaPadding::Pkcs1), &vec![1u8; n]).unwrap();
        assert_eq!(sig.len(), 256);
    }
}

#[test]
fn rsa_size_check_against_modulus() {
    let dec = KeylessAction::RsaPrivateDecrypt(KeylessRsaPadding::Raw);
    assert_eq!(check_rsa_payload(dec, &[0; 128], 128), Ok(()));
    assert_eq!(
        check_rsa_payload(dec, &[0; 127], 128),
        Err(ReferenceError::Payload(ConstructionError::PayloadModulusMismatch { payload: 127, modulus: 128 }))
    );
    let enc = KeylessAction::RsaPrivateEncrypt(KeylessRsaPadding::Pkcs1);
    assert_eq!(check_rsa_payload(enc, &[0; 100], 128), Ok(()));
    assert_eq!(
        check_rsa_payload(enc, &[0; 129], 128),
        Err(ReferenceError::Payload(ConstructionError::PayloadTooLarge { payload: 129, modulus: 128 }))
    );
}

#[test]
fn sign_checks_size_before_key() {
    let (m, _key) = rsa_material();
    let public_only = KeyMaterial { cert: m.cert.clone(), key: None };
    assert_eq!(
        public_only.pkey_sign_rsa(KeylessSignDigest::Sha256, KeylessRsaPadding::Pkcs1, &[0; 31]),
        Err(ReferenceError::Payload(ConstructionError::PayloadDigestMismatch { payload: 31, digest: 32 }))
    );
    assert!(public_only.rsa_public_decrypt(KeylessRsaPadding::Pkcs1, &[0; 256]).is_err());
    assert_ne!(
        public_only.rsa_public_decrypt(KeylessRsaPadding::Pkcs1, &[0; 256]),
        Err(ReferenceError::NoPrivateKey)
    );
}
