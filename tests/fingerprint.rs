use keyless_mux::fingerprint::{ec_point_digest, fingerprint_of, modulus_text_digest, KeyText};
use keyless_mux::reference::{KeyMaterial, ReferenceError};

use openssl::asn1::Asn1Time;
use openssl::bn::BigNumContext;
use openssl::ec::{EcGroup, EcKey, PointConversionForm};
use openssl::hash::{hash, MessageDigest};
use openssl::nid::Nid;
use openssl::pkey::{PKey, Private};
use openssl::rsa::Rsa;
use openssl::x509::{X509NameBuilder, X509};

fn cert_for(key: &PKey<Private>, md: MessageDigest) -> X509 {
    let mut name = X509NameBuilder::new().unwrap();
    name.append_entry_by_text("CN", "fingerprint").unwrap();
    let name = name.build();
    let mut b = X509::builder().unwrap();
    b.set_version(2).unwrap();
    b.set_subject_name(&name).unwrap();
    b.set_issuer_name(&name).unwrap();
    b.set_pubkey(key).unwrap();
    b.set_not_before(&Asn1Time::days_from_now(0).unwrap()).unwrap();
    b.set_not_after(&Asn1Time::days_from_now(1).unwrap()).unwrap();
    b.sign(key, md).unwrap();
    b.build()
}

fn sha256(data: &[u8]) -> Vec<u8> {
    hash(MessageDigest::sha256(), data).unwrap().to_vec()
}

#[test]
fn ec_point_digest_hashes_lowercase_hex() {
    let d = ec_point_digest(&[0x02, 0xab, 0x0f]).unwrap();
    assert_eq!(d, sha256(b"02ab0f"));
    assert_ne!(d, sha256(&[0x02, 0xab, 0x0f]));
    assert_eq!(d.len(), 32);
}

#[test]
fn sha256_known_value() {
    let d = modulus_text_digest(b"abc").unwrap();
    assert_eq!(
        hex::encode(d),
        "ba7816bf8f01cfea414140de5dae2223b00361a396177a9cb410ff61f20015ad"
    );
}

#[test]
fn rsa_key_digest_is_over_modulus_hex() {
    let rsa = Rsa::generate(1024).unwrap();
    let expected = sha256(rsa.n().to_hex_str().unwrap().as_bytes());
    let key = PKey::from_rsa(rsa).unwrap();
    let m = KeyMaterial { cert: cert_for(&key, MessageDigest::sha256()), key: None };
    assert_eq!(m.public_key_digest().unwrap(), expected);
}

#[test]
fn ec_key_digest_is_over_compressed_point_hex() {
    let group = EcGroup::from_curve_name(Nid::X9_62_PRIME256V1).unwrap();
    let ec = EcKey::generate(&group).unwrap();
    let mut ctx = BigNumContext::new().unwrap();
    let point = ec.public_key().to_bytes(&group, PointConversionForm::COMPRESSED, &mut ctx).unwrap();
    let expected = sha256(hex::encode(point).as_bytes());
    let key = PKey::from_ec_key(ec).unwrap();
    let m = KeyMaterial { cert: cert_for(&key, MessageDigest::sha256()), key: Some(key) };
    assert_eq!(m.public_key_digest().unwrap(), expected);
}

#[test]
fn ed25519_key_has_no_digest() {
    let key = PKey::generate_ed25519().unwrap();
    let m = KeyMaterial { cert: cert_for(&key, MessageDigest::null()), key: None };
    assert_eq!(m.public_key_digest(), Err(ReferenceError::UnsupportedKeyType));
}

#[test]
fn fingerprint_of_each_key_text() {
    assert_eq!(fingerprint_of(&KeyText::Rsa(b"C0FFEE".to_vec())).unwrap(), sha256(b"C0FFEE"));
    assert_eq!(fingerprint_of(&KeyText::Ec(vec![0x03, 0x1f])).unwrap(), sha256(b"031f"));
    assert_eq!(fingerprint_of(&KeyText::Other), Err(ReferenceError::UnsupportedKeyType));
}
