use keyless_mux::config::{assemble_backend_config, BackendConfigEntry, BackendConfigError, BackendConfigSlot};

use openssl::asn1::Asn1Time;
use openssl::hash::MessageDigest;
use openssl::pkey::{PKey, Private};
use openssl::x509::{X509NameBuilder, X509};

fn ca() -> (X509, PKey<Private>) {
    let key = PKey::generate_ed25519().unwrap();
    let mut name = X509NameBuilder::new().unwrap();
    name.append_entry_by_text("CN", "test ca").unwrap();
    let name = name.build();
    let mut b = X509::builder().unwrap();
    b.set_version(2).unwrap();
    b.set_subject_name(&name).unwrap();
    b.set_issuer_name(&name).unwrap();
    b.set_pubkey(&key).unwrap();
    b.set_not_before(&Asn1Time::days_from_now(0).unwrap()).unwrap();
    b.set_not_after(&Asn1Time::days_from_now(1).unwrap()).unwrap();
    b.sign(&key, MessageDigest::null()).unwrap();
    (b.build(), key)
}

#[test]
fn config_needs_certificate_and_key() {
    let (cert, key) = ca();
    assert!(assemble_backend_config(vec![
        BackendConfigEntry::CaCertificate(cert.clone()),
        BackendConfigEntry::CaPrivateKey(key.clone()),
    ])
    .is_ok());
    assert_eq!(
        assemble_backend_config(vec![BackendConfigEntry::CaPrivateKey(key.clone())]).err(),
        Some(BackendConfigError::NoCaCertificate)
    );
    assert_eq!(
        assemble_backend_config(vec![BackendConfigEntry::CaCertificate(cert.clone())]).err(),
        Some(BackendConfigError::NoCaPrivateKey)
    );
    assert_eq!(assemble_backend_config(vec![]).err(), Some(BackendConfigError::NoCaCertificate));
}

#[test]
fn config_refuses_unknown_key() {
    let (cert, key) = ca();
    assert_eq!(
        assemble_backend_config(vec![
            BackendConfigEntry::CaCertificate(cert),
            BackendConfigEntry::Unknown,
            BackendConfigEntry::CaPrivateKey(key),
            BackendConfigEntry::Unknown,
        ])
        .err(),
        Some(BackendConfigError::InvalidKey(1))
    );
}

#[test]
fn config_is_set_once() {
    let (cert, key) = ca();
    let mut slot = BackendConfigSlot::new();
    assert!(slot.get().is_none());
    let first = assemble_backend_config(vec![
        BackendConfigEntry::CaCertificate(cert.clone()),
        BackendConfigEntry::CaPrivateKey(key.clone()),
    ])
    .unwrap();
    assert_eq!(slot.set(first), Ok(()));
    let second = assemble_backend_config(vec![
        BackendConfigEntry::CaPrivateKey(key),
        BackendConfigEntry::CaCertificate(cert.clone()),
    ])
    .unwrap();
    assert_eq!(slot.set(second), Err(BackendConfigError::Duplicate));
    assert_eq!(slot.get().unwrap().ca_cert.to_der().unwrap(), cert.to_der().unwrap());
}

#[test]
fn config_keeps_last_entries() {
    let (c1, k1) = ca();
    let (c2, k2) = ca();
    let cfg = assemble_backend_config(vec![
        BackendConfigEntry::CaCertificate(c1.clone()),
        BackendConfigEntry::CaPrivateKey(k1.clone()),
        BackendConfigEntry::CaCertificate(c2.clone()),
        BackendConfigEntry::CaPrivateKey(k2.clone()),
    ])
    .unwrap();
    assert_eq!(cfg.ca_cert.to_der().unwrap(), c2.to_der().unwrap());
    assert_ne!(cfg.ca_cert.to_der().unwrap(), c1.to_der().unwrap());
    assert_eq!(cfg.ca_key.raw_private_key().unwrap(), k2.raw_private_key().unwrap());
    let mut slot = BackendConfigSlot::new();
    slot.set(cfg).unwrap();
    let stored = slot.get().unwrap();
    assert_eq!(stored.ca_cert.to_der().unwrap(), c2.to_der().unwrap());
    assert_eq!(stored.ca_key.raw_private_key().unwrap(), k2.raw_private_key().unwrap());
}
