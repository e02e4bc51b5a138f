use vstd::prelude::*;

use openssl::hash::MessageDigest;
use openssl::pkey::{PKey, Private, Public};
use openssl::rsa::{Padding, Rsa};
use openssl::sign::Signer;
use openssl::x509::X509;

use crate::action::{digest_len, payload_fault, ConstructionError, KeyInfo, KeyType, KeylessAction, KeylessRsaPadding, KeylessSignDigest};

verus! {

#[verifier::external_type_specification]
#[verifier::external_body]
pub struct ExX509(X509);

#[verifier::external_type_specification]
#[verifier::external_body]
#[verifier::reject_recursive_types(T)]
pub struct ExPKey<T>(PKey<T>);

#[verifier::external_type_specification]
#[verifier::external_body]
#[verifier::reject_recursive_types(T)]
pub struct ExRsa<T>(Rsa<T>);

#[verifier::external_type_specification]
#[verifier::external_body]
pub struct ExPrivate(Private);

#[verifier::external_type_specification]
#[verifier::external_body]
pub struct ExPublic(Public);

#[verifier::external_type_specification]
#[verifier::external_body]
pub struct ExMessageDigest(MessageDigest);

#[verifier::external_type_specification]
#[verifier::external_body]
pub struct ExSigner<'a>(Signer<'a>);

/// Relies on X509Ref::public_key: the certificate's public key, if it has
/// one that OpenSSL can read.
#[verifier::external_body]
pub(crate) fn cert_public_key(cert: &X509) -> Option<PKey<Public>> {
    cert.public_key().ok()
}

/// Relies on PKeyRef::rsa: the RSA key inside, if the key is an RSA key.
#[verifier::external_body]
pub(crate) fn pkey_rsa<T>(key: &PKey<T>) -> Option<Rsa<T>> {
    key.rsa().ok()
}

/// Relies on RsaRef::size: the modulus size in bytes of a private key.
#[verifier::external_body]
fn private_rsa_size(rsa: &Rsa<Private>) -> u32 {
    rsa.size()
}

/// Relies on RsaRef::size: the modulus size in bytes of a public key.
#[verifier::external_body]
fn public_rsa_size(rsa: &Rsa<Public>) -> u32 {
    rsa.size()
}

/// Relies on RsaRef::private_decrypt, into a buffer of RsaRef::size bytes
/// (the least it accepts), cut to the length that it reports.
#[verifier::external_body]
fn openssl_private_decrypt(rsa: &Rsa<Private>, from: &[u8], padding: i32) -> Option<Vec<u8>>
    requires
        from@.len() <= 0x7fff_ffff,
{
    let mut to = vec![0u8; rsa.size() as usize];
    let len = rsa.private_decrypt(from, &mut to, Padding::from_raw(padding)).ok()?;
    to.truncate(len);
    Some(to)
}

/// Relies on RsaRef::private_encrypt, into a buffer of RsaRef::size bytes
/// (the least it accepts), cut to the length that it reports.
#[verifier::external_body]
fn openssl_private_encrypt(rsa: &Rsa<Private>, from: &[u8], padding: i32) -> Option<Vec<u8>>
    requires
        from@.len() <= 0x7fff_ffff,
{
    let mut to = vec![0u8; rsa.size() as usize];
    let len = rsa.private_encrypt(from, &mut to, Padding::from_raw(padding)).ok()?;
    to.truncate(len);
    Some(to)
}

/// Relies on RsaRef::public_decrypt, into a buffer of RsaRef::size bytes
/// (the least it accepts), cut to the length that it reports.
#[verifier::external_body]
fn openssl_public_decrypt(rsa: &Rsa<Public>, from: &[u8], padding: i32) -> Option<Vec<u8>>
    requires
        from@.len() <= 0x7fff_ffff,
{
    let mut to = vec![0u8; rsa.size() as usize];
    let len = rsa.public_decrypt(from, &mut to, Padding::from_raw(padding)).ok()?;
    to.truncate(len);
    Some(to)
}

/// Relies on RsaRef::public_encrypt, into a buffer of RsaRef::size bytes
/// (the least it accepts), cut to the length that it reports.
#[verifier::external_body]
fn openssl_public_encrypt(rsa: &Rsa<Public>, from: &[u8], padding: i32) -> Option<Vec<u8>>
    requires
        from@.len() <= 0x7fff_ffff,
{
    let mut to = vec![0u8; rsa.size() as usize];
    let len = rsa.public_encrypt(from, &mut to, Padding::from_raw(padding)).ok()?;
    to.truncate(len);
    Some(to)
}

/// Relies on MessageDigest::from_name: the digest that OpenSSL knows by
/// that name, if any.
#[verifier::external_body]
fn digest_by_name(name: &str) -> Option<MessageDigest> {
    MessageDigest::from_name(name)
}

/// Relies on Signer::new: a signer that hashes with `md` under `key`.
#[verifier::external_body]
fn signer_new<'a>(md: MessageDigest, key: &PKey<Private>) -> Option<Signer<'a>> {
    Signer::new(md, key).ok()
}

/// Relies on Signer::new_without_digest: a signer for keys that sign the
/// message itself (Ed25519).
#[verifier::external_body]
fn signer_new_without_digest<'a>(key: &PKey<Private>) -> Option<Signer<'a>> {
    Signer::new_without_digest(key).ok()
}

/// Relies on Signer::set_rsa_padding: whether OpenSSL took the padding.
#[verifier::external_body]
fn signer_set_rsa_padding(signer: &mut Signer<'_>, padding: i32) -> bool {
    signer.set_rsa_padding(Padding::from_raw(padding)).is_ok()
}

/// Relies on Signer::sign_oneshot_to_vec: the signature of `data`.
#[verifier::external_body]
fn signer_sign_oneshot(signer: &mut Signer<'_>, data: &[u8]) -> Option<Vec<u8>> {
    signer.sign_oneshot_to_vec(data).ok()
}

/// Why the local reference result could not be computed. These are local
/// misconfigurations, not backend behaviour.
#[derive(Clone, Copy, Debug, PartialEq, Eq, Structural)]
pub enum ReferenceError {
    NoPrivateKey,
    NoPublicKey,
    NotRsaKey,
    Payload(ConstructionError),
    PayloadTooLong,
    UnknownDigest,
    UnsupportedKeyType,
    CryptoFailed,
}

/// OpenSSL's number for each RSA padding.
pub open spec fn openssl_padding_spec(p: KeylessRsaPadding) -> i32 {
    match p {
        KeylessRsaPadding::Pkcs1 => 1,
        KeylessRsaPadding::Raw => 3,
        KeylessRsaPadding::Oaep => 4,
        KeylessRsaPadding::X931 => 5,
        KeylessRsaPadding::Pss => 6,
    }
}

pub fn openssl_padding(p: KeylessRsaPadding) -> (r: i32)
    ensures
        r == openssl_padding_spec(p),
{
    match p {
        KeylessRsaPadding::Pkcs1 => 1,
        KeylessRsaPadding::Raw => 3,
        KeylessRsaPadding::Oaep => 4,
        KeylessRsaPadding::X931 => 5,
        KeylessRsaPadding::Pss => 6,
    }
}

/// OpenSSL's name for each digest.
pub open spec fn openssl_digest_name_spec(d: KeylessSignDigest) -> Seq<char> {
    match d {
        KeylessSignDigest::Md5Sha1 => "MD5-SHA1"@,
        KeylessSignDigest::Sha1 => "SHA1"@,
        KeylessSignDigest::Sha224 => "SHA224"@,
        KeylessSignDigest::Sha256 => "SHA256"@,
        KeylessSignDigest::Sha384 => "SHA384"@,
        KeylessSignDigest::Sha512 => "SHA512"@,
    }
}

fn openssl_digest_name(d: KeylessSignDigest) -> (r: &'static str)
    ensures
        r@ == openssl_digest_name_spec(d),
{
    match d {
        KeylessSignDigest::Md5Sha1 => "MD5-SHA1",
        KeylessSignDigest::Sha1 => "SHA1",
        KeylessSignDigest::Sha224 => "SHA224",
        KeylessSignDigest::Sha256 => "SHA256",
        KeylessSignDigest::Sha384 => "SHA384",
        KeylessSignDigest::Sha512 => "SHA512",
    }
}

/// The error is the one the size check gives for some RSA modulus size.
pub open spec fn refused_for_some_rsa_key(a: KeylessAction, len: nat, e: ConstructionError) -> bool {
    exists|size: usize|
        payload_fault(a, len, KeyInfo { key_type: KeyType::Rsa, rsa_size: size }) == Some(e)
}

/// Whether an action uses the private key.
pub open spec fn needs_private_key(a: KeylessAction) -> bool {
    !(a is RsaPublicDecrypt || a is RsaPublicEncrypt)
}

/// A sign action's payload has its digest's size; other actions pass.
pub open spec fn payload_digest_fits(a: KeylessAction, len: nat) -> bool {
    match a {
        KeylessAction::RsaSign(d, _) | KeylessAction::EcdsaSign(d) => len == digest_len(d),
        _ => true,
    }
}

/// The key material a benchmark run checks results against: the target
/// certificate (for the public key) and, optionally, the private key.
pub struct KeyMaterial {
    pub cert: X509,
    pub key: Option<PKey<Private>>,
}

impl KeyMaterial {
    fn private_rsa(&self) -> (r: Result<Rsa<Private>, ReferenceError>)
        ensures
            (r == Err::<Rsa<Private>, ReferenceError>(ReferenceError::NoPrivateKey)) <==> self.key is None,
            r matches Err(e) ==> e == ReferenceError::NoPrivateKey || e == ReferenceError::NotRsaKey,
    {
        match &self.key {
            None => Err(ReferenceError::NoPrivateKey),
            Some(k) => match pkey_rsa(k) {
                Some(rsa) => Ok(rsa),
                None => Err(ReferenceError::NotRsaKey),
            },
        }
    }


    /// Decrypts the payload with the private key; the payload must be exactly
    /// the modulus size.
    pub fn rsa_private_decrypt(&self, padding: KeylessRsaPadding, payload: &[u8]) -> (r: Result<Vec<u8>, ReferenceError>)
        ensures
            (r == Err::<Vec<u8>, ReferenceError>(ReferenceError::NoPrivateKey)) <==> self.key is None,
            r matches Err(ReferenceError::Payload(e)) ==> refused_for_some_rsa_key(
                KeylessAction::RsaPrivateDecrypt(padding),
                payload@.len(),
                e,
            ),
            r is Ok ==> self.key is Some,
    {
        let a = KeylessAction::RsaPrivateDecrypt(padding);
        let rsa = match self.private_rsa() {
            Ok(rsa) => rsa,
            Err(e) => return Err(e),
        };
        let size = private_rsa_size(&rsa);
        let ghost info = KeyInfo { key_type: KeyType::Rsa, rsa_size: size as usize };
        match check_rsa_payload(a, payload, size) {
            Ok(()) => {},
            Err(e) => {
                assert(e is Payload ==> payload_fault(a, payload@.len(), info) == Some(e->Payload_0));
                return Err(e);
            },
        }
        assert(payload_fault(a, payload@.len(), info) is None);
        match openssl_private_decrypt(&rsa, payload, openssl_padding(padding)) {
            Some(v) => Ok(v),
            None => Err(ReferenceError::CryptoFailed),
        }
    }

    /// Encrypts the payload with the private key; the payload must not exceed
    /// the modulus size.
    pub fn rsa_private_encrypt(&self, padding: KeylessRsaPadding, payload: &[u8]) -> (r: Result<Vec<u8>, ReferenceError>)
        ensures
            (r == Err::<Vec<u8>, ReferenceError>(ReferenceError::NoPrivateKey)) <==> self.key is None,
            r matches Err(ReferenceError::Payload(e)) ==> refused_for_some_rsa_key(
                KeylessAction::RsaPrivateEncrypt(padding),
                payload@.len(),
                e,
            ),
            r is Ok ==> self.key is Some,
    {
        let a = KeylessAction::RsaPrivateEncrypt(padding);
        let rsa = match self.private_rsa() {
            Ok(rsa) => rsa,
            Err(e) => return Err(e),
        };
        let size = private_rsa_size(&rsa);
        let ghost info = KeyInfo { key_type: KeyType::Rsa, rsa_size: size as usize };
        match check_rsa_payload(a, payload, size) {
            Ok(()) => {},
            Err(e) => {
                assert(e is Payload ==> payload_fault(a, payload@.len(), info) == Some(e->Payload_0));
                return Err(e);
            },
        }
        assert(payload_fault(a, payload@.len(), info) is None);
        match openssl_private_encrypt(&rsa, payload, openssl_padding(padding)) {
            Some(v) => Ok(v),
            None => Err(ReferenceError::CryptoFailed),
        }
    }

    /// Decrypts the payload with the certificate's public key; the payload
    /// must be exactly the modulus size.
    pub fn rsa_public_decrypt(&self, padding: KeylessRsaPadding, payload: &[u8]) -> (r: Result<Vec<u8>, ReferenceError>)
        ensures
            r matches Err(ReferenceError::Payload(e)) ==> refused_for_some_rsa_key(
                KeylessAction::RsaPublicDecrypt(padding),
                payload@.len(),
                e,
            ),
            r != Err::<Vec<u8>, ReferenceError>(ReferenceError::NoPrivateKey),
    {
        let a = KeylessAction::RsaPublicDecrypt(padding);
        let rsa = match self.public_rsa() {
            Ok(rsa) => rsa,
            Err(e) => return Err(e),
        };
        let size = public_rsa_size(&rsa);
        let ghost info = KeyInfo { key_type: KeyType::Rsa, rsa_size: size as usize };
        match check_rsa_payload(a, payload, size) {
            Ok(()) => {},
            Err(e) => {
                assert(e is Payload ==> payload_fault(a, payload@.len(), info) == Some(e->Payload_0));
                return Err(e);
            },
        }
        assert(payload_fault(a, payload@.len(), info) is None);
        match openssl_public_decrypt(&rsa, payload, openssl_padding(padding)) {
            Some(v) => Ok(v),
            None => Err(ReferenceError::CryptoFailed),
        }
    }

    /// Encrypts the payload with the certificate's public key; the payload must
    /// not exceed the modulus size.
    pub fn rsa_public_encrypt(&self, padding: KeylessRsaPadding, payload: &[u8]) -> (r: Result<Vec<u8>, ReferenceError>)
        ensures
            r matches Err(ReferenceError::Payload(e)) ==> refused_for_some_rsa_key(
                KeylessAction::RsaPublicEncrypt(padding),
                payload@.len(),
                e,
            ),
            r != Err::<Vec<u8>, ReferenceError>(ReferenceError::NoPrivateKey),
    {
        let a = KeylessAction::RsaPublicEncrypt(padding);
        let rsa = match self.public_rsa() {
            Ok(rsa) => rsa,
            Err(e) => return Err(e),
        };
        let size = public_rsa_size(&rsa);
        let ghost info = KeyInfo { key_type: KeyType::Rsa, rsa_size: size as usize };
        match check_rsa_payload(a, payload, size) {
            Ok(()) => {},
            Err(e) => {
                assert(e is Payload ==> payload_fault(a, payload@.len(), info) == Some(e->Payload_0));
                return Err(e);
            },
        }
        assert(payload_fault(a, payload@.len(), info) is None);
        match openssl_public_encrypt(&rsa, payload, openssl_padding(padding)) {
            Some(v) => Ok(v),
            None => Err(ReferenceError::CryptoFailed),
        }
    }

    /// Signs the payload with the private key, hashing with `digest`; the
    /// payload must have the digest's size (it stands for a pre-hashed
    /// message).
    pub fn pkey_sign(&self, digest: KeylessSignDigest, payload: &[u8]) -> (r: Result<Vec<u8>, ReferenceError>)
        ensures
            payload@.len() != digest_len(digest) ==> r == Err::<Vec<u8>, ReferenceError>(
                ReferenceError::Payload(
                    ConstructionError::PayloadDigestMismatch {
                        payload: payload@.len() as usize,
                        digest: digest_len(digest) as usize,
                    },
                ),
            ),
            (r == Err::<Vec<u8>, ReferenceError>(ReferenceError::NoPrivateKey)) <==> (payload@.len() == digest_len(digest) && self.key is None),
            r is Ok ==> self.key is Some && payload@.len() == digest_len(digest),
            r matches Err(ReferenceError::Payload(_)) ==> payload@.len() != digest_len(digest),
    {
        self.sign_with(digest, None, payload)
    }

    /// Signs the payload with the private RSA key under `padding`, hashing
    /// with `digest`; the payload must have the digest's size.
    pub fn pkey_sign_rsa(&self, digest: KeylessSignDigest, padding: KeylessRsaPadding, payload: &[u8]) -> (r: Result<Vec<u8>, ReferenceError>)
        ensures
            payload@.len() != digest_len(digest) ==> r == Err::<Vec<u8>, ReferenceError>(
                ReferenceError::Payload(
                    ConstructionError::PayloadDigestMismatch {
                        payload: payload@.len() as usize,
                        digest: digest_len(digest) as usize,
                    },
                ),
            ),
            (r == Err::<Vec<u8>, ReferenceError>(ReferenceError::NoPrivateKey)) <==> (payload@.len() == digest_len(digest) && self.key is None),
            r is Ok ==> self.key is Some && payload@.len() == digest_len(digest),
            r matches Err(ReferenceError::Payload(_)) ==> payload@.len() != digest_len(digest),
    {
        self.sign_with(digest, Some(padding), payload)
    }

    fn sign_with(&self, digest: KeylessSignDigest, padding: Option<KeylessRsaPadding>, payload: &[u8]) -> (r: Result<Vec<u8>, ReferenceError>)
        ensures
            payload@.len() != digest_len(digest) ==> r == Err::<Vec<u8>, ReferenceError>(
                ReferenceError::Payload(
                    ConstructionError::PayloadDigestMismatch {
                        payload: payload@.len() as usize,
                        digest: digest_len(digest) as usize,
                    },
                ),
            ),
            (r == Err::<Vec<u8>, ReferenceError>(ReferenceError::NoPrivateKey)) <==> (payload@.len() == digest_len(digest) && self.key is None),
            r is Ok ==> self.key is Some && payload@.len() == digest_len(digest),
            r matches Err(ReferenceError::Payload(_)) ==> payload@.len() != digest_len(digest),
    {
        match digest.check_payload(payload) {
            Ok(()) => {},
            Err(e) => return Err(ReferenceError::Payload(e)),
        }
        let key = match &self.key {
            Some(k) => k,
            None => return Err(ReferenceError::NoPrivateKey),
        };
        let md = match digest_by_name(openssl_digest_name(digest)) {
            Some(md) => md,
            None => return Err(ReferenceError::UnknownDigest),
        };
        let mut signer = match signer_new(md, key) {
            Some(s) => s,
            None => return Err(ReferenceError::CryptoFailed),
        };
        match padding {
            Some(p) => {
                if !signer_set_rsa_padding(&mut signer, openssl_padding(p)) {
                    return Err(ReferenceError::CryptoFailed);
                }
            },
            None => {},
        }
        match signer_sign_oneshot(&mut signer, payload) {
            Some(v) => Ok(v),
            None => Err(ReferenceError::CryptoFailed),
        }
    }

    /// Signs the raw payload with the private Ed25519 key (no digest, no
    /// padding).
    pub fn pkey_sign_ed(&self, payload: &[u8]) -> (r: Result<Vec<u8>, ReferenceError>)
        ensures
            (r == Err::<Vec<u8>, ReferenceError>(ReferenceError::NoPrivateKey)) <==> self.key is None,
            r is Ok ==> self.key is Some,
            !(r matches Err(ReferenceError::Payload(_))),
    {
        let key = match &self.key {
            Some(k) => k,
            None => return Err(ReferenceError::NoPrivateKey),
        };
        let mut signer = match signer_new_without_digest(key) {
            Some(s) => s,
            None => return Err(ReferenceError::CryptoFailed),
        };
        match signer_sign_oneshot(&mut signer, payload) {
            Some(v) => Ok(v),
            None => Err(ReferenceError::CryptoFailed),
        }
    }

    /// The result the backend should return for `action` on `payload`.
    pub fn compute(&self, action: KeylessAction, payload: &[u8]) -> (r: Result<Vec<u8>, ReferenceError>)
        ensures
            (r == Err::<Vec<u8>, ReferenceError>(ReferenceError::NoPrivateKey)) <==> (needs_private_key(action) && self.key is None
                && payload_digest_fits(action, payload@.len())),
            !payload_digest_fits(action, payload@.len()) ==> r is Err,
            r is Ok ==> payload_digest_fits(action, payload@.len()) && (needs_private_key(action) ==> self.key is Some),
            r matches Err(ReferenceError::Payload(e)) ==> match action {
                KeylessAction::RsaSign(_, _) | KeylessAction::EcdsaSign(_) => Some(e) == payload_fault(action, payload@.len(), KeyInfo { key_type: KeyType::Other, rsa_size: 0 }),
                KeylessAction::Ed25519Sign => false,
                _ => refused_for_some_rsa_key(action, payload@.len(), e),
            },
    {
        match action {
            KeylessAction::RsaPrivateDecrypt(p) => self.rsa_private_decrypt(p, payload),
            KeylessAction::RsaPrivateEncrypt(p) => self.rsa_private_encrypt(p, payload),
            KeylessAction::RsaPublicDecrypt(p) => self.rsa_public_decrypt(p, payload),
            KeylessAction::RsaPublicEncrypt(p) => self.rsa_public_encrypt(p, payload),
            KeylessAction::RsaSign(d, p) => self.pkey_sign_rsa(d, p, payload),
            KeylessAction::EcdsaSign(d) => self.pkey_sign(d, payload),
            KeylessAction::Ed25519Sign => self.pkey_sign_ed(payload),
        }
    }

    fn public_rsa(&self) -> (r: Result<Rsa<Public>, ReferenceError>)
        ensures
            r matches Err(e) ==> e == ReferenceError::NoPublicKey || e == ReferenceError::NotRsaKey,
    {
        match cert_public_key(&self.cert) {
            None => Err(ReferenceError::NoPublicKey),
            Some(k) => match pkey_rsa(&k) {
                Some(rsa) => Ok(rsa),
                None => Err(ReferenceError::NotRsaKey),
            },
        }
    }
}

/// What the size check decides for a payload, an action and an RSA key of
/// `size` bytes: the action's own rule first, then the longest input that
/// OpenSSL takes.
pub open spec fn rsa_payload_check(a: KeylessAction, len: nat, size: u32) -> Result<(), ReferenceError> {
    match payload_fault(a, len, KeyInfo { key_type: KeyType::Rsa, rsa_size: size as usize }) {
        Some(e) => Err(ReferenceError::Payload(e)),
        None => if len > 0x7fff_ffff {
            Err(ReferenceError::PayloadTooLong)
        } else {
            Ok(())
        },
    }
}

/// Checks a payload against an action for an RSA key whose modulus is
/// `size` bytes, as the reference operations do with the size OpenSSL gives
/// for the key.
pub fn check_rsa_payload(a: KeylessAction, payload: &[u8], size: u32) -> (r: Result<(), ReferenceError>)
    ensures
        r == rsa_payload_check(a, payload@.len(), size),
{
    let info = KeyInfo { key_type: KeyType::Rsa, rsa_size: size as usize };
    match a.check_payload(payload, &info) {
        Err(e) => Err(ReferenceError::Payload(e)),
        Ok(()) => {
            if payload.len() > 0x7fff_ffff {
                Err(ReferenceError::PayloadTooLong)
            } else {
                Ok(())
            }
        },
    }
}

} // verus!
