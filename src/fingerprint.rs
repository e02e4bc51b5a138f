use vstd::prelude::*;

use openssl::bn::{BigNumContext, BigNumRef};
use openssl::ec::{EcGroupRef, EcKey, EcPointRef, PointConversionForm};
use openssl::hash::{hash, MessageDigest};
use openssl::pkey::{PKey, Public};
use openssl::rsa::Rsa;

use crate::reference::{cert_public_key, pkey_rsa, KeyMaterial, ReferenceError};

verus! {

#[verifier::external_type_specification]
#[verifier::external_body]
pub struct ExBigNumRef(BigNumRef);

#[verifier::external_type_specification]
#[verifier::external_body]
pub struct ExBigNumContext(BigNumContext);

#[verifier::external_type_specification]
#[verifier::external_body]
#[verifier::reject_recursive_types(T)]
pub struct ExEcKey<T>(EcKey<T>);

#[verifier::external_type_specification]
#[verifier::external_body]
pub struct ExEcGroupRef(EcGroupRef);

#[verifier::external_type_specification]
#[verifier::external_body]
pub struct ExEcPointRef(EcPointRef);

/// The ASCII lowercase hexadecimal digit for a value below sixteen.
pub open spec fn hex_digit(v: int) -> u8 {
    if v < 10 {
        (48 + v) as u8
    } else {
        (87 + v) as u8
    }
}

/// Two lowercase hexadecimal digits per byte, high nibble first.
pub open spec fn hex_lower(b: Seq<u8>) -> Seq<u8>
    decreases b.len(),
{
    if b.len() == 0 {
        Seq::empty()
    } else {
        hex_lower(b.drop_last()) + seq![hex_digit(b.last() as int / 16), hex_digit(b.last() as int % 16)]
    }
}

/// The SHA-256 digest of some bytes.
pub uninterp spec fn sha256_of(data: Seq<u8>) -> Seq<u8>;

/// Relies on hex::encode: two lowercase hexadecimal digits per byte, in
/// order.
#[verifier::external_body]
fn hex_encode(b: &[u8]) -> (r: Vec<u8>)
    ensures
        r@ == hex_lower(b@),
{
    hex::encode(b).into_bytes()
}

/// Relies on openssl::hash::hash with MessageDigest::sha256: the SHA-256
/// digest of the data.
#[verifier::external_body]
fn sha256(data: &[u8]) -> (r: Option<Vec<u8>>)
    ensures
        r matches Some(d) ==> d@ == sha256_of(data@),
{
    hash(MessageDigest::sha256(), data).ok().map(|d| d.to_vec())
}

/// Relies on RsaRef::n: the modulus of the key.
#[verifier::external_body]
fn rsa_modulus(rsa: &Rsa<Public>) -> &BigNumRef {
    rsa.n()
}

/// Relies on BigNumRef::to_hex_str: the number as hexadecimal text.
#[verifier::external_body]
fn bignum_hex(n: &BigNumRef) -> Option<Vec<u8>> {
    n.to_hex_str().ok().map(|s| s.as_bytes().to_vec())
}

/// Relies on PKeyRef::ec_key: the elliptic-curve key inside, if it is one.
#[verifier::external_body]
fn pkey_ec(key: &PKey<Public>) -> Option<EcKey<Public>> {
    key.ec_key().ok()
}

/// Relies on EcKeyRef::group: the curve of the key.
#[verifier::external_body]
fn ec_group(ec: &EcKey<Public>) -> &EcGroupRef {
    ec.group()
}

/// Relies on EcKeyRef::public_key: the public point of the key.
#[verifier::external_body]
fn ec_public_point(ec: &EcKey<Public>) -> &EcPointRef {
    ec.public_key()
}

/// Relies on BigNumContext::new_secure: scratch space for point encoding.
#[verifier::external_body]
fn bignum_context() -> Option<BigNumContext> {
    BigNumContext::new_secure().ok()
}

/// Relies on EcPointRef::to_bytes with PointConversionForm::COMPRESSED: the
/// compressed encoding of the point.
#[verifier::external_body]
fn point_compressed(point: &EcPointRef, group: &EcGroupRef, ctx: &mut BigNumContext) -> Option<Vec<u8>> {
    point.to_bytes(group, PointConversionForm::COMPRESSED, ctx).ok()
}

/// The digest that names an elliptic-curve key: SHA-256 over the lowercase
/// hexadecimal text of its compressed point.
pub fn ec_point_digest(point: &[u8]) -> (r: Option<Vec<u8>>)
    ensures
        r matches Some(d) ==> d@ == sha256_of(hex_lower(point@)),
{
    let text = hex_encode(point);
    sha256(text.as_slice())
}

/// The digest that names an RSA key: SHA-256 over the hexadecimal text of
/// its modulus, as OpenSSL writes it.
pub fn modulus_text_digest(text: &[u8]) -> (r: Option<Vec<u8>>)
    ensures
        r matches Some(d) ==> d@ == sha256_of(text@),
{
    sha256(text)
}

/// What names a public key, as plain bytes: the hexadecimal text of an RSA
/// modulus, the compressed point of an elliptic-curve key, or neither.
pub enum KeyText {
    Rsa(Vec<u8>),
    Ec(Vec<u8>),
    Other,
}

/// The fingerprint of a key: SHA-256 over the modulus text of an RSA key, or
/// over the lowercase hexadecimal text of an elliptic-curve point; other
/// keys have none.
pub fn fingerprint_of(k: &KeyText) -> (r: Result<Vec<u8>, ReferenceError>)
    ensures
        k is Other ==> r == Err::<Vec<u8>, ReferenceError>(ReferenceError::UnsupportedKeyType),
        !(k is Other) ==> (r matches Err(e) ==> e == ReferenceError::CryptoFailed),
        r matches Ok(d) ==> match k {
            KeyText::Rsa(t) => d@ == sha256_of(t@),
            KeyText::Ec(p) => d@ == sha256_of(hex_lower(p@)),
            KeyText::Other => false,
        },
{
    let d = match k {
        KeyText::Rsa(t) => modulus_text_digest(t.as_slice()),
        KeyText::Ec(p) => ec_point_digest(p.as_slice()),
        KeyText::Other => return Err(ReferenceError::UnsupportedKeyType),
    };
    match d {
        Some(d) => Ok(d),
        None => Err(ReferenceError::CryptoFailed),
    }
}

impl KeyMaterial {
    /// What names the certificate's public key: the modulus text of an RSA
    /// key, else the compressed point of an elliptic-curve key.
    fn key_text(&self) -> (r: Result<KeyText, ReferenceError>)
        ensures
            r matches Err(e) ==> e == ReferenceError::NoPublicKey || e == ReferenceError::CryptoFailed,
    {
        let pkey = match cert_public_key(&self.cert) {
            Some(k) => k,
            None => return Err(ReferenceError::NoPublicKey),
        };
        match pkey_rsa(&pkey) {
            Some(rsa) => {
                return match bignum_hex(rsa_modulus(&rsa)) {
                    Some(t) => Ok(KeyText::Rsa(t)),
                    None => Err(ReferenceError::CryptoFailed),
                };
            },
            None => {},
        }
        let ec = match pkey_ec(&pkey) {
            Some(ec) => ec,
            None => return Ok(KeyText::Other),
        };
        let mut ctx = match bignum_context() {
            Some(c) => c,
            None => return Err(ReferenceError::CryptoFailed),
        };
        match point_compressed(ec_public_point(&ec), ec_group(&ec), &mut ctx) {
            Some(p) => Ok(KeyText::Ec(p)),
            None => Err(ReferenceError::CryptoFailed),
        }
    }

    /// The fingerprint a backend selects its private key by: the digest of
    /// the certificate's RSA modulus or elliptic-curve point.
    pub fn public_key_digest(&self) -> (r: Result<Vec<u8>, ReferenceError>)
        ensures
            r matches Err(e) ==> e == ReferenceError::NoPublicKey || e
                == ReferenceError::UnsupportedKeyType || e == ReferenceError::CryptoFailed,
    {
        let text = match self.key_text() {
            Ok(t) => t,
            Err(e) => return Err(e),
        };
        fingerprint_of(&text)
    }
}

} // verus!
