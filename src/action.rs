use vstd::prelude::*;

verus! {

/// RSA padding scheme applied around the raw modular operation.
#[derive(Clone, Copy, Debug, PartialEq, Eq, Structural)]
pub enum KeylessRsaPadding {
    Pkcs1,
    Oaep,
    Pss,
    X931,
    Raw,
}

/// Digest whose output a sign request carries as its (pre-hashed) payload.
#[derive(Clone, Copy, Debug, PartialEq, Eq, Structural)]
pub enum KeylessSignDigest {
    Md5Sha1,
    Sha1,
    Sha224,
    Sha256,
    Sha384,
    Sha512,
}

/// A private-key (or public-key) operation that a backend performs.
#[derive(Clone, Copy, Debug, PartialEq, Eq, Structural)]
pub enum KeylessAction {
    RsaPrivateDecrypt(KeylessRsaPadding),
    RsaPrivateEncrypt(KeylessRsaPadding),
    RsaPublicDecrypt(KeylessRsaPadding),
    RsaPublicEncrypt(KeylessRsaPadding),
    RsaSign(KeylessSignDigest, KeylessRsaPadding),
    EcdsaSign(KeylessSignDigest),
    Ed25519Sign,
}

/// Output size in bytes of each digest.
pub open spec fn digest_len(d: KeylessSignDigest) -> nat {
    match d {
        KeylessSignDigest::Md5Sha1 => 36,
        KeylessSignDigest::Sha1 => 20,
        KeylessSignDigest::Sha224 => 28,
        KeylessSignDigest::Sha256 => 32,
        KeylessSignDigest::Sha384 => 48,
        KeylessSignDigest::Sha512 => 64,
    }
}

impl KeylessSignDigest {
    pub fn size(&self) -> (r: usize)
        ensures
            r == digest_len(*self),
    {
        match self {
            KeylessSignDigest::Md5Sha1 => 36,
            KeylessSignDigest::Sha1 => 20,
            KeylessSignDigest::Sha224 => 28,
            KeylessSignDigest::Sha256 => 32,
            KeylessSignDigest::Sha384 => 48,
            KeylessSignDigest::Sha512 => 64,
        }
    }
}

/// The kind of key that the certificate carries, as far as request
/// construction needs it.
#[derive(Clone, Copy, Debug, PartialEq, Eq, Structural)]
pub enum KeyType {
    Rsa,
    Ec,
    Ed25519,
    Other,
}

/// The public facts of the key that requests are built against.
#[derive(Clone, Copy, Debug, PartialEq, Eq, Structural)]
pub struct KeyInfo {
    pub key_type: KeyType,
    /// RSA modulus size in bytes; meaningful only for RSA keys.
    pub rsa_size: usize,
}

/// The operation chosen by the user before the key type refines it.
#[derive(Clone, Copy, Debug, PartialEq, Eq, Structural)]
pub enum ActionKind {
    RsaPrivateDecrypt,
    RsaPrivateEncrypt,
    RsaPublicDecrypt,
    RsaPublicEncrypt,
    Sign,
}

/// Errors found before anything is sent.
#[derive(Clone, Copy, Debug, PartialEq, Eq, Structural)]
pub enum ConstructionError {
    UnsupportedKeyType,
    NotRsaKey,
    PayloadDigestMismatch { payload: usize, digest: usize },
    PayloadModulusMismatch { payload: usize, modulus: usize },
    PayloadTooLarge { payload: usize, modulus: usize },
}

/// The digest a sign action pre-hashes with, if it has one.
pub open spec fn action_digest(a: KeylessAction) -> Option<KeylessSignDigest> {
    match a {
        KeylessAction::RsaSign(d, _) => Some(d),
        KeylessAction::EcdsaSign(d) => Some(d),
        _ => None,
    }
}

/// The padding an action carries, if it has one.
pub open spec fn action_padding(a: KeylessAction) -> Option<KeylessRsaPadding> {
    match a {
        KeylessAction::RsaPrivateDecrypt(p) => Some(p),
        KeylessAction::RsaPrivateEncrypt(p) => Some(p),
        KeylessAction::RsaPublicDecrypt(p) => Some(p),
        KeylessAction::RsaPublicEncrypt(p) => Some(p),
        KeylessAction::RsaSign(_, p) => Some(p),
        _ => None,
    }
}

/// The action that a chosen operation becomes for a key, or why none can.
pub open spec fn select_spec(
    kind: ActionKind,
    padding: KeylessRsaPadding,
    digest: KeylessSignDigest,
    key_type: KeyType,
    payload_len: nat,
) -> Result<KeylessAction, ConstructionError> {
    match kind {
        ActionKind::RsaPrivateDecrypt => Ok(KeylessAction::RsaPrivateDecrypt(padding)),
        ActionKind::RsaPrivateEncrypt => Ok(KeylessAction::RsaPrivateEncrypt(padding)),
        ActionKind::RsaPublicDecrypt => Ok(KeylessAction::RsaPublicDecrypt(padding)),
        ActionKind::RsaPublicEncrypt => Ok(KeylessAction::RsaPublicEncrypt(padding)),
        ActionKind::Sign => match key_type {
            KeyType::Rsa => if payload_len == digest_len(digest) {
                Ok(KeylessAction::RsaSign(digest, padding))
            } else {
                Err(
                    ConstructionError::PayloadDigestMismatch {
                        payload: payload_len as usize,
                        digest: digest_len(digest) as usize,
                    },
                )
            },
            KeyType::Ec => if payload_len == digest_len(digest) {
                Ok(KeylessAction::EcdsaSign(digest))
            } else {
                Err(
                    ConstructionError::PayloadDigestMismatch {
                        payload: payload_len as usize,
                        digest: digest_len(digest) as usize,
                    },
                )
            },
            KeyType::Ed25519 => Ok(KeylessAction::Ed25519Sign),
            KeyType::Other => Err(ConstructionError::UnsupportedKeyType),
        },
    }
}

/// Why a payload cannot be sent with an action against a key, if it cannot.
pub open spec fn payload_fault(a: KeylessAction, len: nat, key: KeyInfo) -> Option<ConstructionError> {
    match a {
        KeylessAction::RsaPrivateDecrypt(_) | KeylessAction::RsaPublicDecrypt(_) => {
            if key.key_type != KeyType::Rsa {
                Some(ConstructionError::NotRsaKey)
            } else if len != key.rsa_size {
                Some(
                    ConstructionError::PayloadModulusMismatch {
                        payload: len as usize,
                        modulus: key.rsa_size,
                    },
                )
            } else {
                None
            }
        },
        KeylessAction::RsaPrivateEncrypt(_) | KeylessAction::RsaPublicEncrypt(_) => {
            if key.key_type != KeyType::Rsa {
                Some(ConstructionError::NotRsaKey)
            } else if len > key.rsa_size {
                Some(ConstructionError::PayloadTooLarge { payload: len as usize, modulus: key.rsa_size })
            } else {
                None
            }
        },
        KeylessAction::RsaSign(d, _) | KeylessAction::EcdsaSign(d) => {
            if len != digest_len(d) {
                Some(
                    ConstructionError::PayloadDigestMismatch {
                        payload: len as usize,
                        digest: digest_len(d) as usize,
                    },
                )
            } else {
                None
            }
        },
        KeylessAction::Ed25519Sign => None,
    }
}

impl KeylessSignDigest {
    /// Checks that a pre-hashed payload has this digest's output size.
    pub fn check_payload(&self, payload: &[u8]) -> (r: Result<(), ConstructionError>)
        ensures
            r is Ok <==> payload@.len() == digest_len(*self),
            r is Err ==> r == Err::<(), ConstructionError>(
                ConstructionError::PayloadDigestMismatch {
                    payload: payload@.len() as usize,
                    digest: digest_len(*self) as usize,
                },
            ),
    {
        let size = self.size();
        if size != payload.len() {
            Err(ConstructionError::PayloadDigestMismatch { payload: payload.len(), digest: size })
        } else {
            Ok(())
        }
    }
}

impl KeylessAction {
    /// Turns the operation chosen by the user into an action for a key of the
    /// given type; a sign action on RSA or EC keys needs a payload of the
    /// digest's size.
    pub fn select(
        kind: ActionKind,
        padding: KeylessRsaPadding,
        digest: KeylessSignDigest,
        key_type: KeyType,
        payload: &[u8],
    ) -> (r: Result<KeylessAction, ConstructionError>)
        ensures
            r == select_spec(kind, padding, digest, key_type, payload@.len()),
    {
        match kind {
            ActionKind::RsaPrivateDecrypt => Ok(KeylessAction::RsaPrivateDecrypt(padding)),
            ActionKind::RsaPrivateEncrypt => Ok(KeylessAction::RsaPrivateEncrypt(padding)),
            ActionKind::RsaPublicDecrypt => Ok(KeylessAction::RsaPublicDecrypt(padding)),
            ActionKind::RsaPublicEncrypt => Ok(KeylessAction::RsaPublicEncrypt(padding)),
            ActionKind::Sign => match key_type {
                KeyType::Rsa => {
                    match digest.check_payload(payload) {
                        Ok(()) => Ok(KeylessAction::RsaSign(digest, padding)),
                        Err(e) => Err(e),
                    }
                },
                KeyType::Ec => {
                    match digest.check_payload(payload) {
                        Ok(()) => Ok(KeylessAction::EcdsaSign(digest)),
                        Err(e) => Err(e),
                    }
                },
                KeyType::Ed25519 => Ok(KeylessAction::Ed25519Sign),
                KeyType::Other => Err(ConstructionError::UnsupportedKeyType),
            },
        }
    }

    /// Whether a payload may be sent with this action against a key.
    pub fn check_payload(&self, payload: &[u8], key: &KeyInfo) -> (r: Result<(), ConstructionError>)
        ensures
            r is Ok <==> payload_fault(*self, payload@.len(), *key) is None,
            r is Err ==> r == Err::<(), ConstructionError>(
                payload_fault(*self, payload@.len(), *key)->Some_0,
            ),
    {
        match self {
            KeylessAction::RsaPrivateDecrypt(_) | KeylessAction::RsaPublicDecrypt(_) => {
                if key.key_type != KeyType::Rsa {
                    Err(ConstructionError::NotRsaKey)
                } else if payload.len() != key.rsa_size {
                    Err(
                        ConstructionError::PayloadModulusMismatch {
                            payload: payload.len(),
                            modulus: key.rsa_size,
                        },
                    )
                } else {
                    Ok(())
                }
            },
            KeylessAction::RsaPrivateEncrypt(_) | KeylessAction::RsaPublicEncrypt(_) => {
                if key.key_type != KeyType::Rsa {
                    Err(ConstructionError::NotRsaKey)
                } else if payload.len() > key.rsa_size {
                    Err(ConstructionError::PayloadTooLarge { payload: payload.len(), modulus: key.rsa_size })
                } else {
                    Ok(())
                }
            },
            KeylessAction::RsaSign(d, _) | KeylessAction::EcdsaSign(d) => d.check_payload(payload),
            KeylessAction::Ed25519Sign => Ok(()),
        }
    }
}

/// An immutable request: an action and the payload it applies to.
pub struct KeylessRequest {
    pub action: KeylessAction,
    pub payload: Vec<u8>,
}

impl KeylessRequest {
    /// Builds a request, refusing payloads that do not fit the action and key.
    pub fn new(action: KeylessAction, payload: Vec<u8>, key: &KeyInfo) -> (r: Result<
        KeylessRequest,
        ConstructionError,
    >)
        ensures
            r is Ok <==> payload_fault(action, payload@.len(), *key) is None,
            r matches Ok(q) ==> q.action == action && q.payload@ == payload@,
            r matches Err(e) ==> Some(e) == payload_fault(action, payload@.len(), *key),
    {
        match action.check_payload(payload.as_slice(), key) {
            Ok(()) => Ok(KeylessRequest { action, payload }),
            Err(e) => Err(e),
        }
    }
}

} // verus!
