use vstd::prelude::*;

use openssl::pkey::{PKey, Private};
use openssl::x509::X509;

verus! {

/// The certificate authority a certificate-generating backend signs with.
pub struct OpensslBackendConfig {
    pub ca_cert: X509,
    pub ca_key: PKey<Private>,
}

/// One entry of a backend configuration map, with its key already
/// recognised and its value already parsed.
pub enum BackendConfigEntry {
    CaCertificate(X509),
    CaPrivateKey(PKey<Private>),
    /// A key that the backend does not know.
    Unknown,
}

#[derive(Clone, Copy, Debug, PartialEq, Eq, Structural)]
pub enum BackendConfigError {
    /// Entry at this index has an unknown key.
    InvalidKey(usize),
    NoCaCertificate,
    NoCaPrivateKey,
    /// The configuration was already set.
    Duplicate,
}

pub open spec fn first_unknown(entries: Seq<BackendConfigEntry>) -> Option<int>
    decreases entries.len(),
{
    if entries.len() == 0 {
        None
    } else if entries[0] is Unknown {
        Some(0)
    } else {
        match first_unknown(entries.drop_first()) {
            Some(i) => Some(i + 1),
            None => None,
        }
    }
}

/// The certificate of the last certificate entry, if any.
pub open spec fn last_cert(entries: Seq<BackendConfigEntry>) -> Option<X509>
    decreases entries.len(),
{
    if entries.len() == 0 {
        None
    } else {
        match entries.last() {
            BackendConfigEntry::CaCertificate(c) => Some(c),
            _ => last_cert(entries.drop_last()),
        }
    }
}

/// The key of the last private-key entry, if any.
pub open spec fn last_key(entries: Seq<BackendConfigEntry>) -> Option<PKey<Private>>
    decreases entries.len(),
{
    if entries.len() == 0 {
        None
    } else {
        match entries.last() {
            BackendConfigEntry::CaPrivateKey(k) => Some(k),
            _ => last_key(entries.drop_last()),
        }
    }
}

/// The outcome of assembling entries: the first unknown key is refused, then
/// both the certificate and the key must be present (a later entry of a
/// kind replaces an earlier one).
pub open spec fn assemble_error(entries: Seq<BackendConfigEntry>) -> Option<BackendConfigError> {
    match first_unknown(entries) {
        Some(i) => Some(BackendConfigError::InvalidKey(i as usize)),
        None => if last_cert(entries) is None {
            Some(BackendConfigError::NoCaCertificate)
        } else if last_key(entries) is None {
            Some(BackendConfigError::NoCaPrivateKey)
        } else {
            None
        },
    }
}

proof fn lemma_first_unknown_at(entries: Seq<BackendConfigEntry>, i: int)
    requires
        0 <= i < entries.len(),
        entries[i] is Unknown,
        forall|j: int| 0 <= j < i ==> !(#[trigger] entries[j] is Unknown),
    ensures
        first_unknown(entries) == Some(i),
    decreases i,
{
    if i > 0 {
        let rest = entries.drop_first();
        assert(rest[i - 1] == entries[i]);
        assert forall|j: int| 0 <= j < i - 1 implies !(#[trigger] rest[j] is Unknown) by {
            assert(rest[j] == entries[j + 1]);
        }
        lemma_first_unknown_at(rest, i - 1);
    }
}

proof fn lemma_no_unknown(entries: Seq<BackendConfigEntry>)
    requires
        forall|j: int| 0 <= j < entries.len() ==> !(#[trigger] entries[j] is Unknown),
    ensures
        first_unknown(entries) is None,
    decreases entries.len(),
{
    if entries.len() > 0 {
        let rest = entries.drop_first();
        assert forall|j: int| 0 <= j < rest.len() implies !(#[trigger] rest[j] is Unknown) by {
            assert(rest[j] == entries[j + 1]);
        }
        lemma_no_unknown(rest);
    }
}

/// Builds the configuration from its entries.
pub fn assemble_backend_config(entries: Vec<BackendConfigEntry>) -> (r: Result<OpensslBackendConfig, BackendConfigError>)
    ensures
        r is Ok <==> assemble_error(entries@) is None,
        r matches Err(e) ==> Some(e) == assemble_error(entries@),
        r matches Ok(c) ==> Some(c.ca_cert) == last_cert(entries@) && Some(c.ca_key) == last_key(
            entries@,
        ),
{
    let ghost all = entries@;
    let mut ca_cert: Option<X509> = None;
    let mut ca_key: Option<PKey<Private>> = None;
    let mut rest = entries;
    let mut i: usize = 0;
    let n = rest.len();
    while i < n
        invariant
            all == entries@,
            n == all.len(),
            rest@.len() + i == n,
            rest@ == all.subrange(i as int, n as int),
            forall|j: int| 0 <= j < i ==> !(#[trigger] all[j] is Unknown),
            ca_cert == last_cert(all.subrange(0, i as int)),
            ca_key == last_key(all.subrange(0, i as int)),
        decreases n - i,
    {
        let e = rest.remove(0);
        assert(e == all[i as int]);
        assert(rest@ =~= all.subrange(i + 1, n as int));
        assert(all.subrange(0, i + 1).drop_last() =~= all.subrange(0, i as int));
        match e {
            BackendConfigEntry::CaCertificate(c) => {
                ca_cert = Some(c);
            },
            BackendConfigEntry::CaPrivateKey(k) => {
                ca_key = Some(k);
            },
            BackendConfigEntry::Unknown => {
                proof {
                    lemma_first_unknown_at(all, i as int);
                }
                return Err(BackendConfigError::InvalidKey(i));
            },
        }
        i = i + 1;
    }
    proof {
        lemma_no_unknown(all);
        assert(all.subrange(0, n as int) =~= all);
    }
    let ca_cert = match ca_cert {
        Some(c) => c,
        None => return Err(BackendConfigError::NoCaCertificate),
    };
    let ca_key = match ca_key {
        Some(k) => k,
        None => return Err(BackendConfigError::NoCaPrivateKey),
    };
    Ok(OpensslBackendConfig { ca_cert, ca_key })
}

/// A configuration that is set once and then only read: an explicitly owned
/// replacement for a process-wide cell.
pub struct BackendConfigSlot {
    config: Option<OpensslBackendConfig>,
}

impl BackendConfigSlot {
    pub closed spec fn is_set(&self) -> bool {
        self.config is Some
    }

    /// The configuration stored, if any.
    pub closed spec fn stored(&self) -> Option<OpensslBackendConfig> {
        self.config
    }

    pub fn new() -> (r: Self)
        ensures
            !r.is_set(),
            r.stored() is None,
    {
        BackendConfigSlot { config: None }
    }

    /// Stores the configuration; a second call is refused and leaves the
    /// first in place.
    pub fn set(&mut self, config: OpensslBackendConfig) -> (r: Result<(), BackendConfigError>)
        ensures
            final(self).is_set(),
            !old(self).is_set() <==> r is Ok,
            r is Ok ==> final(self).stored() == Some(config),
            final(self).is_set() == final(self).stored() is Some,
            r is Err ==> r == Err::<(), BackendConfigError>(BackendConfigError::Duplicate)
                && *final(self) == *old(self),
    {
        if self.config.is_some() {
            return Err(BackendConfigError::Duplicate);
        }
        self.config = Some(config);
        Ok(())
    }

    pub fn get(&self) -> (r: Option<&OpensslBackendConfig>)
        ensures
            r is Some <==> self.is_set(),
            r matches Some(c) ==> self.stored() == Some(*c),
    {
        self.config.as_ref()
    }
}

} // verus!
