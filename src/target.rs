use vstd::prelude::*;

verus! {

/// The server name a TLS handshake presents: an explicit override takes
/// precedence over the target's own host name.
pub fn tls_server_name<'a>(override_name: Option<&'a str>, host: &'a str) -> (r: &'a str)
    ensures
        r@ == match override_name {
            Some(n) => n@,
            None => host@,
        },
{
    match override_name {
        Some(n) => n,
        None => host,
    }
}

} // verus!
