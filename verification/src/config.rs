//! Where the server listens.

use vstd::prelude::*;

verus! {

/// The address the server binds to: the configured domain (else
/// `localhost`), a colon, and the configured port (else `8080`).
pub fn get_server_url(domain: Option<String>, port: Option<String>) -> (r: String)
    ensures
        r@ == match domain {
            Some(d) => d@,
            None => "localhost"@,
        } + ":"@ + match port {
            Some(p) => p@,
            None => "8080"@,
        },
{
    let port = match port {
        Some(p) => p,
        None => String::from_str("8080"),
    };
    let domain = match domain {
        Some(d) => d,
        None => String::from_str("localhost"),
    };
    domain.concat(":").concat(port.as_str())
}

} // verus!
