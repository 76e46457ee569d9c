//! Startup configuration decisions: which address the gateway listens on and
//! which backend address it forwards to. Reading the environment and the
//! machine's own addresses is plumbing outside this library; the fallback
//! rules are decided here.

use vstd::prelude::*;
use vstd::string::StringExecFns;

verus! {

/// The port the gateway falls back to when no address is configured.
pub open spec fn fallback_port() -> Seq<char> {
    ":7878"@
}

/// The listen address: a configured address wins; otherwise the machine's
/// detected local address with the fallback port appended; otherwise the
/// loopback address with that port.
pub open spec fn spec_listen_address(
    configured: Option<Seq<char>>,
    detected: Option<Seq<char>>,
) -> Seq<char> {
    match configured {
        Some(address) => address,
        None => match detected {
            Some(ip) => ip + fallback_port(),
            None => "127.0.0.1"@ + fallback_port(),
        },
    }
}

/// Resolves the listen address from the configured value and the detected
/// local address, applying the fallback rules.
pub fn resolve_listen_address(configured: Option<String>, detected: Option<String>) -> (address:
    String)
    ensures
        address@ == spec_listen_address(configured.deep_view(), detected.deep_view()),
{
    match configured {
        Some(address) => address,
        None => match detected {
            Some(ip) => ip.concat(":7878"),
            None => {
                let loopback: String = "127.0.0.1".to_owned();
                loopback.concat(":7878")
            },
        },
    }
}

/// The backend address is mandatory: without it the gateway cannot start,
/// and the startup error names what is missing.
pub open spec fn spec_backend_address(configured: Option<Seq<char>>) -> Result<
    Seq<char>,
    Seq<char>,
> {
    match configured {
        Some(address) => Ok(address),
        None => Err("Middleware Host not found"@),
    }
}

/// Resolves the backend address, failing with the startup error message when
/// none is configured.
pub fn resolve_backend_address(configured: Option<String>) -> (result: Result<String, String>)
    ensures
        (match result {
            Ok(address) => spec_backend_address(configured.deep_view()) == Ok::<
                Seq<char>,
                Seq<char>,
            >(address@),
            Err(message) => spec_backend_address(configured.deep_view()) == Err::<
                Seq<char>,
                Seq<char>,
            >(message@),
        }),
{
    match configured {
        Some(address) => Ok(address),
        None => Err("Middleware Host not found".to_owned()),
    }
}

} // verus!
