//! Where the server listens.

use vstd::prelude::*;
use vstd::string::StringExecFns;

verus! {

/// The host that is listened on where none is configured: `127.0.0.1`.
pub open spec fn default_host() -> Seq<char> {
    "127.0.0.1"@
}

/// The port that is listened on where none is configured: `8080`.
pub open spec fn default_port() -> Seq<char> {
    "8080"@
}

/// The address for `host` and `port`: the two with a colon between them, each
/// replaced by its default where it is not configured.
pub open spec fn address(host: Option<Seq<char>>, port: Option<Seq<char>>) -> Seq<char> {
    let host = match host {
        Some(host) => host,
        None => default_host(),
    };
    let port = match port {
        Some(port) => port,
        None => default_port(),
    };
    host + ":"@ + port
}

/// A configured value as plain text.
pub open spec fn text_of(value: Option<String>) -> Option<Seq<char>> {
    match value {
        Some(text) => Some(text@),
        None => None,
    }
}

/// The address to listen on, from the configured host and port. Neither is
/// inspected: what is configured is taken as it is.
pub fn server_addr(host: Option<String>, port: Option<String>) -> (addr: String)
    ensures
        addr@ == address(text_of(host), text_of(port)),
{
    let mut addr = match host {
        Some(host) => host,
        None => String::from_str("127.0.0.1"),
    };
    addr.append(":");
    match port {
        Some(port) => addr.append(port.as_str()),
        None => addr.append("8080"),
    }
    addr
}

} // verus!
