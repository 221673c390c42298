use vstd::prelude::*;

verus! {

/// The most connections the pool keeps open at once.
pub const MAX_CONNECTIONS: u32 = 5;

/// The port text used when none is configured.
pub open spec fn port_or_default(port: Option<String>) -> Seq<char> {
    match port {
        Some(p) => p@,
        None => "8000"@,
    }
}

/// The address the listener binds: every interface, on the configured port.
pub open spec fn listen_address_of(port: Option<String>) -> Seq<char> {
    "0.0.0.0:"@ + port_or_default(port)
}

/// Builds the listener address from the optional `PORT` setting.
pub fn listen_address(port: Option<String>) -> (r: String)
    ensures
        r@ == listen_address_of(port),
{
    let mut addr = String::from_str("0.0.0.0:");
    match port {
        Some(p) => addr.append(p.as_str()),
        None => addr.append("8000"),
    }
    addr
}

} // verus!
