use vstd::prelude::*;

verus! {

/// The gateway's settings: where it listens, which backend it relays to,
/// and the scheme written into the public links it hands out.
#[derive(Debug)]
pub struct Config {
    pub host: String,
    pub port: u16,
    pub seafile_server: String,
    pub return_protocol: String,
}

} // verus!
