//! Server configuration. The values come from the environment; reading it
//! is the serving layer's job.

use vstd::prelude::*;
use crate::text::{chars_of, has_prefix, starts_with, string_from_range};

verus! {

/// Where to listen: a unix socket path for a same-host reverse proxy, or a
/// TCP address when the proxy runs on another host.
pub enum BindAddr {
    Unix(String),
    Tcp(String),
}

/// The settings the server runs with.
pub struct Config {
    /// Path to the SQLite database file.
    pub database_path: String,
    /// WebAuthn relying party id: the registrable domain.
    pub rp_id: String,
    /// WebAuthn relying party origin, e.g. `https://example.com`.
    pub rp_origin: String,
    /// IndieAuth issuer identifier, published in metadata and sent as `iss`.
    pub issuer: String,
    /// The profile URL ("me") asserted on successful sign-in.
    pub owner_me: String,
    /// Display name for the `profile` scope, if set.
    pub owner_name: Option<String>,
    /// Photo URL for the `profile` scope, if set.
    pub owner_photo_url: Option<String>,
    /// Where to listen.
    pub bind_addr: BindAddr,
    /// One-time secret for registering the very first passkey.
    pub bootstrap_secret: Option<String>,
}

pub const UNIX_PREFIX: &'static str = "unix:";

/// `BIND_ADDR` read as an address: a `unix:` prefix selects a socket path
/// (the rest of the text), anything else is a TCP address as given.
pub open spec fn spec_bind_addr(raw: Seq<char>) -> (bool, Seq<char>) {
    if has_prefix(raw, UNIX_PREFIX@) {
        (true, raw.skip(UNIX_PREFIX@.len() as int))
    } else {
        (false, raw)
    }
}

impl BindAddr {
    /// Whether this is a socket path, and the path or address text.
    pub open spec fn view(&self) -> (bool, Seq<char>) {
        match self {
            BindAddr::Unix(p) => (true, p@),
            BindAddr::Tcp(a) => (false, a@),
        }
    }
}

/// Reads `BIND_ADDR`.
pub fn parse_bind_addr(raw: String) -> (r: BindAddr)
    ensures
        r.view() == spec_bind_addr(raw@),
{
    let v = chars_of(raw.as_str());
    if starts_with(&v, UNIX_PREFIX) {
        let p = chars_of(UNIX_PREFIX);
        BindAddr::Unix(string_from_range(&v, p.len(), v.len()))
    } else {
        BindAddr::Tcp(raw)
    }
}

} // verus!
