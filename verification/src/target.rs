//! The authority of a request target, as the `hyper` URI parser reads it.
//!
//! `hyper::Uri` is the `Uri` of the `http` crate, which `hyper` hands on. What
//! it finds in a target is not spelled out here: each finding has a name, and
//! the functions below say only that they return the finding of that name.

use vstd::prelude::*;

verus! {

/// The authority component that `hyper::Uri` finds in a request target,
/// written out as text; `None` where the target does not parse or carries no
/// authority.
pub uninterp spec fn uri_authority(target: Seq<char>) -> Option<Seq<char>>;

/// The host that `hyper::Uri` finds in a request target; `None` where the
/// target does not parse or carries no authority.
pub uninterp spec fn uri_host(target: Seq<char>) -> Option<Seq<char>>;

/// The port that `hyper::Uri` finds in a request target; `None` where the
/// target does not parse, carries no authority or names no port.
pub uninterp spec fn uri_port(target: Seq<char>) -> Option<u16>;

/// The view of an optional string.
pub open spec fn text_of(s: Option<String>) -> Option<Seq<char>> {
    match s {
        Some(s) => Some(s@),
        None => None,
    }
}

/// Parses the target as `hyper::Uri` (`Uri::from_str`) and calls
/// `Uri::authority`; a target that does not parse has none. Nothing is claimed
/// of the result but that it is a function of the target's text.
#[verifier::external_body]
fn authority_of(target: &str) -> (authority: Option<String>)
    ensures
        text_of(authority) == uri_authority(target@),
{
    match target.parse::<hyper::Uri>() {
        Ok(uri) => match uri.authority() {
            Some(authority) => Some(authority.as_str().to_string()),
            None => None,
        },
        Err(_) => None,
    }
}

/// Parses the target as `hyper::Uri` (`Uri::from_str`) and calls `Uri::host`;
/// a target that does not parse has none. Nothing is claimed of the result
/// but that it is a function of the target's text.
#[verifier::external_body]
fn host_of(target: &str) -> (host: Option<String>)
    ensures
        text_of(host) == uri_host(target@),
{
    match target.parse::<hyper::Uri>() {
        Ok(uri) => match uri.host() {
            Some(host) => Some(host.to_string()),
            None => None,
        },
        Err(_) => None,
    }
}

/// Parses the target as `hyper::Uri` (`Uri::from_str`) and calls
/// `Uri::port_u16`; a target that does not parse has none. Nothing is claimed
/// of the result but that it is a function of the target's text.
#[verifier::external_body]
fn port_of(target: &str) -> (port: Option<u16>)
    ensures
        port == uri_port(target@),
{
    match target.parse::<hyper::Uri>() {
        Ok(uri) => uri.port_u16(),
        Err(_) => None,
    }
}

/// The port that plain HTTP uses where a target names none.
pub const DEFAULT_PORT: u16 = 80;

/// Where a request wants to go: the authority of its target.
#[derive(Clone, Debug, PartialEq, Eq)]
pub struct Authority {
    /// The authority as written in the target, `host[:port]`.
    pub text: String,
    /// The host alone.
    pub host: String,
    /// The port, where the target names one.
    pub port: Option<u16>,
}

/// An authority as plain values.
pub struct AuthorityView {
    pub text: Seq<char>,
    pub host: Seq<char>,
    pub port: Option<u16>,
}

impl View for Authority {
    type V = AuthorityView;

    open spec fn view(&self) -> AuthorityView {
        AuthorityView { text: self.text@, host: self.host@, port: self.port }
    }
}

/// The view of an optional authority.
pub open spec fn authority_view(a: Option<Authority>) -> Option<AuthorityView> {
    match a {
        Some(a) => Some(a@),
        None => None,
    }
}

/// An authority put together from its parts; there is none without both a
/// text and a host.
pub open spec fn assembled(
    text: Option<Seq<char>>,
    host: Option<Seq<char>>,
    port: Option<u16>,
) -> Option<AuthorityView> {
    match (text, host) {
        (Some(text), Some(host)) => Some(AuthorityView { text, host, port }),
        _ => None,
    }
}

/// The authority of a target, as `hyper` reads it.
pub open spec fn resolved(target: Seq<char>) -> Option<AuthorityView> {
    assembled(uri_authority(target), uri_host(target), uri_port(target))
}

/// The port to dial: the one named, or `DEFAULT_PORT`.
pub open spec fn port_or_default(port: Option<u16>) -> u16 {
    match port {
        Some(p) => p,
        None => DEFAULT_PORT,
    }
}

impl Authority {
    /// Puts an authority together from what a URI parser found.
    pub fn assemble(text: Option<String>, host: Option<String>, port: Option<u16>) -> (a: Option<
        Authority,
    >)
        ensures
            authority_view(a) == assembled(text_of(text), text_of(host), port),
    {
        match (text, host) {
            (Some(text), Some(host)) => Some(Authority { text, host, port }),
            _ => None,
        }
    }

    /// Reads the authority of a request target with the `hyper` URI parser.
    pub fn resolve(target: &str) -> (a: Option<Authority>)
        ensures
            authority_view(a) == resolved(target@),
    {
        Authority::assemble(authority_of(target), host_of(target), port_of(target))
    }

    /// The port to dial.
    pub fn dial_port(&self) -> (p: u16)
        ensures
            p == port_or_default(self.port),
    {
        match self.port {
            Some(p) => p,
            None => DEFAULT_PORT,
        }
    }
}

} // verus!
