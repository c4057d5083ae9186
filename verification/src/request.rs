//! One client request as the proxy sees it.

use crate::target::{authority_view, resolved, Authority, AuthorityView};
use crate::text::{eq_ignore_case, same, same_ignoring_case};
use vstd::prelude::*;

verus! {

/// A header line: its name as the client wrote it, and its value.
#[derive(Clone, Debug, PartialEq, Eq)]
pub struct Header {
    pub name: String,
    pub value: Vec<u8>,
}

/// A header line as plain values.
pub struct HeaderView {
    pub name: Seq<char>,
    pub value: Seq<u8>,
}

impl View for Header {
    type V = HeaderView;

    open spec fn view(&self) -> HeaderView {
        HeaderView { name: self.name@, value: self.value@ }
    }
}

/// Header lines as plain values, in their order.
pub open spec fn headers_view(headers: Seq<Header>) -> Seq<HeaderView> {
    headers.map_values(|h: Header| h@)
}

/// The name of the header by which a client signals that it talks to a proxy.
pub open spec fn proxy_header() -> Seq<char> {
    "proxy-connection"@
}

/// The method of a request that asks for a resource.
pub open spec fn get_method() -> Seq<char> {
    "GET"@
}

/// The method of a request that asks for a tunnel.
pub open spec fn connect_method() -> Seq<char> {
    "CONNECT"@
}

/// Whether some header line has the given name, up to the case of ASCII
/// letters. Its value plays no part.
pub open spec fn names_header(headers: Seq<HeaderView>, name: Seq<char>) -> bool {
    exists|i: int| 0 <= i < headers.len() && same_ignoring_case(#[trigger] headers[i].name, name)
}

/// Whether some header line has the given name, up to the case of ASCII
/// letters.
pub fn has_header(headers: &Vec<Header>, name: &str) -> (found: bool)
    ensures
        found == names_header(headers_view(headers@), name@),
{
    let ghost hs = headers_view(headers@);
    let mut i: usize = 0;
    while i < headers.len()
        invariant
            i <= headers@.len(),
            hs == headers_view(headers@),
            forall|j: int| 0 <= j < i ==> !same_ignoring_case(#[trigger] hs[j].name, name@),
        decreases headers@.len() - i,
    {
        if eq_ignore_case(headers[i].name.as_str(), name) {
            assert(same_ignoring_case(hs[i as int].name, name@));
            return true;
        }
        i += 1;
    }
    false
}

/// A request read from a client connection.
#[derive(Clone, Debug, PartialEq, Eq)]
pub struct InboundRequest {
    /// The method token of the request line.
    pub method: String,
    /// The target of the request line, as the client wrote it.
    pub target: String,
    /// The authority that the target names, if it names one.
    pub authority: Option<Authority>,
    /// The header lines, in the order received.
    pub headers: Vec<Header>,
    /// The network address of the client.
    pub client: String,
}

/// A request as plain values.
pub struct RequestView {
    pub method: Seq<char>,
    pub target: Seq<char>,
    pub authority: Option<AuthorityView>,
    pub headers: Seq<HeaderView>,
    pub client: Seq<char>,
}

impl View for InboundRequest {
    type V = RequestView;

    open spec fn view(&self) -> RequestView {
        RequestView {
            method: self.method@,
            target: self.target@,
            authority: authority_view(self.authority),
            headers: headers_view(self.headers@),
            client: self.client@,
        }
    }
}

impl RequestView {
    /// The request carries the proxy-signaling header.
    pub open spec fn signals_proxy(self) -> bool {
        names_header(self.headers, proxy_header())
    }

    /// The request asks for a resource.
    pub open spec fn is_get(self) -> bool {
        self.method == get_method()
    }

    /// The request asks for a tunnel.
    pub open spec fn is_connect(self) -> bool {
        self.method == connect_method()
    }
}

impl InboundRequest {
    /// The request made of a request line's method and target, the header
    /// lines and the client's address. The target is read with the `hyper`
    /// URI parser.
    pub fn new(method: &str, target: &str, headers: Vec<Header>, client: &str) -> (req:
        InboundRequest)
        ensures
            req@ == (RequestView {
                method: method@,
                target: target@,
                authority: resolved(target@),
                headers: headers_view(headers@),
                client: client@,
            }),
    {
        InboundRequest {
            method: method.to_owned(),
            target: target.to_owned(),
            authority: Authority::resolve(target),
            headers,
            client: client.to_owned(),
        }
    }

    /// Whether the request carries the proxy-signaling header.
    pub fn signals_proxy(&self) -> (b: bool)
        ensures
            b == self@.signals_proxy(),
    {
        has_header(&self.headers, "proxy-connection")
    }

    /// Whether the method is `GET`.
    pub fn is_get(&self) -> (b: bool)
        ensures
            b == self@.is_get(),
    {
        same(self.method.as_str(), "GET")
    }

    /// Whether the method is `CONNECT`.
    pub fn is_connect(&self) -> (b: bool)
        ensures
            b == self@.is_connect(),
    {
        same(self.method.as_str(), "CONNECT")
    }
}

} // verus!
