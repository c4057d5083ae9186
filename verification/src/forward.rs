//! The forwarding engine: what is sent upstream for a `GET` request, and
//! what goes back to the client.

use crate::request::{headers_view, Header, HeaderView, InboundRequest, RequestView};
use crate::response::{bad_gateway, status_only, Response, ResponseView, BAD_GATEWAY};
use crate::target::port_or_default;
use vstd::prelude::*;

verus! {

/// One exchange with the origin server: where to connect, and the request to
/// replay there. Each is carried out on a connection of its own.
#[derive(Clone, Debug, PartialEq, Eq)]
pub struct UpstreamRequest {
    /// The host to connect to.
    pub host: String,
    /// The port to connect to.
    pub port: u16,
    /// The method of the request line.
    pub method: String,
    /// The target of the request line.
    pub target: String,
    /// The header lines.
    pub headers: Vec<Header>,
}

/// An upstream exchange as plain values.
pub struct UpstreamRequestView {
    pub host: Seq<char>,
    pub port: u16,
    pub method: Seq<char>,
    pub target: Seq<char>,
    pub headers: Seq<HeaderView>,
}

impl View for UpstreamRequest {
    type V = UpstreamRequestView;

    open spec fn view(&self) -> UpstreamRequestView {
        UpstreamRequestView {
            host: self.host@,
            port: self.port,
            method: self.method@,
            target: self.target@,
            headers: headers_view(self.headers@),
        }
    }
}

/// The view of an optional upstream exchange.
pub open spec fn upstream_view(plan: Option<UpstreamRequest>) -> Option<UpstreamRequestView> {
    match plan {
        Some(p) => Some(p@),
        None => None,
    }
}

/// The exchange that forwards a request: it goes to the host of the target's
/// authority, on the port named there or else the default one, and replays
/// the request line and the header lines as the client sent them. A request
/// whose target names no authority cannot be forwarded.
pub open spec fn forward_plan(req: RequestView) -> Option<UpstreamRequestView> {
    match req.authority {
        Some(a) => Some(
            UpstreamRequestView {
                host: a.host,
                port: port_or_default(a.port),
                method: req.method,
                target: req.target,
                headers: req.headers,
            },
        ),
        None => None,
    }
}

/// Plans the upstream exchange for a request.
pub fn plan_forward(req: InboundRequest) -> (plan: Option<UpstreamRequest>)
    ensures
        upstream_view(plan) == forward_plan(req@),
{
    match req.authority {
        Some(a) => {
            let port = a.dial_port();
            Some(
                UpstreamRequest {
                    host: a.host,
                    port,
                    method: req.method,
                    target: req.target,
                    headers: req.headers,
                },
            )
        },
        None => None,
    }
}

/// How an upstream exchange ended.
#[derive(Clone, Debug, PartialEq, Eq)]
pub enum UpstreamOutcome {
    /// No connection to the upstream could be opened.
    DialFailed,
    /// The connection was opened, but the HTTP handshake on it failed.
    HandshakeFailed,
    /// The upstream answered in full.
    Complete(Response),
    /// The upstream began to answer, then the read failed; what arrived
    /// before that is kept.
    Truncated(Response),
}

/// What the client receives for an upstream exchange that ended this way:
/// the upstream's response as it came, or a 502 where none came.
pub open spec fn relayed(outcome: UpstreamOutcome) -> ResponseView {
    match outcome {
        UpstreamOutcome::DialFailed => status_only(BAD_GATEWAY),
        UpstreamOutcome::HandshakeFailed => status_only(BAD_GATEWAY),
        UpstreamOutcome::Complete(resp) => resp@,
        UpstreamOutcome::Truncated(resp) => resp@,
    }
}

/// The response to the client once the upstream exchange has ended.
pub fn finish_forward(outcome: UpstreamOutcome) -> (resp: Response)
    ensures
        resp@ == relayed(outcome),
{
    match outcome {
        UpstreamOutcome::DialFailed => bad_gateway(),
        UpstreamOutcome::HandshakeFailed => bad_gateway(),
        UpstreamOutcome::Complete(resp) => resp,
        UpstreamOutcome::Truncated(resp) => resp,
    }
}

/// What the upstream answered in full reaches the client unchanged: same
/// status, same header lines, same body, byte for byte.
pub proof fn lemma_complete_response_is_unchanged(reply: Response)
    ensures
        relayed(UpstreamOutcome::Complete(reply)) == reply@,
        relayed(UpstreamOutcome::Complete(reply)).status == reply.status,
        relayed(UpstreamOutcome::Complete(reply)).body == reply.body@,
{
}

/// Where no connection or no handshake came about, the client is answered
/// with status 502 and an empty body.
pub proof fn lemma_unreachable_is_bad_gateway(outcome: UpstreamOutcome)
    requires
        outcome is DialFailed || outcome is HandshakeFailed,
    ensures
        relayed(outcome) == status_only(BAD_GATEWAY),
{
}

} // verus!
