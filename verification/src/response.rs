//! Responses that the proxy writes to a client.

use crate::classify::RejectReason;
use crate::request::{headers_view, Header, HeaderView};
use vstd::prelude::*;

verus! {

/// Status of the response that tells a client its tunnel is open.
pub const OK: u16 = 200;

/// Status for a request that breaks the protocol.
pub const BAD_REQUEST: u16 = 400;

/// Status for a request to a forbidden host.
pub const FORBIDDEN: u16 = 403;

/// Status for a request whose upstream could not be reached.
pub const BAD_GATEWAY: u16 = 502;

/// A response: status, header lines and body.
#[derive(Clone, Debug, PartialEq, Eq)]
pub struct Response {
    pub status: u16,
    pub headers: Vec<Header>,
    pub body: Vec<u8>,
}

/// A response as plain values.
pub struct ResponseView {
    pub status: u16,
    pub headers: Seq<HeaderView>,
    pub body: Seq<u8>,
}

impl View for Response {
    type V = ResponseView;

    open spec fn view(&self) -> ResponseView {
        ResponseView {
            status: self.status,
            headers: headers_view(self.headers@),
            body: self.body@,
        }
    }
}

/// The view of an optional response.
pub open spec fn response_view(resp: Option<Response>) -> Option<ResponseView> {
    match resp {
        Some(r) => Some(r@),
        None => None,
    }
}

/// The response with the given status and body and no header lines.
pub open spec fn plain_response(body: Seq<u8>, status: u16) -> ResponseView {
    ResponseView { status, headers: Seq::empty(), body }
}

/// The response that carries a status and nothing else.
pub open spec fn status_only(status: u16) -> ResponseView {
    plain_response(Seq::empty(), status)
}

/// The status that tells a client why its request was turned away.
pub open spec fn rejection_status(reason: RejectReason) -> u16 {
    match reason {
        RejectReason::BadRequest => BAD_REQUEST,
        RejectReason::Forbidden => FORBIDDEN,
    }
}

/// A response with the given body and status.
pub fn create_response(body: Vec<u8>, http_code: u16) -> (resp: Response)
    ensures
        resp@ == plain_response(body@, http_code),
{
    let resp = Response { status: http_code, headers: Vec::new(), body };
    assert(headers_view(resp.headers@) == Seq::<HeaderView>::empty());
    resp
}

impl RejectReason {
    /// The status that tells the client of this rejection.
    pub fn status(self) -> (code: u16)
        ensures
            code == rejection_status(self),
    {
        match self {
            RejectReason::BadRequest => BAD_REQUEST,
            RejectReason::Forbidden => FORBIDDEN,
        }
    }
}

/// The response that turns a request away: the status of the reason, no
/// header lines, no body.
pub fn rejection(reason: RejectReason) -> (resp: Response)
    ensures
        resp@ == status_only(rejection_status(reason)),
{
    create_response(Vec::new(), reason.status())
}

/// The response for a request whose upstream could not be reached.
pub fn bad_gateway() -> (resp: Response)
    ensures
        resp@ == status_only(BAD_GATEWAY),
{
    create_response(Vec::new(), BAD_GATEWAY)
}

/// The response that tells a client its tunnel is open: after it, the
/// connection carries opaque bytes.
pub fn tunnel_established() -> (resp: Response)
    ensures
        resp@ == status_only(OK),
{
    create_response(Vec::new(), OK)
}

} // verus!
