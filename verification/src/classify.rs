//! The request classifier: what the proxy does with a request.

use crate::access_list::AccessList;
use crate::request::{InboundRequest, RequestView};
use vstd::prelude::*;

verus! {

/// Why a request is turned away.
#[derive(Clone, Copy, Debug, PartialEq, Eq, Structural)]
pub enum RejectReason {
    /// The request breaks the protocol: it lacks the proxy-signaling header,
    /// or its method is neither `GET` nor `CONNECT`.
    BadRequest,
    /// The target host is on the access list.
    Forbidden,
}

/// The classifier's verdict on a request.
#[derive(Clone, Copy, Debug, PartialEq, Eq, Structural)]
pub enum ProxyDecision {
    /// Replay the request to the target and relay the response.
    Forward,
    /// Open a byte tunnel to the target.
    Tunnel,
    /// Answer with an error status; nothing is dialed.
    Reject(RejectReason),
}

/// The verdict on a request under an access list. The checks are made in
/// this order, and the first that applies decides.
pub open spec fn decision(req: RequestView, rules: Set<Seq<char>>) -> ProxyDecision {
    if !req.signals_proxy() {
        ProxyDecision::Reject(RejectReason::BadRequest)
    } else if !req.is_get() && !req.is_connect() {
        ProxyDecision::Reject(RejectReason::BadRequest)
    } else if req.authority matches Some(a) && rules.contains(a.host) {
        ProxyDecision::Reject(RejectReason::Forbidden)
    } else if req.is_get() {
        ProxyDecision::Forward
    } else {
        ProxyDecision::Tunnel
    }
}

/// Classifies a request.
pub fn classify(req: &InboundRequest, rules: &AccessList) -> (d: ProxyDecision)
    ensures
        d == decision(req@, rules@),
{
    if !req.signals_proxy() {
        return ProxyDecision::Reject(RejectReason::BadRequest);
    }
    let get = req.is_get();
    if !get && !req.is_connect() {
        return ProxyDecision::Reject(RejectReason::BadRequest);
    }
    let listed = match &req.authority {
        Some(a) => rules.contains(a.host.as_str()),
        None => false,
    };
    if listed {
        ProxyDecision::Reject(RejectReason::Forbidden)
    } else if get {
        ProxyDecision::Forward
    } else {
        ProxyDecision::Tunnel
    }
}

} // verus!
