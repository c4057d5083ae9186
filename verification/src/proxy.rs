//! The handling of one request: from the classifier's verdict to the first
//! thing the proxy does.

use crate::access_list::AccessList;
use crate::classify::{classify, decision, ProxyDecision, RejectReason};
use crate::forward::{
    forward_plan, plan_forward, relayed, UpstreamOutcome, UpstreamRequest, UpstreamRequestView,
};
use crate::request::{InboundRequest, RequestView};
use crate::response::{
    rejection, rejection_status, response_view, status_only, Response, ResponseView, BAD_REQUEST,
    FORBIDDEN,
};
use crate::target::port_or_default;
use vstd::prelude::*;

verus! {

/// A service wrapped by the proxy.
#[derive(Clone, Debug)]
pub struct Proxy<S> {
    inner: S,
}

impl<S> Proxy<S> {
    /// The wrapped service.
    pub closed spec fn inner(&self) -> S {
        self.inner
    }

    /// Wraps a service.
    pub fn new(inner: S) -> (proxy: Self)
        ensures
            proxy.inner() == inner,
    {
        Proxy { inner }
    }

    /// The wrapped service.
    pub fn get_ref(&self) -> (inner: &S)
        ensures
            *inner == self.inner(),
    {
        &self.inner
    }

    /// Gives the wrapped service back.
    pub fn into_inner(self) -> (inner: S)
        ensures
            inner == self.inner(),
    {
        self.inner
    }
}

/// A refusal by the access list, to be put on record: who asked, and for
/// which host.
#[derive(Clone, Debug, PartialEq, Eq)]
pub struct Denial {
    /// The network address of the client.
    pub client: String,
    /// The forbidden host that it asked for.
    pub host: String,
}

/// A refusal as plain values.
pub struct DenialView {
    pub client: Seq<char>,
    pub host: Seq<char>,
}

impl View for Denial {
    type V = DenialView;

    open spec fn view(&self) -> DenialView {
        DenialView { client: self.client@, host: self.host@ }
    }
}

/// The view of an optional refusal.
pub open spec fn denial_view(denial: Option<Denial>) -> Option<DenialView> {
    match denial {
        Some(d) => Some(d@),
        None => None,
    }
}

/// What the proxy does first with a request.
#[derive(Clone, Debug, PartialEq, Eq)]
pub enum Step {
    /// Write this response and close the connection; where there is a
    /// denial, put it on record. Nothing is dialed.
    Respond { response: Response, denial: Option<Denial> },
    /// Carry out this upstream exchange and relay its outcome.
    Forward(UpstreamRequest),
    /// Dial this address and, once connected, open a tunnel to it.
    Tunnel(String),
}

/// A first step as plain values.
pub enum StepView {
    Respond { response: ResponseView, denial: Option<DenialView> },
    Forward(UpstreamRequestView),
    Tunnel(Seq<char>),
}

impl View for Step {
    type V = StepView;

    open spec fn view(&self) -> StepView {
        match self {
            Step::Respond { response, denial } => StepView::Respond {
                response: response@,
                denial: denial_view(*denial),
            },
            Step::Forward(plan) => StepView::Forward(plan@),
            Step::Tunnel(address) => StepView::Tunnel(address@),
        }
    }
}

/// The view of an optional first step.
pub open spec fn step_view(step: Option<Step>) -> Option<StepView> {
    match step {
        Some(s) => Some(s@),
        None => None,
    }
}

/// What is put on record for a rejected request: a refusal by the access
/// list is, with the client's address and the host asked for; a breach of
/// protocol is not.
pub open spec fn denial_of(req: RequestView, reason: RejectReason) -> Option<DenialView> {
    match (reason, req.authority) {
        (RejectReason::Forbidden, Some(a)) => Some(DenialView { client: req.client, host: a.host }),
        _ => None,
    }
}

/// The answer to a rejected request: the status of the rejection, without
/// header lines or body.
pub open spec fn refusal(req: RequestView, reason: RejectReason) -> StepView {
    StepView::Respond {
        response: status_only(rejection_status(reason)),
        denial: denial_of(req, reason),
    }
}

/// The first step for a request under an access list. A rejected request is
/// answered with the status of the rejection. An approved `GET` is forwarded
/// to the host of its target, an approved `CONNECT` is tunnelled to the
/// authority of its target; an approved request whose target names no
/// authority has no first step.
pub open spec fn first_step(req: RequestView, rules: Set<Seq<char>>) -> Option<StepView> {
    match decision(req, rules) {
        ProxyDecision::Reject(reason) => Some(refusal(req, reason)),
        ProxyDecision::Forward => match forward_plan(req) {
            Some(plan) => Some(StepView::Forward(plan)),
            None => None,
        },
        ProxyDecision::Tunnel => match req.authority {
            Some(a) => Some(StepView::Tunnel(a.text)),
            None => None,
        },
    }
}

/// The response that refuses a request to a host on the access list, or
/// `None` where the target's host is not on it.
pub fn is_on_blacklist(rules: &AccessList, req: &InboundRequest) -> (resp: Option<Response>)
    ensures
        response_view(resp) == if req@.authority matches Some(a) && rules@.contains(a.host) {
            Some(status_only(FORBIDDEN))
        } else {
            None
        },
{
    match &req.authority {
        Some(a) => {
            if rules.contains(a.host.as_str()) {
                Some(rejection(RejectReason::Forbidden))
            } else {
                None
            }
        },
        None => None,
    }
}

/// Decides what to do with a request. `None` is returned exactly for an
/// approved request whose target names no authority: there is nowhere to send
/// it.
pub fn forward_proxy(req: InboundRequest, rules: &AccessList) -> (step: Option<Step>)
    ensures
        step_view(step) == first_step(req@, rules@),
{
    match classify(&req, rules) {
        ProxyDecision::Reject(reason) => {
            let denial = match (reason, req.authority) {
                (RejectReason::Forbidden, Some(a)) => Some(
                    Denial { client: req.client, host: a.host },
                ),
                _ => None,
            };
            Some(Step::Respond { response: rejection(reason), denial })
        },
        ProxyDecision::Forward => match plan_forward(req) {
            Some(plan) => Some(Step::Forward(plan)),
            None => None,
        },
        ProxyDecision::Tunnel => match req.authority {
            Some(a) => Some(Step::Tunnel(a.text)),
            None => None,
        },
    }
}

/// A request without the proxy-signaling header is answered with status 400,
/// whatever its method and target, and whatever the access list holds.
pub proof fn lemma_missing_header_is_bad_request(req: RequestView, rules: Set<Seq<char>>)
    requires
        !req.signals_proxy(),
    ensures
        first_step(req, rules) == Some(
            StepView::Respond { response: status_only(BAD_REQUEST), denial: None },
        ),
{
}

/// A request with a method other than `GET` and `CONNECT` is answered with
/// status 400.
pub proof fn lemma_other_method_is_bad_request(req: RequestView, rules: Set<Seq<char>>)
    requires
        !req.is_get(),
        !req.is_connect(),
    ensures
        first_step(req, rules) == Some(
            StepView::Respond { response: status_only(BAD_REQUEST), denial: None },
        ),
{
}

/// A request that carries the proxy-signaling header and an accepted method
/// is answered with status 403 if the host of its target is on the access
/// list, and the refusal is put on record with the client's address and that
/// host.
pub proof fn lemma_listed_host_is_forbidden(req: RequestView, rules: Set<Seq<char>>)
    requires
        req.signals_proxy(),
        req.is_get() || req.is_connect(),
        req.authority matches Some(a) && rules.contains(a.host),
    ensures
        first_step(req, rules) == Some(
            StepView::Respond {
                response: status_only(FORBIDDEN),
                denial: Some(DenialView { client: req.client, host: req.authority->0.host }),
            },
        ),
{
}

/// A `GET` that carries the proxy-signaling header and names a host that is
/// not on the access list is forwarded to that host, on the port named or
/// else the default one, with request line and header lines unchanged.
pub proof fn lemma_valid_get_is_forwarded(req: RequestView, rules: Set<Seq<char>>)
    requires
        req.signals_proxy(),
        req.is_get(),
        req.authority matches Some(a) && !rules.contains(a.host),
    ensures
        first_step(req, rules) == Some(
            StepView::Forward(
                UpstreamRequestView {
                    host: req.authority->0.host,
                    port: port_or_default(req.authority->0.port),
                    method: req.method,
                    target: req.target,
                    headers: req.headers,
                },
            ),
        ),
{
}

/// For a `GET` that carries the proxy-signaling header and names a host that
/// is not on the access list, and whose origin answers in full, the client
/// receives what the origin answered: the same status and the same body, byte
/// for byte.
pub proof fn lemma_forwarded_get_returns_origin_response(
    req: RequestView,
    rules: Set<Seq<char>>,
    reply: Response,
)
    requires
        req.signals_proxy(),
        req.is_get(),
        req.authority matches Some(a) && !rules.contains(a.host),
    ensures
        first_step(req, rules) matches Some(StepView::Forward(plan)) && plan.host
            == req.authority->0.host,
        relayed(UpstreamOutcome::Complete(reply)) == reply@,
        relayed(UpstreamOutcome::Complete(reply)).status == reply.status,
        relayed(UpstreamOutcome::Complete(reply)).body == reply.body@,
{
}

/// A `CONNECT` that carries the proxy-signaling header and names a host that
/// is not on the access list is tunnelled to the authority of its target.
pub proof fn lemma_valid_connect_is_tunnelled(req: RequestView, rules: Set<Seq<char>>)
    requires
        req.signals_proxy(),
        req.is_connect(),
        req.authority matches Some(a) && !rules.contains(a.host),
    ensures
        first_step(req, rules) == Some(StepView::Tunnel(req.authority->0.text)),
{
    reveal_strlit("GET");
    reveal_strlit("CONNECT");
    assert("GET"@.len() != "CONNECT"@.len());
}

/// Only a `GET` that passed every check is forwarded, and then to the host
/// of its target with request line and header lines unchanged; only a
/// `CONNECT` that passed every check is tunnelled. A rejected request is
/// neither: it is answered with status 400 or 403, and only the 403 is put on
/// record.
pub proof fn lemma_only_approved_requests_go_upstream(req: RequestView, rules: Set<Seq<char>>)
    ensures
        first_step(req, rules) matches Some(StepView::Forward(plan)) ==> {
            &&& decision(req, rules) == ProxyDecision::Forward
            &&& req.is_get()
            &&& req.signals_proxy()
            &&& req.authority matches Some(a) && plan.host == a.host && !rules.contains(a.host)
            &&& plan.method == req.method
            &&& plan.target == req.target
            &&& plan.headers == req.headers
        },
        first_step(req, rules) matches Some(StepView::Tunnel(address)) ==> {
            &&& decision(req, rules) == ProxyDecision::Tunnel
            &&& req.is_connect()
            &&& req.signals_proxy()
            &&& req.authority matches Some(a) && address == a.text && !rules.contains(a.host)
        },
        decision(req, rules) is Reject ==> first_step(req, rules) matches Some(
            StepView::Respond { .. },
        ),
        first_step(req, rules) matches Some(StepView::Respond { response, denial }) ==> {
            &&& decision(req, rules) is Reject
            &&& response.status == BAD_REQUEST || response.status == FORBIDDEN
            &&& denial is Some <==> response.status == FORBIDDEN
        },
{
    reveal_strlit("GET");
    reveal_strlit("CONNECT");
}

} // verus!
