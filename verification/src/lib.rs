//! A forward HTTP proxy core: access policy, request classification,
//! forwarding plans and the CONNECT tunnel life cycle.

pub mod acceptor;
pub mod access_list;
pub mod classify;
pub mod forward;
pub mod proxy;
pub mod request;
pub mod response;
pub mod target;
pub mod text;
pub mod tunnel;
