//! The forwarding proxy, as far as it is no I/O: what is sent to a backend
//! for a request, and what comes back.
//!
//! A request is forwarded as it came: the same method, every header in its
//! place and the body, if there is one, byte for byte. Only the address is
//! new. Headers and bodies are held as plain bytes; nothing here reads them.

use crate::endpoint::{target_url, BackendEndpoint, EndpointView};
use crate::method::Method;
use vstd::prelude::*;

verus! {

/// A request as it came in.
#[derive(Clone, Debug, PartialEq, Eq)]
pub struct ProxiedRequest {
    pub method: Method,
    /// The host that the request names, with its port if it has one.
    pub host: String,
    /// The path that the request asks for, without the leading slash.
    pub path: String,
    /// The headers, each a name and a value, in the order they came in.
    pub headers: Vec<(String, Vec<u8>)>,
    /// The body, if the request has one.
    pub body: Option<Vec<u8>>,
}

/// The view of a `ProxiedRequest`.
pub struct RequestView {
    pub method: Method,
    pub host: Seq<char>,
    pub path: Seq<char>,
    pub headers: Seq<(Seq<char>, Seq<u8>)>,
    pub body: Option<Seq<u8>>,
}

impl View for ProxiedRequest {
    type V = RequestView;

    open spec fn view(&self) -> RequestView {
        RequestView {
            method: self.method,
            host: self.host@,
            path: self.path@,
            headers: self.headers.deep_view(),
            body: self.body.deep_view(),
        }
    }
}

/// A request as it is sent to a backend.
#[derive(Clone, Debug, PartialEq, Eq)]
pub struct OutboundRequest {
    pub method: Method,
    /// The address that the request is sent to.
    pub url: String,
    pub headers: Vec<(String, Vec<u8>)>,
    pub body: Option<Vec<u8>>,
}

/// The view of an `OutboundRequest`.
pub struct OutboundView {
    pub method: Method,
    pub url: Seq<char>,
    pub headers: Seq<(Seq<char>, Seq<u8>)>,
    pub body: Option<Seq<u8>>,
}

impl View for OutboundRequest {
    type V = OutboundView;

    open spec fn view(&self) -> OutboundView {
        OutboundView {
            method: self.method,
            url: self.url@,
            headers: self.headers.deep_view(),
            body: self.body.deep_view(),
        }
    }
}

/// A backend's response, as it came and as it is relayed.
#[derive(Clone, Debug, PartialEq, Eq)]
pub struct ProxiedResponse {
    pub status: u16,
    pub headers: Vec<(String, Vec<u8>)>,
    pub body: Vec<u8>,
}

/// The view of a `ProxiedResponse`.
pub struct ResponseView {
    pub status: u16,
    pub headers: Seq<(Seq<char>, Seq<u8>)>,
    pub body: Seq<u8>,
}

impl View for ProxiedResponse {
    type V = ResponseView;

    open spec fn view(&self) -> ResponseView {
        ResponseView {
            status: self.status,
            headers: self.headers.deep_view(),
            body: self.body.deep_view(),
        }
    }
}

/// What is sent to `endpoint` for `request`: the request's own method,
/// headers and body, to the address of its path on the endpoint.
pub open spec fn outbound(request: RequestView, endpoint: EndpointView) -> OutboundView {
    OutboundView {
        method: request.method,
        url: target_url(endpoint, request.path),
        headers: request.headers,
        body: request.body,
    }
}

/// Builds what is sent to `endpoint` for `request`.
pub fn outbound_request(request: ProxiedRequest, endpoint: &BackendEndpoint) -> (sent:
    OutboundRequest)
    ensures
        sent@ == outbound(request@, endpoint@),
        sent.method == request.method,
        sent.headers == request.headers,
        sent.body == request.body,
{
    let url = endpoint.url_for(request.path.as_str());
    OutboundRequest { method: request.method, url, headers: request.headers, body: request.body }
}

} // verus!
