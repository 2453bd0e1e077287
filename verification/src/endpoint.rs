//! The address that a request is forwarded to, and how it is written.

use crate::text::{append_signed_decimal, signed_decimal};
use vstd::prelude::*;
use vstd::string::StringExecFns;

verus! {

/// The address that a request is forwarded to.
#[derive(Clone, Debug, PartialEq, Eq)]
pub struct BackendEndpoint {
    pub host: String,
    pub port: i64,
}

/// The view of a `BackendEndpoint`.
pub struct EndpointView {
    pub host: Seq<char>,
    pub port: i64,
}

impl View for BackendEndpoint {
    type V = EndpointView;

    open spec fn view(&self) -> EndpointView {
        EndpointView { host: self.host@, port: self.port }
    }
}

impl DeepView for BackendEndpoint {
    type V = EndpointView;

    open spec fn deep_view(&self) -> EndpointView {
        self@
    }
}

/// An endpoint written as host, colon and port.
pub open spec fn authority(endpoint: EndpointView) -> Seq<char> {
    endpoint.host + seq![':'] + signed_decimal(endpoint.port as int)
}

/// The address of `path` on an endpoint, over plain HTTP. The path stands
/// behind the slash as it is.
pub open spec fn target_url(endpoint: EndpointView, path: Seq<char>) -> Seq<char> {
    "http://"@ + authority(endpoint) + seq!['/'] + path
}

impl BackendEndpoint {
    /// The endpoint as host, colon and port.
    pub fn authority(&self) -> (text: String)
        ensures
            text@ == authority(self@),
    {
        proof {
            reveal_strlit(":");
        }
        let mut text = self.host.clone();
        text.append(":");
        append_signed_decimal(&mut text, self.port);
        assert(text@ =~= authority(self@));
        text
    }

    /// The address to send a request for `path` to.
    pub fn url_for(&self, path: &str) -> (url: String)
        ensures
            url@ == target_url(self@, path@),
    {
        proof {
            reveal_strlit("/");
        }
        let mut url = String::from_str("http://");
        let authority = self.authority();
        url.append(authority.as_str());
        url.append("/");
        url.append(path);
        assert(url@ =~= target_url(self@, path@));
        url
    }
}

} // verus!
