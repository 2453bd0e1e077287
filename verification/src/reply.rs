//! The replies that the router makes up itself, where it has no backend's
//! response to relay. Each is a status and a plain text that ends in the
//! router's name and version.

use vstd::prelude::*;
use vstd::string::StringExecFns;

verus! {

/// The version that every reply of the router itself is tagged with.
pub const VERSION: &'static str = "0.1.0";

/// A reply that the router makes up itself: a status and a plain text.
#[derive(Clone, Debug, PartialEq, Eq)]
pub struct Reply {
    pub status: u16,
    pub body: String,
}

/// The view of a `Reply`.
pub struct ReplyView {
    pub status: u16,
    pub body: Seq<char>,
}

impl View for Reply {
    type V = ReplyView;

    open spec fn view(&self) -> ReplyView {
        ReplyView { status: self.status, body: self.body@ }
    }
}

/// The tag that ends the text of every reply.
pub open spec fn version_tag() -> Seq<char> {
    "(dumbrouter/"@ + VERSION@ + ")"@
}

/// The reply to a request that failed inside the router, at the registry or
/// at the backend.
pub open spec fn internal_error_reply() -> ReplyView {
    ReplyView { status: 500, body: "Internal Server Error "@ + version_tag() }
}

/// The reply to a request for a service that no running workload serves.
pub open spec fn no_backend_reply(service: Seq<char>) -> ReplyView {
    ReplyView {
        status: 500,
        body: "No backend found for service "@ + service + ".  "@ + version_tag(),
    }
}

/// The reply to a request of an unsupported method.
pub open spec fn unsupported_reply() -> ReplyView {
    ReplyView { status: 501, body: "This method is not supported.  "@ + version_tag() }
}

/// Appends the version tag to `text`.
fn append_version_tag(text: &mut String)
    ensures
        final(text)@ == old(text)@ + version_tag(),
{
    text.append("(dumbrouter/");
    text.append(VERSION);
    text.append(")");
    assert(text@ =~= old(text)@ + version_tag());
}

/// The reply to a request that failed inside the router.
pub fn internal_error() -> (reply: Reply)
    ensures
        reply@ == internal_error_reply(),
{
    let mut body = String::from_str("Internal Server Error ");
    append_version_tag(&mut body);
    Reply { status: 500, body }
}

/// The reply to a request for a service that no running workload serves.
pub fn no_backend(service: &str) -> (reply: Reply)
    ensures
        reply@ == no_backend_reply(service@),
{
    let mut body = String::from_str("No backend found for service ");
    body.append(service);
    body.append(".  ");
    append_version_tag(&mut body);
    assert(body@ =~= no_backend_reply(service@).body);
    Reply { status: 500, body }
}

/// The reply to a request of an unsupported method.
pub fn unsupported_method() -> (reply: Reply)
    ensures
        reply@ == unsupported_reply(),
{
    let mut body = String::from_str("This method is not supported.  ");
    append_version_tag(&mut body);
    Reply { status: 501, body }
}

} // verus!
