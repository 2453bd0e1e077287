//! Service name resolution: from the host a request names to the service
//! that the router looks up.
//!
//! A host is a dot-separated sequence of labels, optionally followed by a
//! colon and a port. The port never takes part in routing. The last two
//! labels of a long host are taken to be its base domain; what stands before
//! them names the service.

use crate::text::{
    first_index_of, join, join_prefix, lemma_first_index_of_is, lemma_join_concat, lemma_join_split,
    lemma_split_pieces, split, split_on,
};
use vstd::prelude::*;
use vstd::string::StringExecFns;

verus! {

/// The service that an apex domain (a host of exactly two labels) routes to.
pub const ROOT_SERVICE: &'static str = "_root";

/// The service named by a host's labels: a lone label names itself, two
/// labels name the root service, and of three or more all but the last two
/// are joined by dots.
pub open spec fn service_id(labels: Seq<Seq<char>>) -> Seq<char> {
    if labels.len() == 1 {
        labels[0]
    } else if labels.len() == 2 {
        ROOT_SERVICE@
    } else {
        join(labels.take(labels.len() - 2), seq!['.'])
    }
}

/// The labels of a host that carries no port.
pub open spec fn host_labels(host: Seq<char>) -> Seq<Seq<char>> {
    split(host, '.')
}

/// A host as it arrives, cut before its first colon.
pub open spec fn without_port(host: Seq<char>) -> Seq<char> {
    host.take(first_index_of(host, ':') as int)
}

/// The service that a host without port resolves to.
pub open spec fn resolved_service(hostname: Seq<char>) -> Seq<char> {
    service_id(host_labels(hostname))
}

/// The service that a request's host, port included or not, routes to.
pub open spec fn routed_service(host: Seq<char>) -> Seq<char> {
    resolved_service(without_port(host))
}

/// Names the service for a host given as its labels.
pub fn service_from_host_parts(parts: Vec<String>) -> (id: String)
    requires
        parts@.len() >= 1,
    ensures
        id@ == service_id(parts.deep_view()),
        parts@.len() == 1 ==> id@ == parts@[0]@,
        parts@.len() == 2 ==> id@ == ROOT_SERVICE@,
        parts@.len() >= 3 ==> id@ == join(
            parts.deep_view().take(parts@.len() - 2),
            seq!['.'],
        ),
{
    let len = parts.len();
    if len == 1 {
        parts[0].clone()
    } else if len == 2 {
        String::from_str(ROOT_SERVICE)
    } else {
        proof {
            reveal_strlit(".");
            assert("."@ == seq!['.']);
        }
        join_prefix(&parts, len - 2, ".")
    }
}

/// Removes the port from a host: everything from the first colon on.
pub fn strip_port(host: &str) -> (name: String)
    ensures
        name@ == without_port(host@),
        name@ == split(host@, ':')[0],
{
    let pieces = split_on(host, ':');
    proof {
        lemma_split_pieces(host@, ':');
    }
    pieces[0].clone()
}

/// Resolves a host without port to its service.
pub fn resolve(hostname: &str) -> (id: String)
    ensures
        id@ == resolved_service(hostname@),
{
    service_from_host_parts(split_on(hostname, '.'))
}

/// Resolves a request's host to its service, ignoring any port.
pub fn service_for_host(host: &str) -> (id: String)
    ensures
        id@ == routed_service(host@),
{
    let name = strip_port(host);
    resolve(name.as_str())
}

/// A host of exactly one label resolves to that label, which is the whole
/// host.
pub proof fn lemma_single_label(hostname: Seq<char>)
    requires
        host_labels(hostname).len() == 1,
    ensures
        resolved_service(hostname) == host_labels(hostname)[0],
        resolved_service(hostname) == hostname,
{
    lemma_join_split(hostname, '.');
}

/// A host of exactly two labels resolves to the root service, whatever the
/// labels are.
pub proof fn lemma_two_labels(hostname: Seq<char>)
    requires
        host_labels(hostname).len() == 2,
    ensures
        resolved_service(hostname) == ROOT_SERVICE@,
{
}

/// A host of three or more labels resolves to all but its last two labels,
/// joined by dots; the service, a dot and the two-label base domain make up
/// the host again.
pub proof fn lemma_many_labels(hostname: Seq<char>)
    requires
        host_labels(hostname).len() >= 3,
    ensures
        resolved_service(hostname) == join(
            host_labels(hostname).take(host_labels(hostname).len() - 2),
            seq!['.'],
        ),
        hostname == resolved_service(hostname) + seq!['.'] + join(
            host_labels(hostname).skip(host_labels(hostname).len() - 2),
            seq!['.'],
        ),
{
    let labels = host_labels(hostname);
    let n = labels.len() as int;
    lemma_join_split(hostname, '.');
    lemma_join_concat(labels.take(n - 2), labels.skip(n - 2), seq!['.']);
    assert(labels.take(n - 2) + labels.skip(n - 2) == labels);
}

/// The empty host has one empty label and resolves to the empty service.
pub proof fn lemma_empty_host()
    ensures
        host_labels(Seq::empty()) == seq![Seq::<char>::empty()],
        resolved_service(Seq::empty()) == Seq::<char>::empty(),
{
}

/// Routing is port-agnostic: a host followed by a colon and anything at all
/// routes where the host alone does.
pub proof fn lemma_port_is_ignored(hostname: Seq<char>, port: Seq<char>)
    requires
        !hostname.contains(':'),
    ensures
        without_port(hostname + seq![':'] + port) == hostname,
        routed_service(hostname + seq![':'] + port) == resolved_service(hostname),
        routed_service(hostname) == resolved_service(hostname),
{
    let full = hostname + seq![':'] + port;
    lemma_first_index_of_is(full, ':', hostname.len() as int);
    assert(full.take(hostname.len() as int) == hostname);
    lemma_first_index_of_is(hostname, ':', hostname.len() as int);
    assert(hostname.take(hostname.len() as int) == hostname);
}

} // verus!
