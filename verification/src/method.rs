//! The request methods that the router knows, and what it does with each.
//!
//! The router forwards requests of six methods and answers those of two
//! others at once. It has no route for any further method.

use crate::text::same_text;
use vstd::prelude::*;

verus! {

/// The request methods that the router has a route for.
#[derive(Clone, Copy, Debug, PartialEq, Eq, Structural)]
pub enum Method {
    Get,
    Post,
    Put,
    Delete,
    Head,
    Options,
    Connect,
    Trace,
}

/// What the router does with requests of a method.
#[derive(Clone, Copy, Debug, PartialEq, Eq, Structural)]
pub enum MethodClass {
    /// They are forwarded to a backend.
    Forwarded,
    /// They are answered at once, and never forwarded.
    Unsupported,
}

/// The name that a method goes by on the wire.
pub open spec fn method_name(method: Method) -> Seq<char> {
    match method {
        Method::Get => "GET"@,
        Method::Post => "POST"@,
        Method::Put => "PUT"@,
        Method::Delete => "DELETE"@,
        Method::Head => "HEAD"@,
        Method::Options => "OPTIONS"@,
        Method::Connect => "CONNECT"@,
        Method::Trace => "TRACE"@,
    }
}

/// The method that goes by `name`, if the router has a route for one.
pub open spec fn method_named(name: Seq<char>) -> Option<Method> {
    if name == "GET"@ {
        Some(Method::Get)
    } else if name == "POST"@ {
        Some(Method::Post)
    } else if name == "PUT"@ {
        Some(Method::Put)
    } else if name == "DELETE"@ {
        Some(Method::Delete)
    } else if name == "HEAD"@ {
        Some(Method::Head)
    } else if name == "OPTIONS"@ {
        Some(Method::Options)
    } else if name == "CONNECT"@ {
        Some(Method::Connect)
    } else if name == "TRACE"@ {
        Some(Method::Trace)
    } else {
        None
    }
}

/// The class of each method.
pub open spec fn method_class(method: Method) -> MethodClass {
    match method {
        Method::Connect | Method::Trace => MethodClass::Unsupported,
        _ => MethodClass::Forwarded,
    }
}

/// The methods in the order of the routing table.
pub open spec fn all_methods() -> Seq<Method> {
    seq![
        Method::Get,
        Method::Post,
        Method::Put,
        Method::Delete,
        Method::Head,
        Method::Options,
        Method::Connect,
        Method::Trace,
    ]
}

impl Method {
    /// The name that this method goes by on the wire.
    pub fn name(self) -> (name: &'static str)
        ensures
            name@ == method_name(self),
    {
        match self {
            Method::Get => "GET",
            Method::Post => "POST",
            Method::Put => "PUT",
            Method::Delete => "DELETE",
            Method::Head => "HEAD",
            Method::Options => "OPTIONS",
            Method::Connect => "CONNECT",
            Method::Trace => "TRACE",
        }
    }

    /// The method that goes by `name`, if the router has a route for one.
    pub fn from_name(name: &str) -> (method: Option<Method>)
        ensures
            method == method_named(name@),
    {
        if same_text(name, "GET") {
            Some(Method::Get)
        } else if same_text(name, "POST") {
            Some(Method::Post)
        } else if same_text(name, "PUT") {
            Some(Method::Put)
        } else if same_text(name, "DELETE") {
            Some(Method::Delete)
        } else if same_text(name, "HEAD") {
            Some(Method::Head)
        } else if same_text(name, "OPTIONS") {
            Some(Method::Options)
        } else if same_text(name, "CONNECT") {
            Some(Method::Connect)
        } else if same_text(name, "TRACE") {
            Some(Method::Trace)
        } else {
            None
        }
    }

    /// What the router does with requests of this method.
    pub fn class(self) -> (class: MethodClass)
        ensures
            class == method_class(self),
    {
        match self {
            Method::Connect | Method::Trace => MethodClass::Unsupported,
            _ => MethodClass::Forwarded,
        }
    }
}

/// The routing table: every method with its class, each once.
pub fn method_table() -> (table: Vec<(Method, MethodClass)>)
    ensures
        table@.len() == all_methods().len(),
        forall|i: int|
            0 <= i < table@.len() ==> (#[trigger] table@[i]).0 == all_methods()[i] && table@[i].1
                == method_class(all_methods()[i]),
{
    let mut table: Vec<(Method, MethodClass)> = Vec::new();
    table.push((Method::Get, Method::Get.class()));
    table.push((Method::Post, Method::Post.class()));
    table.push((Method::Put, Method::Put.class()));
    table.push((Method::Delete, Method::Delete.class()));
    table.push((Method::Head, Method::Head.class()));
    table.push((Method::Options, Method::Options.class()));
    table.push((Method::Connect, Method::Connect.class()));
    table.push((Method::Trace, Method::Trace.class()));
    table
}

/// Every method is found again by its name.
pub proof fn lemma_method_found_by_name(method: Method)
    ensures
        method_named(method_name(method)) == Some(method),
{
    reveal_strlit("GET");
    reveal_strlit("POST");
    reveal_strlit("PUT");
    reveal_strlit("DELETE");
    reveal_strlit("HEAD");
    reveal_strlit("OPTIONS");
    reveal_strlit("CONNECT");
    reveal_strlit("TRACE");
    assert("GET"@.len() == 3 && "GET"@[0] == 'G');
    assert("POST"@.len() == 4 && "POST"@[0] == 'P');
    assert("PUT"@.len() == 3 && "PUT"@[0] == 'P');
    assert("DELETE"@.len() == 6);
    assert("HEAD"@.len() == 4 && "HEAD"@[0] == 'H');
    assert("OPTIONS"@.len() == 7 && "OPTIONS"@[0] == 'O');
    assert("CONNECT"@.len() == 7 && "CONNECT"@[0] == 'C');
    assert("TRACE"@.len() == 5);
}

} // verus!
