use dumbrouter::dispatch::{
    backend_host, proceed, step, Action, Event, Stage, DEFAULT_BACKEND_HOST,
};
use dumbrouter::endpoint::BackendEndpoint;
use dumbrouter::forward::{outbound_request, OutboundRequest, ProxiedRequest, ProxiedResponse};
use dumbrouter::method::{method_table, Method, MethodClass};
use dumbrouter::registry::{running_workloads_query, PortMapping, RegistryQuery, WorkloadRecord};
use dumbrouter::reply::{internal_error, no_backend, unsupported_method, Reply, VERSION};
use dumbrouter::selector::Warning;

const BACKEND: &str = "host.docker.internal";

fn sample_headers() -> Vec<(String, Vec<u8>)> {
    vec![
        ("host".to_string(), b"svc.example.com".to_vec()),
        ("accept".to_string(), b"text/html".to_vec()),
        ("accept".to_string(), b"application/json".to_vec()),
        ("x-binary".to_string(), vec![0xff, 0x00, 0x7f]),
    ]
}

fn incoming(method: Method, host: &str, path: &str) -> ProxiedRequest {
    ProxiedRequest {
        method,
        host: host.to_string(),
        path: path.to_string(),
        headers: sample_headers(),
        body: Some(b"{\"name\":\"x\"}".to_vec()),
    }
}

fn request(method: Method, host: &str, path: &str) -> Event {
    Event::Request { request: incoming(method, host, path) }
}

fn awaiting_registry(service: &str, method: Method, host: &str, path: &str) -> Stage {
    Stage::QueryRegistry { service: service.to_string(), request: incoming(method, host, path) }
}

fn container(name: &str, private_port: i64, public_port: i64) -> WorkloadRecord {
    WorkloadRecord {
        names: vec![name.to_string()],
        ports: vec![PortMapping {
            ip: Some("0.0.0.0".to_string()),
            private_port,
            public_port: Some(public_port),
        }],
    }
}

fn text_reply(status: u16, body: &str) -> Action {
    Action::Reply { reply: Reply { status, body: body.to_string() } }
}

fn running_query() -> RegistryQuery {
    RegistryQuery {
        all: true,
        filters: vec![("status".to_string(), vec!["running".to_string()])],
    }
}

#[test]
fn trace_is_answered_at_once() {
    for host in ["svc.example.com", "", "localhost:8080"] {
        let next = step(Stage::Start, request(Method::Trace, host, "any/path"), BACKEND);
        assert_eq!(next.stage, Stage::Unsupported);
        assert_eq!(
            next.action,
            text_reply(501, "This method is not supported.  (dumbrouter/0.1.0)")
        );
        assert!(next.warnings.is_empty());
    }
}

#[test]
fn connect_is_answered_at_once() {
    let next = step(Stage::Start, request(Method::Connect, "svc.example.com:443", ""), BACKEND);
    assert_eq!(next.stage, Stage::Unsupported);
    assert_eq!(next.action, text_reply(501, "This method is not supported.  (dumbrouter/0.1.0)"));
}

#[test]
fn unsupported_request_goes_no_further() {
    let first = step(Stage::Start, request(Method::Trace, "svc.example.com", "x"), BACKEND);
    let listing = vec![container("/http-svc", 80, 49200)];
    let second = step(first.stage, Event::RegistryListed { workloads: listing }, BACKEND);
    assert_eq!(second.stage, Stage::Unsupported);
    assert_eq!(second.action, Action::Ignore);
}

#[test]
fn forwarded_methods_query_the_registry() {
    for method in
        [Method::Get, Method::Post, Method::Put, Method::Delete, Method::Head, Method::Options]
    {
        let next = step(Stage::Start, request(method, "svc.example.com:8080", "a/b"), BACKEND);
        assert_eq!(next.stage, awaiting_registry("svc", method, "svc.example.com:8080", "a/b"));
        assert_eq!(next.action, Action::ListRunningWorkloads { query: running_query() });
        assert!(next.warnings.is_empty());
    }
}

#[test]
fn registry_is_asked_for_running_workloads_only() {
    let query = running_workloads_query();
    assert!(query.all);
    assert_eq!(query.filters, vec![("status".to_string(), vec!["running".to_string()])]);
    assert_eq!(query, running_query());
}

#[test]
fn apex_domain_queries_for_the_root_service() {
    let next = step(Stage::Start, request(Method::Get, "example.com", ""), BACKEND);
    assert_eq!(next.stage, awaiting_registry("_root", Method::Get, "example.com", ""));
}

#[test]
fn registry_failure_is_an_internal_error() {
    let stage = awaiting_registry("svc", Method::Get, "svc.example.com", "a");
    let next = step(stage, Event::RegistryFailed, BACKEND);
    assert_eq!(next.stage, Stage::RegistryFailure);
    assert_eq!(next.action, text_reply(500, "Internal Server Error (dumbrouter/0.1.0)"));
}

#[test]
fn no_backend_names_the_service() {
    let listing = vec![container("/http-other", 80, 49200)];
    let stage = awaiting_registry("svc", Method::Get, "svc.example.com", "a");
    let next = step(stage, Event::RegistryListed { workloads: listing }, BACKEND);
    assert_eq!(next.stage, Stage::NoBackend);
    assert_eq!(
        next.action,
        text_reply(500, "No backend found for service svc.  (dumbrouter/0.1.0)")
    );
    let stage = awaiting_registry("a.b", Method::Get, "a.b.example.com", "");
    let empty = step(stage, Event::RegistryListed { workloads: vec![] }, BACKEND);
    assert_eq!(empty.stage, Stage::NoBackend);
    assert_eq!(
        empty.action,
        text_reply(500, "No backend found for service a.b.  (dumbrouter/0.1.0)")
    );
}

#[test]
fn request_is_forwarded_to_the_published_port() {
    let configured = backend_host(Some("172.17.0.1".to_string()));
    let first = step(
        Stage::Start,
        request(Method::Post, "svc.example.com", "api/items?page=2"),
        &configured,
    );
    assert_eq!(
        first.stage,
        awaiting_registry("svc", Method::Post, "svc.example.com", "api/items?page=2")
    );
    assert_eq!(first.action, Action::ListRunningWorkloads { query: running_query() });

    let listing = vec![container("/http-prod-svc", 80, 49200)];
    let second = step(first.stage, Event::RegistryListed { workloads: listing }, &configured);
    assert_eq!(second.stage, Stage::Forward);
    assert_eq!(
        second.action,
        Action::Forward {
            request: OutboundRequest {
                method: Method::Post,
                url: "http://172.17.0.1:49200/api/items?page=2".to_string(),
                headers: sample_headers(),
                body: Some(b"{\"name\":\"x\"}".to_vec()),
            }
        }
    );
    assert!(second.warnings.is_empty());

    let response = ProxiedResponse {
        status: 201,
        headers: vec![
            ("content-type".to_string(), b"application/json".to_vec()),
            ("set-cookie".to_string(), b"a=1".to_vec()),
            ("set-cookie".to_string(), b"b=2".to_vec()),
        ],
        body: b"{\"id\":7}".to_vec(),
    };
    let third =
        step(second.stage, Event::BackendAnswered { response: response.clone() }, &configured);
    assert_eq!(third.stage, Stage::Respond);
    assert_eq!(third.action, Action::Relay { response });
}

#[test]
fn request_is_forwarded_to_the_default_host() {
    let host = backend_host(None);
    let listing = vec![container("/http-prod-svc", 80, 49200)];
    let stage = awaiting_registry("svc", Method::Get, "svc.example.com", "");
    let next = step(stage, Event::RegistryListed { workloads: listing }, &host);
    match next.action {
        Action::Forward { request } => {
            assert_eq!(request.url, "http://host.docker.internal:49200/");
            assert_eq!(request.method, Method::Get);
        }
        other => panic!("not forwarded: {:?}", other),
    }
}

#[test]
fn request_without_body_is_forwarded_without_body() {
    let bare = ProxiedRequest {
        method: Method::Head,
        host: "svc.example.com".to_string(),
        path: "status".to_string(),
        headers: vec![],
        body: None,
    };
    let endpoint = BackendEndpoint { host: "10.1.2.3".to_string(), port: 8081 };
    assert_eq!(
        outbound_request(bare, &endpoint),
        OutboundRequest {
            method: Method::Head,
            url: "http://10.1.2.3:8081/status".to_string(),
            headers: vec![],
            body: None,
        }
    );
}

#[test]
fn outbound_request_keeps_method_headers_and_body() {
    let endpoint = BackendEndpoint { host: "10.1.2.3".to_string(), port: 8081 };
    let sent = outbound_request(incoming(Method::Put, "svc.example.com", "a/b"), &endpoint);
    assert_eq!(sent.method, Method::Put);
    assert_eq!(sent.url, "http://10.1.2.3:8081/a/b");
    assert_eq!(sent.headers, sample_headers());
    assert_eq!(sent.body, Some(b"{\"name\":\"x\"}".to_vec()));
}

#[test]
fn listing_warnings_are_handed_on() {
    let listing = vec![
        WorkloadRecord { names: vec!["/http-svc".to_string()], ports: vec![] },
        container("/http-svc-2", 8080, 49300),
    ];
    let stage = awaiting_registry("svc", Method::Get, "svc.example.com", "x");
    let next = step(stage, Event::RegistryListed { workloads: listing }, BACKEND);
    assert_eq!(next.stage, Stage::Forward);
    match next.action {
        Action::Forward { request } => {
            assert_eq!(request.url, "http://host.docker.internal:49300/x")
        }
        other => panic!("not forwarded: {:?}", other),
    }
    assert_eq!(next.warnings, vec![Warning::NoPublishedPort { name: "/http-svc".to_string() }]);
}

#[test]
fn backend_failure_is_an_internal_error() {
    let next = step(Stage::Forward, Event::BackendFailed, BACKEND);
    assert_eq!(next.stage, Stage::ForwardFailure);
    assert_eq!(next.action, text_reply(500, "Internal Server Error (dumbrouter/0.1.0)"));
}

#[test]
fn final_stages_ignore_every_event() {
    let finals = [
        Stage::Respond,
        Stage::Unsupported,
        Stage::RegistryFailure,
        Stage::NoBackend,
        Stage::ForwardFailure,
    ];
    for stage in finals {
        let events = [
            request(Method::Get, "svc.example.com", ""),
            Event::RegistryListed { workloads: vec![container("/http-svc", 80, 1)] },
            Event::RegistryFailed,
            Event::BackendAnswered {
                response: ProxiedResponse { status: 200, headers: vec![], body: vec![] },
            },
            Event::BackendFailed,
        ];
        for event in events {
            let next = step(stage.clone(), event, BACKEND);
            assert_eq!(next.stage, stage);
            assert_eq!(next.action, Action::Ignore);
            assert!(next.warnings.is_empty());
        }
    }
}

#[test]
fn events_out_of_turn_are_ignored() {
    let answered = Event::BackendAnswered {
        response: ProxiedResponse { status: 200, headers: vec![], body: vec![] },
    };
    let next = step(Stage::Start, answered, BACKEND);
    assert_eq!((next.stage, next.action), (Stage::Start, Action::Ignore));
    let next = step(Stage::Start, Event::RegistryFailed, BACKEND);
    assert_eq!((next.stage, next.action), (Stage::Start, Action::Ignore));
    let waiting = awaiting_registry("svc", Method::Get, "svc.example.com", "");
    let next = step(waiting.clone(), Event::BackendFailed, BACKEND);
    assert_eq!((next.stage, next.action), (waiting.clone(), Action::Ignore));
    let next = step(waiting.clone(), request(Method::Get, "x.y.z", ""), BACKEND);
    assert_eq!((next.stage, next.action), (waiting, Action::Ignore));
    let next = step(Stage::Forward, Event::RegistryListed { workloads: vec![] }, BACKEND);
    assert_eq!((next.stage, next.action), (Stage::Forward, Action::Ignore));
}

#[test]
fn proceed_forwards_or_fails() {
    let endpoint = BackendEndpoint { host: "10.1.2.3".to_string(), port: 8081 };
    let (stage, action) =
        proceed("svc", incoming(Method::Get, "svc.example.com", "index.html"), Some(endpoint));
    assert_eq!(stage, Stage::Forward);
    assert_eq!(
        action,
        Action::Forward {
            request: OutboundRequest {
                method: Method::Get,
                url: "http://10.1.2.3:8081/index.html".to_string(),
                headers: sample_headers(),
                body: Some(b"{\"name\":\"x\"}".to_vec()),
            }
        }
    );
    assert_eq!(
        proceed("svc", incoming(Method::Get, "svc.example.com", "index.html"), None),
        (
            Stage::NoBackend,
            text_reply(500, "No backend found for service svc.  (dumbrouter/0.1.0)")
        )
    );
}

#[test]
fn replies_carry_the_version_tag() {
    assert_eq!(VERSION, "0.1.0");
    assert_eq!(
        internal_error(),
        Reply { status: 500, body: format!("Internal Server Error (dumbrouter/{})", VERSION) }
    );
    assert_eq!(
        no_backend("shop"),
        Reply {
            status: 500,
            body: format!("No backend found for service shop.  (dumbrouter/{})", VERSION)
        }
    );
    assert_eq!(
        unsupported_method(),
        Reply {
            status: 501,
            body: format!("This method is not supported.  (dumbrouter/{})", VERSION)
        }
    );
}

#[test]
fn backend_host_defaults_to_the_docker_alias() {
    assert_eq!(DEFAULT_BACKEND_HOST, "host.docker.internal");
    assert_eq!(backend_host(None), "host.docker.internal");
    assert_eq!(backend_host(Some("127.0.0.1".to_string())), "127.0.0.1");
    assert_eq!(backend_host(Some(String::new())), "");
}

#[test]
fn methods_are_found_by_name() {
    assert_eq!(Method::from_name("GET"), Some(Method::Get));
    assert_eq!(Method::from_name("POST"), Some(Method::Post));
    assert_eq!(Method::from_name("PUT"), Some(Method::Put));
    assert_eq!(Method::from_name("DELETE"), Some(Method::Delete));
    assert_eq!(Method::from_name("HEAD"), Some(Method::Head));
    assert_eq!(Method::from_name("OPTIONS"), Some(Method::Options));
    assert_eq!(Method::from_name("CONNECT"), Some(Method::Connect));
    assert_eq!(Method::from_name("TRACE"), Some(Method::Trace));
    assert_eq!(Method::from_name("PATCH"), None);
    assert_eq!(Method::from_name("get"), None);
    assert_eq!(Method::from_name(""), None);
    assert_eq!(Method::from_name("GET "), None);
}

#[test]
fn method_table_classifies_every_method() {
    let table = method_table();
    assert_eq!(
        table,
        vec![
            (Method::Get, MethodClass::Forwarded),
            (Method::Post, MethodClass::Forwarded),
            (Method::Put, MethodClass::Forwarded),
            (Method::Delete, MethodClass::Forwarded),
            (Method::Head, MethodClass::Forwarded),
            (Method::Options, MethodClass::Forwarded),
            (Method::Connect, MethodClass::Unsupported),
            (Method::Trace, MethodClass::Unsupported),
        ]
    );
    for (method, class) in table {
        assert_eq!(method.class(), class);
        assert_eq!(Method::from_name(method.name()), Some(method));
    }
}

#[test]
fn endpoint_is_written_as_host_and_port() {
    let endpoint = BackendEndpoint { host: "host.docker.internal".to_string(), port: 49200 };
    assert_eq!(endpoint.authority(), "host.docker.internal:49200");
    assert_eq!(endpoint.url_for("a/b"), "http://host.docker.internal:49200/a/b");
    assert_eq!(endpoint.url_for(""), "http://host.docker.internal:49200/");
    assert_eq!(endpoint.url_for("/x"), "http://host.docker.internal:49200//x");
    let odd = BackendEndpoint { host: String::new(), port: -1 };
    assert_eq!(odd.authority(), ":-1");
    let zero = BackendEndpoint { host: "h".to_string(), port: 0 };
    assert_eq!(zero.authority(), "h:0");
}
