//! Request dispatch: what the router does with one request, step by step.
//!
//! The dispatcher is a state machine. It is handed what happened (a request
//! came in, the registry answered, the backend answered) and says what to do
//! next; it performs no I/O itself. A request runs from `Start` through
//! `QueryRegistry` and `Forward` to `Respond`, or ends early in one of
//! `Unsupported`, `RegistryFailure`, `NoBackend` and `ForwardFailure`.

use crate::endpoint::{target_url, BackendEndpoint, EndpointView};
use crate::forward::{
    outbound, outbound_request, OutboundRequest, OutboundView, ProxiedRequest, ProxiedResponse,
    RequestView, ResponseView,
};
use crate::method::{method_class, MethodClass};
use crate::registry::{
    running_query, running_workloads_query, RegistryQuery, RegistryQueryView, WorkloadRecord,
    WorkloadView,
};
use crate::reply::{
    internal_error, internal_error_reply, no_backend, no_backend_reply, unsupported_method,
    unsupported_reply, version_tag, Reply, ReplyView,
};
use crate::resolver::{routed_service, service_for_host};
use crate::selector::{admissible, candidates, select_backend, warnings, Warning, WarningView};
use vstd::prelude::*;
use vstd::string::StringExecFns;

verus! {

/// The host that backends are reached at unless another is configured: this
/// machine, as seen from inside a container.
pub const DEFAULT_BACKEND_HOST: &'static str = "host.docker.internal";

/// The host that backends are reached at: the configured one, or the
/// default where none is configured.
pub fn backend_host(configured: Option<String>) -> (host: String)
    ensures
        host@ == match configured {
            Some(value) => value@,
            None => DEFAULT_BACKEND_HOST@,
        },
{
    match configured {
        Some(value) => value,
        None => String::from_str(DEFAULT_BACKEND_HOST),
    }
}

/// Where a request stands.
#[derive(Clone, Debug, PartialEq, Eq)]
pub enum Stage {
    /// Nothing is known of the request yet.
    Start,
    /// The service is resolved; the registry's listing is awaited.
    QueryRegistry { service: String, request: ProxiedRequest },
    /// A backend is selected and the request sent; its response is awaited.
    Forward,
    /// The backend's response was relayed. Final.
    Respond,
    /// The request's method is not supported. Final.
    Unsupported,
    /// The registry could not be queried. Final.
    RegistryFailure,
    /// No running workload serves the service. Final.
    NoBackend,
    /// The backend could not be reached, or its response not be read. Final.
    ForwardFailure,
}

/// The view of a `Stage`.
pub enum StageView {
    Start,
    QueryRegistry { service: Seq<char>, request: RequestView },
    Forward,
    Respond,
    Unsupported,
    RegistryFailure,
    NoBackend,
    ForwardFailure,
}

impl View for Stage {
    type V = StageView;

    open spec fn view(&self) -> StageView {
        match self {
            Stage::Start => StageView::Start,
            Stage::QueryRegistry { service, request } => StageView::QueryRegistry {
                service: service@,
                request: request@,
            },
            Stage::Forward => StageView::Forward,
            Stage::Respond => StageView::Respond,
            Stage::Unsupported => StageView::Unsupported,
            Stage::RegistryFailure => StageView::RegistryFailure,
            Stage::NoBackend => StageView::NoBackend,
            Stage::ForwardFailure => StageView::ForwardFailure,
        }
    }
}

/// What happened to a request.
#[derive(Clone, Debug, PartialEq, Eq)]
pub enum Event {
    /// It came in.
    Request { request: ProxiedRequest },
    /// The registry listed the running workloads.
    RegistryListed { workloads: Vec<WorkloadRecord> },
    /// The registry could not be queried.
    RegistryFailed,
    /// The backend's response was received in full.
    BackendAnswered { response: ProxiedResponse },
    /// The backend could not be reached, or its response not be read.
    BackendFailed,
}

/// The view of an `Event`.
pub enum EventView {
    Request { request: RequestView },
    RegistryListed { workloads: Seq<WorkloadView> },
    RegistryFailed,
    BackendAnswered { response: ResponseView },
    BackendFailed,
}

impl View for Event {
    type V = EventView;

    open spec fn view(&self) -> EventView {
        match self {
            Event::Request { request } => EventView::Request { request: request@ },
            Event::RegistryListed { workloads } => EventView::RegistryListed {
                workloads: workloads.deep_view(),
            },
            Event::RegistryFailed => EventView::RegistryFailed,
            Event::BackendAnswered { response } => EventView::BackendAnswered {
                response: response@,
            },
            Event::BackendFailed => EventView::BackendFailed,
        }
    }
}

/// What is to be done for a request.
#[derive(Clone, Debug, PartialEq, Eq)]
pub enum Action {
    /// Ask the registry for the workloads that pass this query.
    ListRunningWorkloads { query: RegistryQuery },
    /// Send this to the backend.
    Forward { request: OutboundRequest },
    /// Answer with the backend's response.
    Relay { response: ProxiedResponse },
    /// Answer with this reply of the router's own.
    Reply { reply: Reply },
    /// Nothing: the event does not belong to the stage.
    Ignore,
}

/// The view of an `Action`.
pub enum ActionView {
    ListRunningWorkloads { query: RegistryQueryView },
    Forward { request: OutboundView },
    Relay { response: ResponseView },
    Reply { reply: ReplyView },
    Ignore,
}

impl View for Action {
    type V = ActionView;

    open spec fn view(&self) -> ActionView {
        match self {
            Action::ListRunningWorkloads { query } => ActionView::ListRunningWorkloads {
                query: query@,
            },
            Action::Forward { request } => ActionView::Forward { request: request@ },
            Action::Relay { response } => ActionView::Relay { response: response@ },
            Action::Reply { reply } => ActionView::Reply { reply: reply@ },
            Action::Ignore => ActionView::Ignore,
        }
    }
}

/// Whether a stage is final: no event leads out of it.
pub open spec fn is_final(stage: StageView) -> bool {
    !(stage is Start || stage is QueryRegistry || stage is Forward)
}

/// Where a request goes once a backend is selected, or none is.
pub open spec fn after_selection(
    service: Seq<char>,
    request: RequestView,
    chosen: Option<EndpointView>,
) -> (StageView, ActionView) {
    match chosen {
        Some(endpoint) => (
            StageView::Forward,
            ActionView::Forward { request: outbound(request, endpoint) },
        ),
        None => (StageView::NoBackend, ActionView::Reply { reply: no_backend_reply(service) }),
    }
}

/// The stage that follows `stage` on `event`, and the action to take, where
/// `chosen` is the backend that the selector settles on (it matters only
/// when the registry's listing arrives).
pub open spec fn transition(
    stage: StageView,
    event: EventView,
    chosen: Option<EndpointView>,
) -> (StageView, ActionView) {
    match (stage, event) {
        (StageView::Start, EventView::Request { request }) => match method_class(request.method) {
            MethodClass::Unsupported => (
                StageView::Unsupported,
                ActionView::Reply { reply: unsupported_reply() },
            ),
            MethodClass::Forwarded => (
                StageView::QueryRegistry { service: routed_service(request.host), request },
                ActionView::ListRunningWorkloads { query: running_query() },
            ),
        },
        (
            StageView::QueryRegistry { service, request },
            EventView::RegistryListed { workloads },
        ) => after_selection(service, request, chosen),
        (StageView::QueryRegistry { .. }, EventView::RegistryFailed) => (
            StageView::RegistryFailure,
            ActionView::Reply { reply: internal_error_reply() },
        ),
        (StageView::Forward, EventView::BackendAnswered { response }) => (
            StageView::Respond,
            ActionView::Relay { response },
        ),
        (StageView::Forward, EventView::BackendFailed) => (
            StageView::ForwardFailure,
            ActionView::Reply { reply: internal_error_reply() },
        ),
        _ => (stage, ActionView::Ignore),
    }
}

/// Whether the selector may settle on `chosen` at this step: when the
/// registry's listing arrives, on one of the endpoints that it offers for the
/// service, or on none where it offers none; at every other step on none.
pub open spec fn may_choose(
    stage: StageView,
    event: EventView,
    backend_host: Seq<char>,
    chosen: Option<EndpointView>,
) -> bool {
    match (stage, event) {
        (
            StageView::QueryRegistry { service, request },
            EventView::RegistryListed { workloads },
        ) => admissible(candidates(service, workloads, backend_host), chosen),
        _ => chosen is None,
    }
}

/// The warnings that a step gives rise to: those of the listing, when it
/// arrives.
pub open spec fn raised(stage: StageView, event: EventView) -> Seq<WarningView> {
    match (stage, event) {
        (
            StageView::QueryRegistry { service, request },
            EventView::RegistryListed { workloads },
        ) => warnings(service, workloads),
        _ => Seq::empty(),
    }
}

/// A request of an unsupported method is answered at once with the fixed
/// reply, whatever else it holds, and that is the end of it: neither the
/// resolver nor the selector has a say, and nothing is forwarded.
pub proof fn lemma_unsupported_method_bypasses_routing(
    request: RequestView,
    chosen: Option<EndpointView>,
)
    requires
        request.method is Connect || request.method is Trace,
    ensures
        transition(StageView::Start, EventView::Request { request }, chosen) == (
            StageView::Unsupported,
            ActionView::Reply { reply: unsupported_reply() },
        ),
        is_final(StageView::Unsupported),
{
}

/// No event leads out of a final stage, and none has an effect there.
pub proof fn lemma_final_stage_stays(
    stage: StageView,
    event: EventView,
    chosen: Option<EndpointView>,
)
    requires
        is_final(stage),
    ensures
        transition(stage, event, chosen) == (stage, ActionView::Ignore),
{
}

/// Where a listing offers no endpoint for the service, the request ends in
/// `NoBackend`, answered with a failure that names the service.
pub proof fn lemma_no_candidate_ends_in_no_backend(
    service: Seq<char>,
    request: RequestView,
    workloads: Seq<WorkloadView>,
    backend_host: Seq<char>,
    chosen: Option<EndpointView>,
)
    requires
        candidates(service, workloads, backend_host).len() == 0,
        may_choose(
            StageView::QueryRegistry { service, request },
            EventView::RegistryListed { workloads },
            backend_host,
            chosen,
        ),
    ensures
        transition(
            StageView::QueryRegistry { service, request },
            EventView::RegistryListed { workloads },
            chosen,
        ) == (StageView::NoBackend, ActionView::Reply { reply: no_backend_reply(service) }),
        no_backend_reply(service).status == 500,
        no_backend_reply(service).body == "No backend found for service "@ + service + ".  "@
            + version_tag(),
{
}

/// Where a listing offers exactly one endpoint for the service, the request
/// is forwarded to it, with its method, headers and body as they came.
pub proof fn lemma_sole_candidate_is_forwarded_to(
    service: Seq<char>,
    request: RequestView,
    workloads: Seq<WorkloadView>,
    backend_host: Seq<char>,
    chosen: Option<EndpointView>,
)
    requires
        candidates(service, workloads, backend_host).len() == 1,
        may_choose(
            StageView::QueryRegistry { service, request },
            EventView::RegistryListed { workloads },
            backend_host,
            chosen,
        ),
    ensures
        transition(
            StageView::QueryRegistry { service, request },
            EventView::RegistryListed { workloads },
            chosen,
        ) == (
            StageView::Forward,
            ActionView::Forward {
                request: OutboundView {
                    method: request.method,
                    url: target_url(
                        candidates(service, workloads, backend_host)[0],
                        request.path,
                    ),
                    headers: request.headers,
                    body: request.body,
                },
            },
        ),
{
}

/// A backend's response is relayed as it came: the same status, headers and
/// body.
pub proof fn lemma_response_is_relayed_unchanged(
    response: ResponseView,
    chosen: Option<EndpointView>,
)
    ensures
        transition(StageView::Forward, EventView::BackendAnswered { response }, chosen) == (
            StageView::Respond,
            ActionView::Relay { response },
        ),
{
}

/// Where a request goes once a backend is selected, or none is.
pub fn proceed(service: &str, request: ProxiedRequest, backend: Option<BackendEndpoint>) -> (next:
    (Stage, Action))
    ensures
        (next.0@, next.1@) == after_selection(service@, request@, backend.deep_view()),
{
    match backend {
        Some(endpoint) => (
            Stage::Forward,
            Action::Forward { request: outbound_request(request, &endpoint) },
        ),
        None => (Stage::NoBackend, Action::Reply { reply: no_backend(service) }),
    }
}

/// What a step comes to.
#[derive(Clone, Debug, PartialEq, Eq)]
pub struct Step {
    /// Where the request stands now.
    pub stage: Stage,
    /// What is to be done.
    pub action: Action,
    /// What is to be reported.
    pub warnings: Vec<Warning>,
}

/// Takes a request one step further: from where it stands and what happened
/// to where it stands next and what is to be done. Backends are reached at
/// `backend_host`.
///
/// Every step but one is determined by the stage and the event. When the
/// registry's listing arrives, the backend is drawn at random among the
/// endpoints that the listing offers: the step is then the transition for
/// one of them.
pub fn step(stage: Stage, event: Event, backend_host: &str) -> (next: Step)
    ensures
        exists|chosen: Option<EndpointView>|
            #[trigger] may_choose(stage@, event@, backend_host@, chosen) && (
                next.stage@,
                next.action@,
            ) == transition(stage@, event@, chosen),
        next.warnings.deep_view() == raised(stage@, event@),
{
    match (stage, event) {
        (Stage::Start, Event::Request { request }) => {
            assert(may_choose(stage@, event@, backend_host@, None));
            match request.method.class() {
                MethodClass::Unsupported => Step {
                    stage: Stage::Unsupported,
                    action: Action::Reply { reply: unsupported_method() },
                    warnings: Vec::new(),
                },
                MethodClass::Forwarded => Step {
                    stage: Stage::QueryRegistry {
                        service: service_for_host(request.host.as_str()),
                        request,
                    },
                    action: Action::ListRunningWorkloads { query: running_workloads_query() },
                    warnings: Vec::new(),
                },
            }
        },
        (Stage::QueryRegistry { service, request }, Event::RegistryListed { workloads }) => {
            let selection = select_backend(service.as_str(), &workloads, backend_host);
            assert(may_choose(stage@, event@, backend_host@, selection.backend.deep_view()));
            let (stage, action) = proceed(service.as_str(), request, selection.backend);
            Step { stage, action, warnings: selection.warnings }
        },
        (Stage::QueryRegistry { .. }, Event::RegistryFailed) => {
            assert(may_choose(stage@, event@, backend_host@, None));
            Step {
                stage: Stage::RegistryFailure,
                action: Action::Reply { reply: internal_error() },
                warnings: Vec::new(),
            }
        },
        (Stage::Forward, Event::BackendAnswered { response }) => {
            assert(may_choose(stage@, event@, backend_host@, None));
            Step { stage: Stage::Respond, action: Action::Relay { response }, warnings: Vec::new() }
        },
        (Stage::Forward, Event::BackendFailed) => {
            assert(may_choose(stage@, event@, backend_host@, None));
            Step {
                stage: Stage::ForwardFailure,
                action: Action::Reply { reply: internal_error() },
                warnings: Vec::new(),
            }
        },
        (stage, _) => {
            assert(may_choose(stage@, event@, backend_host@, None));
            Step { stage, action: Action::Ignore, warnings: Vec::new() }
        },
    }
}

} // verus!
