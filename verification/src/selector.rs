//! Backend selection: which running workloads may serve a service, and
//! which one of them does.
//!
//! A workload serves a service when it goes by exactly one name, that name
//! begins with `/http-` or `/http-prod-` followed by the service, and one of
//! its published ports is bound to a host address and a host port. Only the
//! beginning of the name is compared: a workload that serves `foobar` serves
//! `foo` as well. The first bound port of a workload is the one used. Among
//! the workloads that qualify, one is drawn at random.

use crate::text::{append_decimal, decimal, starts_with};
use crate::endpoint::{BackendEndpoint, EndpointView};
use crate::registry::{PortMapping, PortMappingView, WorkloadRecord, WorkloadView};
use vstd::prelude::*;
use vstd::string::StringExecFns;

verus! {

/// What a name must begin with to address `service`.
pub open spec fn base_prefix(service: Seq<char>) -> Seq<char> {
    "/http-"@ + service
}

/// The other beginning that addresses `service`.
pub open spec fn prod_prefix(service: Seq<char>) -> Seq<char> {
    "/http-prod-"@ + service
}

/// Whether a workload's name addresses `service`.
pub open spec fn name_addresses(name: Seq<char>, service: Seq<char>) -> bool {
    base_prefix(service).is_prefix_of(name) || prod_prefix(service).is_prefix_of(name)
}

/// Whether a workload goes by exactly one name, and that name addresses
/// `service`.
pub open spec fn addresses(workload: WorkloadView, service: Seq<char>) -> bool {
    workload.names.len() == 1 && name_addresses(workload.names[0], service)
}

/// The host port of a mapping that is bound to both a host address and a
/// host port.
pub open spec fn bound_port(mapping: PortMappingView) -> Option<i64> {
    if mapping.ip is Some && mapping.public_port is Some {
        mapping.public_port
    } else {
        None
    }
}

/// The host ports of the bound mappings among `ports`, in their order.
pub open spec fn host_ports(ports: Seq<PortMappingView>) -> Seq<i64> {
    ports.filter_map(|mapping: PortMappingView| bound_port(mapping))
}

/// What the selector finds of one workload.
#[derive(Clone, Copy, Debug, PartialEq, Eq, Structural)]
pub enum Verdict {
    /// It does not go by exactly one name, or the name does not address the
    /// service. Nothing is reported.
    NotAddressed,
    /// Its name addresses the service, but it publishes no port.
    NoPublishedPort,
    /// Its name addresses the service and it publishes ports, but too few
    /// of them are bound to the host: `found` are.
    NoEligiblePort { found: usize },
    /// It serves the service on the host port `port`.
    Eligible { port: i64 },
}

/// The verdict on `workload` for `service`.
pub open spec fn verdict(service: Seq<char>, workload: WorkloadView) -> Verdict {
    if !addresses(workload, service) {
        Verdict::NotAddressed
    } else if workload.ports.len() == 0 {
        Verdict::NoPublishedPort
    } else if host_ports(workload.ports).len() < 1 {
        Verdict::NoEligiblePort { found: host_ports(workload.ports).len() as usize }
    } else {
        Verdict::Eligible { port: host_ports(workload.ports)[0] }
    }
}

/// A diagnostic on a workload that was passed over although its name
/// addresses the service.
#[derive(Clone, Debug, PartialEq, Eq)]
pub enum Warning {
    NoPublishedPort { name: String },
    NoEligiblePort { name: String, found: usize },
}

/// The view of a `Warning`.
pub enum WarningView {
    NoPublishedPort { name: Seq<char> },
    NoEligiblePort { name: Seq<char>, found: usize },
}

impl View for Warning {
    type V = WarningView;

    open spec fn view(&self) -> WarningView {
        match self {
            Warning::NoPublishedPort { name } => WarningView::NoPublishedPort { name: name@ },
            Warning::NoEligiblePort { name, found } => WarningView::NoEligiblePort {
                name: name@,
                found: *found,
            },
        }
    }
}

impl DeepView for Warning {
    type V = WarningView;

    open spec fn deep_view(&self) -> WarningView {
        self@
    }
}

/// The line that reports a warning.
pub open spec fn warning_text(warning: WarningView) -> Seq<char> {
    match warning {
        WarningView::NoPublishedPort { name } => "WARN: Container "@ + name
            + " is http, but has no port!"@,
        WarningView::NoEligiblePort { name, found } => "WARN: Container "@ + name
            + " needs 1 eligible port, but has "@ + decimal(found as nat) + "!"@,
    }
}

/// The endpoint that `workload` offers for `service`, if it serves it. The
/// host is always `backend_host`, never the address that the port is bound
/// to.
pub open spec fn candidate(
    service: Seq<char>,
    workload: WorkloadView,
    backend_host: Seq<char>,
) -> Option<EndpointView> {
    match verdict(service, workload) {
        Verdict::Eligible { port } => Some(EndpointView { host: backend_host, port }),
        _ => None,
    }
}

/// The warning that `workload` gives rise to for `service`, if any.
pub open spec fn warning(service: Seq<char>, workload: WorkloadView) -> Option<WarningView> {
    match verdict(service, workload) {
        Verdict::NoPublishedPort => Some(WarningView::NoPublishedPort { name: workload.names[0] }),
        Verdict::NoEligiblePort { found } => Some(
            WarningView::NoEligiblePort { name: workload.names[0], found },
        ),
        _ => None,
    }
}

/// The endpoints that a listing offers for `service`: one for each workload
/// that serves it, in the listing's order.
pub open spec fn candidates(
    service: Seq<char>,
    workloads: Seq<WorkloadView>,
    backend_host: Seq<char>,
) -> Seq<EndpointView> {
    workloads.filter_map(|workload: WorkloadView| candidate(service, workload, backend_host))
}

/// The warnings that a listing gives rise to for `service`, in the listing's
/// order.
pub open spec fn warnings(service: Seq<char>, workloads: Seq<WorkloadView>) -> Seq<WarningView> {
    workloads.filter_map(|workload: WorkloadView| warning(service, workload))
}

/// Whether `chosen` is a possible outcome of selecting among `offered`:
/// nothing exactly when nothing is offered, else one of them.
pub open spec fn admissible(offered: Seq<EndpointView>, chosen: Option<EndpointView>) -> bool {
    match chosen {
        Some(endpoint) => offered.contains(endpoint),
        None => offered.len() == 0,
    }
}

/// The endpoint at the drawn position, if there is one.
pub open spec fn picked(offered: Seq<EndpointView>, drawn: Option<usize>) -> Option<EndpointView> {
    match drawn {
        Some(position) => if position < offered.len() {
            Some(offered[position as int])
        } else {
            None
        },
        None => None,
    }
}

/// A name that is `/http-` or `/http-prod-`, then the service, then anything
/// at all, addresses the service.
pub proof fn lemma_prefixed_names_address(service: Seq<char>, rest: Seq<char>)
    ensures
        name_addresses("/http-"@ + service + rest, service),
        name_addresses("/http-prod-"@ + service + rest, service),
{
    let base = base_prefix(service);
    let prod = prod_prefix(service);
    assert((base + rest).subrange(0, base.len() as int) == base);
    assert((prod + rest).subrange(0, prod.len() as int) == prod);
}

/// A name that does not begin with `/http-` addresses no service.
pub proof fn lemma_unprefixed_names_address_nothing(name: Seq<char>, service: Seq<char>)
    requires
        !"/http-"@.is_prefix_of(name),
    ensures
        !name_addresses(name, service),
{
    reveal_strlit("/http-");
    reveal_strlit("/http-prod-");
    let stem = "/http-"@;
    if base_prefix(service).is_prefix_of(name) {
        let base = base_prefix(service);
        assert(name.subrange(0, base.len() as int).subrange(0, 6) == name.subrange(0, 6));
        assert(base.subrange(0, 6) == stem);
    }
    if prod_prefix(service).is_prefix_of(name) {
        let prod = prod_prefix(service);
        assert(name.subrange(0, prod.len() as int).subrange(0, 6) == name.subrange(0, 6));
        assert(prod.subrange(0, 6) == stem);
    }
}

/// A workload that does not go by exactly one name is never eligible,
/// whatever its names and ports are, and nothing is reported of it.
pub proof fn lemma_one_name_required(
    service: Seq<char>,
    workload: WorkloadView,
    backend_host: Seq<char>,
)
    requires
        workload.names.len() != 1,
    ensures
        verdict(service, workload) is NotAddressed,
        candidate(service, workload, backend_host) is None,
        warning(service, workload) is None,
{
}

/// Ports of which none is bound to both a host address and a host port
/// yield no host port. This holds of no ports at all, too.
pub proof fn lemma_no_bound_port(ports: Seq<PortMappingView>)
    requires
        forall|i: int| 0 <= i < ports.len() ==> bound_port(#[trigger] ports[i]) is None,
    ensures
        host_ports(ports).len() == 0,
    decreases ports.len(),
{
    if ports.len() > 0 {
        lemma_no_bound_port(ports.drop_last());
    }
}

/// The port that a workload is reached at is the host port of its first
/// bound mapping.
pub proof fn lemma_first_bound_port(ports: Seq<PortMappingView>, first: int)
    requires
        0 <= first < ports.len(),
        bound_port(ports[first]) is Some,
        forall|i: int| 0 <= i < first ==> bound_port(#[trigger] ports[i]) is None,
    ensures
        host_ports(ports).len() >= 1,
        Some(host_ports(ports)[0]) == ports[first].public_port,
    decreases ports.len(),
{
    let rest = ports.drop_last();
    if first == ports.len() - 1 {
        lemma_no_bound_port(rest);
    } else {
        lemma_first_bound_port(rest, first);
    }
}

/// A workload without a port that is bound to both a host address and a
/// host port is never eligible. Where its name addresses the service, a
/// warning reports it: that it has no port, where it publishes none, else
/// that none of its ports is eligible.
pub proof fn lemma_unbound_workload_excluded(
    service: Seq<char>,
    workload: WorkloadView,
    backend_host: Seq<char>,
)
    requires
        forall|i: int|
            0 <= i < workload.ports.len() ==> bound_port(#[trigger] workload.ports[i]) is None,
    ensures
        candidate(service, workload, backend_host) is None,
        addresses(workload, service) && workload.ports.len() == 0 ==> warning(service, workload)
            == Some(WarningView::NoPublishedPort { name: workload.names[0] }),
        addresses(workload, service) && workload.ports.len() > 0 ==> warning(service, workload)
            == Some(WarningView::NoEligiblePort { name: workload.names[0], found: 0 }),
        !addresses(workload, service) ==> warning(service, workload) is None,
{
    lemma_no_bound_port(workload.ports);
}

/// One more workload at the end of a listing adds its endpoint, if it
/// offers one, behind those of the others, and its warning, if it gives rise
/// to one, behind theirs. A workload that is passed over changes nothing.
pub proof fn lemma_listing_extended(
    service: Seq<char>,
    workloads: Seq<WorkloadView>,
    workload: WorkloadView,
    backend_host: Seq<char>,
)
    ensures
        candidates(service, workloads.push(workload), backend_host) == candidates(
            service,
            workloads,
            backend_host,
        ) + match candidate(service, workload, backend_host) {
            Some(endpoint) => seq![endpoint],
            None => Seq::empty(),
        },
        warnings(service, workloads.push(workload)) == warnings(service, workloads)
            + match warning(service, workload) {
            Some(raised) => seq![raised],
            None => Seq::empty(),
        },
{
    assert(workloads.push(workload).drop_last() == workloads);
}

/// Every endpoint that a listing offers stands at the configured host.
pub proof fn lemma_candidates_at_backend_host(
    service: Seq<char>,
    workloads: Seq<WorkloadView>,
    backend_host: Seq<char>,
)
    ensures
        forall|i: int|
            0 <= i < candidates(service, workloads, backend_host).len() ==> (
            #[trigger] candidates(service, workloads, backend_host)[i]).host == backend_host,
    decreases workloads.len(),
{
    if workloads.len() > 0 {
        lemma_candidates_at_backend_host(service, workloads.drop_last(), backend_host);
        let all = candidates(service, workloads, backend_host);
        let before = candidates(service, workloads.drop_last(), backend_host);
        assert forall|i: int| 0 <= i < all.len() implies (#[trigger] all[i]).host
            == backend_host by {
            if i < before.len() {
                assert(all[i] == before[i]);
            }
        }
    }
}

/// Where exactly one endpoint is offered, every admissible selection is that
/// endpoint: the choice is then no matter of chance.
pub proof fn lemma_sole_candidate(offered: Seq<EndpointView>, chosen: Option<EndpointView>)
    requires
        offered.len() == 1,
        admissible(offered, chosen),
    ensures
        chosen == Some(offered[0]),
{
}

/// Picking at a position drawn below the number of endpoints offered is an
/// admissible selection.
pub proof fn lemma_picked_is_admissible(offered: Seq<EndpointView>, drawn: Option<usize>)
    requires
        drawn is None <==> offered.len() == 0,
        drawn matches Some(position) ==> position < offered.len(),
    ensures
        admissible(offered, picked(offered, drawn)),
{
}

impl Warning {
    /// The line that reports this warning.
    pub fn message(&self) -> (text: String)
        ensures
            text@ == warning_text(self@),
    {
        let mut text = String::from_str("WARN: Container ");
        match self {
            Warning::NoPublishedPort { name } => {
                text.append(name.as_str());
                text.append(" is http, but has no port!");
            },
            Warning::NoEligiblePort { name, found } => {
                text.append(name.as_str());
                text.append(" needs 1 eligible port, but has ");
                append_decimal(&mut text, *found as u64);
                text.append("!");
            },
        }
        assert(text@ =~= warning_text(self@));
        text
    }
}

/// Whether a workload's name addresses `service`.
pub fn name_matches(name: &str, service: &str) -> (matches: bool)
    ensures
        matches == name_addresses(name@, service@),
{
    let base = String::from_str("/http-").concat(service);
    if starts_with(name, base.as_str()) {
        return true;
    }
    let prod = String::from_str("/http-prod-").concat(service);
    starts_with(name, prod.as_str())
}

/// The host ports of the bound mappings among `ports`, in their order.
pub fn eligible_ports(ports: &Vec<PortMapping>) -> (found: Vec<i64>)
    ensures
        found@ == host_ports(ports.deep_view()),
{
    let mut found: Vec<i64> = Vec::new();
    let mut i: usize = 0;
    while i < ports.len()
        invariant
            i <= ports@.len(),
            found@ == host_ports(ports.deep_view().take(i as int)),
        decreases ports@.len() - i,
    {
        proof {
            ports.deep_view().lemma_filter_map_take_succ(
                |mapping: PortMappingView| bound_port(mapping),
                i as int,
            );
            assert(ports.deep_view()[i as int] == ports@[i as int]@);
        }
        let mapping = &ports[i];
        if mapping.ip.is_some() {
            if let Some(port) = mapping.public_port {
                found.push(port);
            }
        }
        i += 1;
    }
    assert(ports.deep_view().take(ports@.len() as int) == ports.deep_view());
    found
}

/// Examines one workload for `service`.
pub fn examine(service: &str, workload: &WorkloadRecord) -> (found: Verdict)
    ensures
        found == verdict(service@, workload@),
        workload@.names.len() != 1 ==> found is NotAddressed,
{
    if workload.names.len() != 1 {
        return Verdict::NotAddressed;
    }
    assert(workload@.names[0] == workload.names@[0]@);
    if !name_matches(workload.names[0].as_str(), service) {
        return Verdict::NotAddressed;
    }
    if workload.ports.len() < 1 {
        return Verdict::NoPublishedPort;
    }
    let ports = eligible_ports(&workload.ports);
    if ports.len() < 1 {
        return Verdict::NoEligiblePort { found: ports.len() };
    }
    Verdict::Eligible { port: ports[0] }
}

/// What a listing offers for a service, and what it gives rise to.
#[derive(Clone, Debug, PartialEq, Eq)]
pub struct Survey {
    /// One endpoint for each workload that serves the service.
    pub candidates: Vec<BackendEndpoint>,
    /// One warning for each workload that addresses the service and cannot
    /// serve it.
    pub warnings: Vec<Warning>,
}

/// Examines every workload of a listing for `service`.
pub fn survey(service: &str, workloads: &Vec<WorkloadRecord>, backend_host: &str) -> (found: Survey)
    ensures
        found.candidates.deep_view() == candidates(
            service@,
            workloads.deep_view(),
            backend_host@,
        ),
        found.warnings.deep_view() == warnings(service@, workloads.deep_view()),
{
    let mut offered: Vec<BackendEndpoint> = Vec::new();
    let mut raised: Vec<Warning> = Vec::new();
    let mut i: usize = 0;
    while i < workloads.len()
        invariant
            i <= workloads@.len(),
            offered.deep_view() == candidates(
                service@,
                workloads.deep_view().take(i as int),
                backend_host@,
            ),
            raised.deep_view() == warnings(service@, workloads.deep_view().take(i as int)),
        decreases workloads@.len() - i,
    {
        let workload = &workloads[i];
        let ghost offered_before = offered.deep_view();
        let ghost raised_before = raised.deep_view();
        proof {
            workloads.deep_view().lemma_filter_map_take_succ(
                |workload: WorkloadView| candidate(service@, workload, backend_host@),
                i as int,
            );
            workloads.deep_view().lemma_filter_map_take_succ(
                |workload: WorkloadView| warning(service@, workload),
                i as int,
            );
            assert(workloads.deep_view()[i as int] == workload@);
        }
        match examine(service, workload) {
            Verdict::NotAddressed => {},
            Verdict::NoPublishedPort => {
                assert(workload@.names[0] == workload.names@[0]@);
                raised.push(Warning::NoPublishedPort { name: workload.names[0].clone() });
                assert(raised.deep_view() == raised_before.push(
                    WarningView::NoPublishedPort { name: workload@.names[0] },
                ));
            },
            Verdict::NoEligiblePort { found } => {
                assert(workload@.names[0] == workload.names@[0]@);
                raised.push(Warning::NoEligiblePort { name: workload.names[0].clone(), found });
                assert(raised.deep_view() == raised_before.push(
                    WarningView::NoEligiblePort { name: workload@.names[0], found },
                ));
            },
            Verdict::Eligible { port } => {
                offered.push(BackendEndpoint { host: String::from_str(backend_host), port });
                assert(offered.deep_view() == offered_before.push(
                    EndpointView { host: backend_host@, port },
                ));
            },
        }
        i += 1;
    }
    assert(workloads.deep_view().take(workloads@.len() as int) == workloads.deep_view());
    Survey { candidates: offered, warnings: raised }
}

/// Takes the endpoint at the drawn position out of `offered`.
pub fn pick(offered: Vec<BackendEndpoint>, drawn: Option<usize>) -> (chosen: Option<
    BackendEndpoint,
>)
    ensures
        chosen.deep_view() == picked(offered.deep_view(), drawn),
{
    match drawn {
        Some(position) => {
            if position < offered.len() {
                let mut offered = offered;
                let ghost wanted = offered@[position as int]@;
                assert(wanted == offered.deep_view()[position as int]);
                let endpoint = offered.swap_remove(position);
                Some(endpoint)
            } else {
                None
            }
        },
        None => None,
    }
}

/// Draws a position below `count` with `rand::seq::IteratorRandom::choose`
/// on the range from zero to `count`, with the thread's generator
/// (`rand::thread_rng`, seeded by the operating system when a thread first
/// uses it). Trusted, not proved: that nothing is drawn exactly when `count`
/// is zero, and that a drawn position lies below `count`. Nothing is claimed
/// of which position is drawn, nor of how often.
#[verifier::external_body]
fn draw_below(count: usize) -> (drawn: Option<usize>)
    ensures
        drawn is None <==> count == 0,
        drawn matches Some(position) ==> position < count,
{
    rand::seq::IteratorRandom::choose(0..count, &mut rand::thread_rng())
}

/// The outcome of selecting a backend.
#[derive(Clone, Debug, PartialEq, Eq)]
pub struct Selection {
    /// The endpoint to forward to, if any workload serves the service.
    pub backend: Option<BackendEndpoint>,
    /// The warnings to report, whatever was selected.
    pub warnings: Vec<Warning>,
}

/// Selects a backend for `service` among the workloads of a listing: one of
/// those that serve it, drawn at random, each with the same chance.
pub fn select_backend(
    service: &str,
    workloads: &Vec<WorkloadRecord>,
    backend_host: &str,
) -> (selection: Selection)
    ensures
        selection.warnings.deep_view() == warnings(service@, workloads.deep_view()),
        admissible(
            candidates(service@, workloads.deep_view(), backend_host@),
            selection.backend.deep_view(),
        ),
        selection.backend is None <==> candidates(
            service@,
            workloads.deep_view(),
            backend_host@,
        ).len() == 0,
        candidates(service@, workloads.deep_view(), backend_host@).len() == 1
            ==> selection.backend.deep_view() == Some(
            candidates(service@, workloads.deep_view(), backend_host@)[0],
        ),
{
    let found = survey(service, workloads, backend_host);
    let drawn = draw_below(found.candidates.len());
    let backend = pick(found.candidates, drawn);
    Selection { backend, warnings: found.warnings }
}

} // verus!
