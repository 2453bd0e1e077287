//! What the container runtime is asked, and what it reports of a running
//! workload.
//!
//! Each type has a view that holds its texts as character sequences; the
//! contracts of the selector and the dispatcher speak of those views.

use vstd::prelude::*;
use vstd::string::StringExecFns;

verus! {

/// What the registry is asked for: whether every workload is to be listed,
/// not only those that the runtime lists by default, and the filters that a
/// listed workload has to pass, each a key with the values it admits.
#[derive(Clone, Debug, PartialEq, Eq)]
pub struct RegistryQuery {
    pub all: bool,
    pub filters: Vec<(String, Vec<String>)>,
}

/// The view of a `RegistryQuery`.
pub struct RegistryQueryView {
    pub all: bool,
    pub filters: Seq<(Seq<char>, Seq<Seq<char>>)>,
}

impl View for RegistryQuery {
    type V = RegistryQueryView;

    open spec fn view(&self) -> RegistryQueryView {
        RegistryQueryView { all: self.all, filters: self.filters.deep_view() }
    }
}

/// The query for the running workloads: the full listing, filtered by the
/// registry itself to the status `running`.
pub open spec fn running_query() -> RegistryQueryView {
    RegistryQueryView { all: true, filters: seq![("status"@, seq!["running"@])] }
}

/// The query for the running workloads.
pub fn running_workloads_query() -> (query: RegistryQuery)
    ensures
        query@ == running_query(),
{
    let mut values: Vec<String> = Vec::new();
    values.push(String::from_str("running"));
    assert(values.deep_view() =~= seq!["running"@]);
    let mut filters: Vec<(String, Vec<String>)> = Vec::new();
    filters.push((String::from_str("status"), values));
    assert(filters.deep_view()[0] == ("status"@, values.deep_view()));
    assert(filters.deep_view() =~= running_query().filters);
    let query = RegistryQuery { all: true, filters };
    query
}

/// One published port of a workload: a port inside the container, and the
/// address on the host that it is bound to, as far as the runtime assigned
/// one.
#[derive(Clone, Debug, PartialEq, Eq)]
pub struct PortMapping {
    /// The host address that the port is bound to, if any.
    pub ip: Option<String>,
    /// The port inside the container.
    pub private_port: i64,
    /// The port on the host, if any.
    pub public_port: Option<i64>,
}

/// The view of a `PortMapping`.
pub struct PortMappingView {
    pub ip: Option<Seq<char>>,
    pub private_port: i64,
    pub public_port: Option<i64>,
}

impl View for PortMapping {
    type V = PortMappingView;

    open spec fn view(&self) -> PortMappingView {
        PortMappingView {
            ip: match self.ip {
                Some(ip) => Some(ip@),
                None => None,
            },
            private_port: self.private_port,
            public_port: self.public_port,
        }
    }
}

impl DeepView for PortMapping {
    type V = PortMappingView;

    open spec fn deep_view(&self) -> PortMappingView {
        self@
    }
}

/// A snapshot of one running workload: the names it goes by and the ports
/// it publishes.
#[derive(Clone, Debug, PartialEq, Eq)]
pub struct WorkloadRecord {
    pub names: Vec<String>,
    pub ports: Vec<PortMapping>,
}

/// The view of a `WorkloadRecord`.
pub struct WorkloadView {
    pub names: Seq<Seq<char>>,
    pub ports: Seq<PortMappingView>,
}

impl View for WorkloadRecord {
    type V = WorkloadView;

    open spec fn view(&self) -> WorkloadView {
        WorkloadView { names: self.names.deep_view(), ports: self.ports.deep_view() }
    }
}

impl DeepView for WorkloadRecord {
    type V = WorkloadView;

    open spec fn deep_view(&self) -> WorkloadView {
        self@
    }
}

} // verus!
