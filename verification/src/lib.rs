//! Hostname-based routing for a reverse proxy in front of a container runtime.
//!
//! A request names a host. The resolver turns the host into a service, the
//! selector finds a running workload that serves it, and the dispatcher says
//! where the request is forwarded to, or what is answered in its place.

pub mod dispatch;
pub mod endpoint;
pub mod forward;
pub mod method;
pub mod registry;
pub mod reply;
pub mod resolver;
pub mod selector;
pub mod text;
