//! Decision logic of a reverse-proxy gateway for container-backed services.
//!
//! The gateway receives a request, finds the service whose route is the most
//! specific prefix of the request path, picks one container of that service,
//! makes sure the container runs, and relays the request with a bounded
//! retry loop. Everything here is pure: a driver performs the lookups, the
//! container start and the network calls, and hands their outcomes in.

pub mod balancer;
pub mod forward;
pub mod gateway;
pub mod gateway_laws;
pub mod routes;
pub mod segments;
pub mod text;
