//! On-demand TLS certificate resolution for a single-domain service.
//!
//! The library holds the decision logic of a small server that terminates
//! TLS for exactly one domain: a single-slot, time-bounded certificate
//! cache, the handshake-path resolver that consults it, and the planning
//! of paired plaintext-redirect and TLS listeners over a set of local
//! addresses. All network work (the control-plane fetch, the listeners
//! themselves) happens outside the library, which is handed plain values:
//! hostnames and certificates as bytes, timestamps as milliseconds on a
//! monotonic clock.

pub mod bytes;
pub mod material;
pub mod orchestrator;
pub mod resolver;
pub mod store;
