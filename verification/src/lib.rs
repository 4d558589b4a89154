//! The core of a default backend for an ingress proxy: it picks the
//! representation of an error document, turns the proxy's headers into a typed
//! record of the failed request, and derives the opaque identifier by which an
//! error page is found again in the logs.

pub mod context;
pub mod decimal;
pub mod format;
pub mod laws;
pub mod problem;
pub mod respond;
pub mod token;
pub mod token_laws;
