//! A minimal continuous-deployment trigger.
//!
//! The library receives the contents of a webhook notification, authenticates
//! it with an HMAC-SHA-256 signature over the raw body, decodes the event,
//! decides whether the named branch warrants a deployment, and drives the
//! fixed three-step deployment sequence (fetch, build, restart) as a state
//! machine.  All I/O — the HTTP listener and the external processes — lives
//! outside the library; every function here is specified and verified.

pub mod byteops;
pub mod config;
pub mod deploy;
pub mod endpoint;
pub mod event;
pub mod filter;
pub mod signature;
