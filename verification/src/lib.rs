//! Container startup helper for the flecs web application.
//!
//! The library models the whole bootstrap sequence — ensure the certificate
//! directory, provision a self-signed TLS key/certificate pair, render the
//! reverse-proxy configuration from an optional port override, and hand the
//! process over to the proxy — as a verified state machine over plain values.
//! A thin unverified shell performs the filesystem, environment, subprocess
//! and exec work that the machine's actions describe, and feeds the outcomes
//! back as events.

pub mod bootstrap;
pub mod cert;
pub mod config;
pub mod logging;
pub mod paths;
pub mod port;
