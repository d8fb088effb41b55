//! Hot reloading of a configuration value: the rules by which a watch session
//! resolves its recursion mode, classifies filesystem events, invokes the
//! caller's loader and publishes or retains the live configuration.

pub mod cell;
pub mod classify;
pub mod laws;
pub mod recursive;
pub mod reload;
pub mod session;
pub mod target;
