//! The core of a dynamic DNS updater.
//!
//! Cycle by cycle the updater finds the caller's public IPv4 address, finds
//! the address published in the tracked A record, and has the record
//! updated where the two differ. The credential for the update comes from a
//! secrets service, through a session that is renewed before it runs out.
//!
//! The library decides and does no outside work. `reconciler` holds the
//! loop as a state machine over the values that a driver holds; `machine`
//! says what the machine does, over plain values; `laws` states and proves
//! what holds of every cycle. The other modules hold the parts: addresses
//! and text, the configuration, the questions asked of DNS, of the secrets
//! service and of the provider, what can go wrong, and what is logged and
//! traced.

pub mod address;
pub mod config;
pub mod errors;
pub mod laws;
pub mod logging;
pub mod machine;
pub mod provider;
pub mod reconciler;
pub mod resolver;
pub mod secrets;
pub mod telemetry;
pub mod text;

pub use config::Config;
pub use logging::LogMessage;
