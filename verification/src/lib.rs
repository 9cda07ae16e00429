//! A small library for monitoring named discrete signals on a field device
//! reachable over a Modbus TCP coupler.
//!
//! A device is described by a YAML configuration naming the coupler and an
//! ordered list of signals (name, type, register offset). The library builds
//! a registry of [`signal::Signal`]s from that configuration, connects to the
//! coupler, resolves signal names to register addresses, and polls discrete
//! inputs one by one or in bulk, caching the last observed status per signal.

pub mod config;
pub mod device;
pub mod errors;
pub mod signal;
pub mod transport;
