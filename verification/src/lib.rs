//! The library behind the horn components: it builds the activation and
//! deactivation requests, frames them as payload bytes, interprets the
//! outcomes of the remote horn-service calls, and decides how the bus bridge
//! reacts to each inbound message. The process boundary (transport, logging,
//! argument parsing) lives outside and hands this library plain values.

pub mod bridge;
pub mod codec;
pub mod config;
pub mod constants;
pub mod horn_client;
pub mod horn_loop;
pub mod horn_requests;

pub use horn_requests::PrebuiltHornRequests;
