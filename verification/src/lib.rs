//! A BACnet/IP device core: a typed object database, the property-accessor
//! protocol that a protocol engine drives through callbacks, the transport
//! codec for BACnet/IP connection strings, and the periodic scheduler logic.
//!
//! Network and console I/O, and the engine itself, live outside this crate;
//! every function here computes over plain values and carries a contract.

pub mod accessors;
pub mod adapters;
pub mod constants;
pub mod database;
pub mod fixedpoint;
pub mod poll;
pub mod store;
pub mod text;
pub mod transport;

pub use fixedpoint::Real;
