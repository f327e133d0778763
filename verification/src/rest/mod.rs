//! REST clients, one per service: each method describes a single call for
//! the dispatcher.

pub mod attestation;
pub mod auth;
pub mod devicedefinitions;
pub mod devices;
pub mod tokenexchange;
pub mod trips;
pub mod valuations;
pub mod vehiclesignaldecoding;
