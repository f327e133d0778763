//! GraphQL clients: identity and telemetry.

pub mod identity;
pub mod telemetry;

pub use identity::Identity;
pub use telemetry::Telemetry;
