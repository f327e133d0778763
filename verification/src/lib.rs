//! Client library for a fleet of vehicle-telemetry and identity REST/GraphQL
//! services behind a wallet-based authentication scheme.
//!
//! The heart of the crate is the authentication and authorized-request
//! subsystem: the web3 challenge-response protocol that exchanges a
//! cryptographic signature for a bearer token, and the request dispatcher
//! that every API surface reuses to attach the right bearer credential,
//! build the target URL, and classify transport and HTTP failures.
//!
//! Network exchanges themselves are the embedding program's concern: every
//! client method here describes a call as a value, the dispatcher prepares
//! it, and [`request::interpret_response`] classifies what came back.

use vstd::prelude::*;

pub mod credentials;
pub mod environments;
pub mod graphql;
pub mod hexcodec;
pub mod request;
pub mod rest;
pub mod signing;
pub mod text;

pub use credentials::get_credentials;

use graphql::{Identity, Telemetry};
use rest::attestation::AttestationClient;
use rest::auth::AuthClient;
use rest::devicedefinitions::DeviceDefinitions;
use rest::devices::Devices;
use rest::tokenexchange::TokenExchange;
use rest::trips::Trips;
use rest::valuations::Valuations;

verus! {

/// Deployment tier: selects which route and constant table the clients use.
#[derive(Clone, Copy, PartialEq, Eq, Structural, Debug)]
pub enum Environment {
    Production,
    Dev,
}

/// The assembled client set: one client per service, all bound to the base
/// URLs of the chosen deployment tier.
pub struct DIMO {
    pub attestation: AttestationClient,
    pub auth: AuthClient,
    pub devicedefinitions: DeviceDefinitions,
    pub devices: Devices,
    pub tokenexchange: TokenExchange,
    pub trips: Trips,
    pub valuations: Valuations,
    pub identity: Identity,
    pub telemetry: Telemetry,
}

impl DIMO {
    /// Builds every client from the chosen tier's route table, binding the
    /// token-exchange client to that tier's NFT contract address.
    pub fn new(env: Environment) -> (r: Self)
        ensures
            env == Environment::Production ==> {
                &&& r.attestation.base_url_spec() == "https://attestation-api.dimo.zone"@
                &&& r.auth.base_url_spec() == "https://auth.dimo.zone"@
                &&& r.devicedefinitions.base_url_spec()
                    == "https://device-definitions-api.dimo.zone"@
                &&& r.devices.base_url_spec() == "https://devices-api.dimo.zone"@
                &&& r.tokenexchange.base_url_spec() == "https://token-exchange-api.dimo.zone"@
                &&& r.tokenexchange.contract_address_spec()
                    == "0xbA5738a18d83D41847dfFbDC6101d37C69c9B0cF"@
                &&& r.trips.base_url_spec() == "https://trips-api.dimo.zone"@
                &&& r.valuations.base_url_spec() == "https://valuations-api.dimo.zone"@
                &&& r.identity.base_url_spec() == "https://identity-api.dimo.zone/query"@
                &&& r.telemetry.base_url_spec() == "https://telemetry-api.dimo.zone/query"@
            },
            env == Environment::Dev ==> {
                &&& r.attestation.base_url_spec() == "https://attestation-api.dev.dimo.zone"@
                &&& r.auth.base_url_spec() == "https://auth.dev.dimo.zone"@
                &&& r.devicedefinitions.base_url_spec()
                    == "https://device-definitions-api.dev.dimo.zone"@
                &&& r.devices.base_url_spec() == "https://devices-api.dev.dimo.zone"@
                &&& r.tokenexchange.base_url_spec() == "https://token-exchange-api.dev.dimo.zone"@
                &&& r.tokenexchange.contract_address_spec()
                    == "0x45fbCD3ef7361d156e8b16F5538AE36DEdf61Da8"@
                &&& r.trips.base_url_spec() == "https://trips-api.dev.dimo.zone"@
                &&& r.valuations.base_url_spec() == "https://valuations-api.dev.dimo.zone"@
                &&& r.identity.base_url_spec() == "https://identity-api.dev.dimo.zone/query"@
                &&& r.telemetry.base_url_spec() == "https://telemetry-api.dev.dimo.zone/query"@
            },
    {
        let table = match env {
            Environment::Production => environments::production(),
            Environment::Dev => environments::dev(),
        };
        let routes = table.routes;
        let constants = table.constants;
        DIMO {
            attestation: AttestationClient::new(routes.attestation),
            auth: AuthClient::new(routes.auth),
            devicedefinitions: DeviceDefinitions::new(routes.device_definitions.as_str()),
            devices: Devices::new(routes.devices.as_str()),
            tokenexchange: TokenExchange::new(
                routes.token_exchange.as_str(),
                constants.nft_address.as_str(),
            ),
            trips: Trips::new(routes.trips.as_str()),
            valuations: Valuations::new(routes.valuations.as_str()),
            identity: Identity::new(routes.identity.as_str()),
            telemetry: Telemetry::new(routes.telemetry.as_str()),
        }
    }
}

} // verus!
