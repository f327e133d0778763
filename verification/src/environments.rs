//! The deployment tables: base URLs for each service and chain constants,
//! one table per tier. Selected once at client construction and never
//! mutated.

use vstd::prelude::*;

verus! {

/// Base URLs of the services, one deployment tier at a time.
#[derive(Debug, Clone)]
pub struct Routes {
    pub attestation: String,
    pub auth: String,
    pub identity: String,
    pub devices: String,
    pub device_data: String,
    pub device_definitions: String,
    pub events: String,
    pub telemetry: String,
    pub token_exchange: String,
    pub trips: String,
    pub user: String,
    pub valuations: String,
    pub vehicle_signal_decoding: String,
}

/// Chain addresses and the RPC endpoint of a deployment tier.
#[derive(Debug, Clone)]
pub struct Constants {
    pub nft_address: String,
    pub rpc_provider: String,
    pub dlx_address: String,
    pub vehicle_address: String,
}

/// One deployment tier's routes and constants.
#[derive(Debug, Clone)]
pub struct Environment {
    pub routes: Routes,
    pub constants: Constants,
}

/// The production table.
pub fn production() -> (r: Environment)
    ensures
        r.routes.attestation@ == "https://attestation-api.dimo.zone"@,
        r.routes.auth@ == "https://auth.dimo.zone"@,
        r.routes.identity@ == "https://identity-api.dimo.zone/query"@,
        r.routes.devices@ == "https://devices-api.dimo.zone"@,
        r.routes.device_data@ == "https://device-data-api.dimo.zone"@,
        r.routes.device_definitions@ == "https://device-definitions-api.dimo.zone"@,
        r.routes.events@ == "https://events-api.dimo.zone"@,
        r.routes.telemetry@ == "https://telemetry-api.dimo.zone/query"@,
        r.routes.token_exchange@ == "https://token-exchange-api.dimo.zone"@,
        r.routes.trips@ == "https://trips-api.dimo.zone"@,
        r.routes.user@ == "https://users-api.dimo.zone"@,
        r.routes.valuations@ == "https://valuations-api.dimo.zone"@,
        r.routes.vehicle_signal_decoding@ == "https://vehicle-signal-decoding.dimo.zone"@,
        r.constants.nft_address@ == "0xbA5738a18d83D41847dfFbDC6101d37C69c9B0cF"@,
        r.constants.rpc_provider@ == "https://eth.llamarpc.com"@,
        r.constants.dlx_address@ == "0x9A9D2E717bB005B240094ba761Ff074d392C7C85"@,
        r.constants.vehicle_address@ == "0xba5738a18d83d41847dffbdc6101d37c69c9b0cf"@,
{
    Environment {
        routes: Routes {
            attestation: "https://attestation-api.dimo.zone".to_owned(),
            auth: "https://auth.dimo.zone".to_owned(),
            identity: "https://identity-api.dimo.zone/query".to_owned(),
            devices: "https://devices-api.dimo.zone".to_owned(),
            device_data: "https://device-data-api.dimo.zone".to_owned(),
            device_definitions: "https://device-definitions-api.dimo.zone".to_owned(),
            events: "https://events-api.dimo.zone".to_owned(),
            telemetry: "https://telemetry-api.dimo.zone/query".to_owned(),
            token_exchange: "https://token-exchange-api.dimo.zone".to_owned(),
            trips: "https://trips-api.dimo.zone".to_owned(),
            user: "https://users-api.dimo.zone".to_owned(),
            valuations: "https://valuations-api.dimo.zone".to_owned(),
            vehicle_signal_decoding: "https://vehicle-signal-decoding.dimo.zone".to_owned(),
        },
        constants: Constants {
            nft_address: "0xbA5738a18d83D41847dfFbDC6101d37C69c9B0cF".to_owned(),
            rpc_provider: "https://eth.llamarpc.com".to_owned(),
            dlx_address: "0x9A9D2E717bB005B240094ba761Ff074d392C7C85".to_owned(),
            vehicle_address: "0xba5738a18d83d41847dffbdc6101d37c69c9b0cf".to_owned(),
        },
    }
}

/// The lower-environment table.
pub fn dev() -> (r: Environment)
    ensures
        r.routes.attestation@ == "https://attestation-api.dev.dimo.zone"@,
        r.routes.auth@ == "https://auth.dev.dimo.zone"@,
        r.routes.identity@ == "https://identity-api.dev.dimo.zone/query"@,
        r.routes.devices@ == "https://devices-api.dev.dimo.zone"@,
        r.routes.device_data@ == "https://device-data-api.dev.dimo.zone"@,
        r.routes.device_definitions@ == "https://device-definitions-api.dev.dimo.zone"@,
        r.routes.events@ == "https://events-api.dev.dimo.zone"@,
        r.routes.telemetry@ == "https://telemetry-api.dev.dimo.zone/query"@,
        r.routes.token_exchange@ == "https://token-exchange-api.dev.dimo.zone"@,
        r.routes.trips@ == "https://trips-api.dev.dimo.zone"@,
        r.routes.user@ == "https://users-api.dev.dimo.zone"@,
        r.routes.valuations@ == "https://valuations-api.dev.dimo.zone"@,
        r.routes.vehicle_signal_decoding@ == "https://vehicle-signal-decoding.dev.dimo.zone"@,
        r.constants.nft_address@ == "0x45fbCD3ef7361d156e8b16F5538AE36DEdf61Da8"@,
        r.constants.rpc_provider@ == "https://eth.llamarpc.com"@,
        r.constants.dlx_address@ == ""@,
        r.constants.vehicle_address@ == "0x45fbCD3ef7361d156e8b16F5538AE36DEdf61Da8"@,
{
    Environment {
        routes: Routes {
            attestation: "https://attestation-api.dev.dimo.zone".to_owned(),
            auth: "https://auth.dev.dimo.zone".to_owned(),
            identity: "https://identity-api.dev.dimo.zone/query".to_owned(),
            devices: "https://devices-api.dev.dimo.zone".to_owned(),
            device_data: "https://device-data-api.dev.dimo.zone".to_owned(),
            device_definitions: "https://device-definitions-api.dev.dimo.zone".to_owned(),
            events: "https://events-api.dev.dimo.zone".to_owned(),
            telemetry: "https://telemetry-api.dev.dimo.zone/query".to_owned(),
            token_exchange: "https://token-exchange-api.dev.dimo.zone".to_owned(),
            trips: "https://trips-api.dev.dimo.zone".to_owned(),
            user: "https://users-api.dev.dimo.zone".to_owned(),
            valuations: "https://valuations-api.dev.dimo.zone".to_owned(),
            vehicle_signal_decoding: "https://vehicle-signal-decoding.dev.dimo.zone".to_owned(),
        },
        constants: Constants {
            nft_address: "0x45fbCD3ef7361d156e8b16F5538AE36DEdf61Da8".to_owned(),
            rpc_provider: "https://eth.llamarpc.com".to_owned(),
            dlx_address: "".to_owned(),
            vehicle_address: "0x45fbCD3ef7361d156e8b16F5538AE36DEdf61Da8".to_owned(),
        },
    }
}

} // verus!
