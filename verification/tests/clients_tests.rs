//! Tests for the per-service clients: each method must describe exactly the
//! call the service expects.

use dimo_sdk::request::{AuthRequestParams, BodyValue, Method, RequestParams, TokenKind};
use dimo_sdk::rest::auth::AuthClient;
use dimo_sdk::rest::devicedefinitions::DeviceDefinitions;
use dimo_sdk::rest::devices::Devices;
use dimo_sdk::rest::tokenexchange::TokenExchange;
use dimo_sdk::rest::trips::Trips;
use dimo_sdk::rest::valuations::Valuations;
use dimo_sdk::rest::vehiclesignaldecoding::VehicleSignalDecoding;
use dimo_sdk::{Environment, DIMO};

fn body_string(value: &BodyValue) -> &str {
    match value {
        BodyValue::String(s) => s.as_str(),
        _ => panic!("expected a string body value"),
    }
}

#[test]
fn generate_challenge_carries_the_fixed_protocol_parameters() {
    let client = AuthClient::new("https://auth.dimo.zone".to_owned());
    let p = client.generate_challenge("0xclient", "https://example.com");
    assert_eq!(p.method, Method::Post);
    assert_eq!(p.base_url, "https://auth.dimo.zone");
    assert_eq!(p.path, "/auth/web3/generate_challenge");
    let q = p.query_params.unwrap();
    let expected = [
        ("client_id", "0xclient"),
        ("domain", "https://example.com"),
        ("scope", "openid email"),
        ("response_type", "code"),
        ("address", "0xclient"),
    ];
    assert_eq!(q.len(), expected.len());
    for (pair, (k, v)) in q.iter().zip(expected.iter()) {
        assert_eq!(pair.0, *k);
        assert_eq!(pair.1, *v);
    }
    assert!(p.body.is_none());
    assert!(p.headers.is_none());
}

#[test]
fn submit_challenge_prefixes_the_signature_exactly_once() {
    let client = AuthClient::new("https://auth.dimo.zone".to_owned());
    let p = client.submit_challenge("0xclient", "https://example.com", "state1", "abcd");
    let body = p.body.unwrap();
    assert_eq!(body[4].0, "signature");
    assert_eq!(body_string(&body[4].1), "0xabcd");

    let p2 = client.submit_challenge("0xclient", "https://example.com", "state1", "0xabcd");
    let body2 = p2.body.unwrap();
    assert_eq!(body_string(&body2[4].1), "0xabcd");
}

#[test]
fn submit_challenge_is_a_form_encoded_post() {
    let client = AuthClient::new("https://auth.dimo.zone".to_owned());
    let p = client.submit_challenge("0xclient", "https://example.com", "state1", "abcd");
    assert_eq!(p.method, Method::Post);
    assert_eq!(p.path, "/auth/web3/submit_challenge");
    let headers = p.headers.unwrap();
    assert_eq!(headers.len(), 1);
    assert_eq!(headers[0].0, "Content-Type");
    assert_eq!(headers[0].1, "x-www-form-urlencoded");
    let body = p.body.unwrap();
    assert_eq!(body[0].0, "client_id");
    assert_eq!(body_string(&body[0].1), "0xclient");
    assert_eq!(body[1].0, "domain");
    assert_eq!(body_string(&body[1].1), "https://example.com");
    assert_eq!(body[2].0, "grant_type");
    assert_eq!(body_string(&body[2].1), "authorization_code");
    assert_eq!(body[3].0, "state");
    assert_eq!(body_string(&body[3].1), "state1");
}

#[test]
fn lock_doors_targets_the_vehicle_command_path() {
    let devices = Devices::new("https://devices-api.dimo.zone");
    let p = devices.lock_doors("42");
    assert_eq!(p.method, Method::Post);
    assert_eq!(p.path, "/v1/vehicle/42/commands/doors/lock");
    assert_eq!(p.token_kind, TokenKind::Privilege);
    assert!(p.body.is_none());
}

#[test]
fn create_vehicle_from_vin_includes_the_protocol_only_when_given() {
    let devices = Devices::new("https://devices-api.dimo.zone");
    let p = devices.create_vehicle_from_vin("1HGCM82633A123456", "USA", Some("6"));
    let body = p.body.unwrap();
    assert_eq!(body.len(), 3);
    assert_eq!(body[0].0, "vin");
    assert_eq!(body_string(&body[0].1), "1HGCM82633A123456");
    assert_eq!(body[2].0, "canProtocol");
    assert_eq!(body_string(&body[2].1), "6");

    let p2 = devices.create_vehicle_from_vin("1HGCM82633A123456", "USA", None);
    assert_eq!(p2.body.unwrap().len(), 2);
}

#[test]
fn update_vehicle_vin_is_a_patch() {
    let devices = Devices::new("https://devices-api.dimo.zone");
    let p = devices.update_vehicle_vin("device-1");
    assert_eq!(p.method, Method::Patch);
    assert_eq!(p.path, "/v1/user/devices/device-1/vin");
    assert_eq!(p.token_kind, TokenKind::Access);
}

#[test]
fn aftermarket_device_lookups_are_unauthenticated_gets() {
    let devices = Devices::new("https://devices-api.dimo.zone");
    let p: RequestParams = devices.get_aftermarket_device("7");
    assert_eq!(p.method, Method::Get);
    assert_eq!(p.path, "/v1/aftermarket/device/7");
    assert!(p.query_params.is_none());
}

#[test]
fn token_exchange_builds_the_full_body() {
    let exchange = TokenExchange::new(
        "https://token-exchange-api.dimo.zone",
        "0xbA5738a18d83D41847dfFbDC6101d37C69c9B0cF",
    );
    let p: AuthRequestParams = exchange.exchange(42, vec![1, 2, 4]);
    assert_eq!(p.path, "/v1/tokens/exchange");
    assert_eq!(p.token_kind, TokenKind::Access);
    let body = p.body.unwrap();
    assert_eq!(body[0].0, "nftContractAddress");
    assert_eq!(
        body_string(&body[0].1),
        "0xbA5738a18d83D41847dfFbDC6101d37C69c9B0cF"
    );
    assert_eq!(body[1].0, "privileges");
    assert!(matches!(&body[1].1, BodyValue::IntArray(v) if *v == vec![1i64, 2, 4]));
    assert_eq!(body[2].0, "tokenId");
    assert!(matches!(&body[2].1, BodyValue::Int(42)));
}

#[test]
fn trips_list_carries_the_page_only_when_given() {
    let trips = Trips::new("https://trips-api.dimo.zone");
    let p = trips.list("9", Some(3));
    assert_eq!(p.path, "/v1/vehicle/9/trips");
    assert_eq!(p.token_kind, TokenKind::Vehicle);
    let q = p.query_params.unwrap();
    assert_eq!(q.len(), 1);
    assert_eq!(q[0].0, "page");
    assert_eq!(q[0].1, "3");

    let p2 = trips.list("9", None);
    assert_eq!(p2.query_params.unwrap().len(), 0);
}

#[test]
fn valuations_paths_follow_the_device_id() {
    let valuations = Valuations::new("https://valuations-api.dimo.zone");
    assert_eq!(
        valuations.get_valuations("d1").path,
        "/v1/user/devices/d1/valuations"
    );
    assert_eq!(
        valuations.get_instant_offers("d1").path,
        "/v1/user/devices/d1/instant-offer"
    );
    assert_eq!(valuations.get_offers("d1").path, "/v1/user/devices/d1/offers");
}

#[test]
fn signal_decoding_protocol_parameter_is_optional() {
    let vsd = VehicleSignalDecoding::new("https://vehicle-signal-decoding.dimo.zone");
    let p = vsd.list_config_urls_by_vin("VIN1", Some("7"));
    assert_eq!(p.path, "/v1/device-config/vin/VIN1/urls");
    let q = p.query_params.unwrap();
    assert_eq!(q[0].0, "protocol");
    assert_eq!(q[0].1, "7");

    let p2 = vsd.list_config_urls_by_vin("VIN1", None);
    assert!(p2.query_params.is_none());
}

#[test]
fn job_status_path_joins_address_job_and_status() {
    let vsd = VehicleSignalDecoding::new("https://vehicle-signal-decoding.dimo.zone");
    let p = vsd.set_job_status_by_address("0xaddr", "job-9", "done");
    assert_eq!(p.method, Method::Patch);
    assert_eq!(p.path, "/v1/device-config/eth-addr/0xaddr/jobs/job-9/done");
    assert_eq!(p.token_kind, TokenKind::Privilege);
}

#[test]
fn decode_vin_passes_fields_through_as_strings() {
    let definitions = DeviceDefinitions::new("https://device-definitions-api.dimo.zone");
    let p = definitions.decode_vin(vec![
        ("vin".to_owned(), "1HGCM82633A123456".to_owned()),
        ("countryCode".to_owned(), "USA".to_owned()),
    ]);
    assert_eq!(p.path, "/device-definitions/decode-vin");
    assert_eq!(p.token_kind, TokenKind::Developer);
    let body = p.body.unwrap();
    assert_eq!(body.len(), 2);
    assert_eq!(body[0].0, "vin");
    assert_eq!(body_string(&body[0].1), "1HGCM82633A123456");
}

#[test]
fn search_puts_the_query_first_and_keeps_extras_in_order() {
    let definitions = DeviceDefinitions::new("https://device-definitions-api.dimo.zone");
    let p = definitions.search(
        "toyota",
        Some(vec![
            ("makeSlug".to_owned(), "toyota".to_owned()),
            ("year".to_owned(), "2022".to_owned()),
        ]),
    );
    let q = p.query_params.unwrap();
    assert_eq!(q.len(), 3);
    assert_eq!(q[0].0, "query");
    assert_eq!(q[0].1, "toyota");
    assert_eq!(q[1].0, "makeSlug");
    assert_eq!(q[2].0, "year");
}

#[test]
fn dimo_binds_every_client_to_the_production_routes() {
    let dimo = DIMO::new(Environment::Production);
    let p = dimo.auth.generate_challenge("c", "d");
    assert_eq!(p.base_url, "https://auth.dimo.zone");
    let lock = dimo.devices.lock_doors("1");
    assert_eq!(lock.base_url, "https://devices-api.dimo.zone");
    let trips = dimo.trips.list("1", None);
    assert_eq!(trips.base_url, "https://trips-api.dimo.zone");
}

#[test]
fn dimo_binds_every_client_to_the_dev_routes() {
    let dimo = DIMO::new(Environment::Dev);
    let p = dimo.auth.generate_challenge("c", "d");
    assert_eq!(p.base_url, "https://auth.dev.dimo.zone");
    let exchange = dimo.tokenexchange.exchange(1, vec![1]);
    assert_eq!(exchange.base_url, "https://token-exchange-api.dev.dimo.zone");
    let body = exchange.body.unwrap();
    assert_eq!(
        body_string(&body[0].1),
        "0x45fbCD3ef7361d156e8b16F5538AE36DEdf61Da8"
    );
}

#[test]
fn identity_queries_carry_the_query_text_in_the_body() {
    let dimo = DIMO::new(Environment::Production);
    let p = dimo.identity.query("{ vehicles { totalCount } }");
    assert_eq!(p.method, Method::Post);
    assert_eq!(p.base_url, "https://identity-api.dimo.zone/query");
    assert_eq!(p.path, "");
    let body = p.body.unwrap();
    assert_eq!(body[0].0, "query");
    assert_eq!(body_string(&body[0].1), "{ vehicles { totalCount } }");
}

#[test]
fn identity_definition_listing_interpolates_address_and_limit() {
    let dimo = DIMO::new(Environment::Production);
    let p = dimo
        .identity
        .list_vehicle_definitions_per_address("0xowner", Some(5));
    let body = p.body.unwrap();
    let query = body_string(&body[0].1).to_owned();
    assert!(query.contains("owner: \"0xowner\""));
    assert!(query.contains("first: 5"));

    let p2 = dimo.identity.list_vehicle_definitions_per_address("0xowner", None);
    let body2 = p2.body.unwrap();
    assert!(body_string(&body2[0].1).contains("first: 10"));
}

#[test]
fn telemetry_queries_use_the_vehicle_token() {
    let dimo = DIMO::new(Environment::Production);
    let p = dimo.telemetry.get_latest_signals("77");
    assert_eq!(p.method, Method::Post);
    assert_eq!(p.base_url, "https://telemetry-api.dimo.zone/query");
    assert_eq!(p.path, "/telemetry");
    assert_eq!(p.token_kind, TokenKind::Vehicle);
    let body = p.body.unwrap();
    assert!(body_string(&body[0].1).contains("SignalsLatest(tokenID: \"77\")"));
}
