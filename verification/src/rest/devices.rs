//! The devices client: vehicle onboarding, aftermarket device claiming,
//! pairing and minting payloads, commands, and error-code queries.

use vstd::prelude::*;

use crate::request::{AuthRequestParams, BodyValue, Method, RequestParams, TokenKind};
use crate::text::{concat2, concat3};

verus! {

/// The client for the devices service.
pub struct Devices {
    base_url: String,
}

/// A body-less authorized call.
fn simple_auth(method: Method, base_url: &String, path: String, token_kind: TokenKind) -> (p:
    AuthRequestParams)
    ensures
        p.method == method,
        p.base_url@ == base_url@,
        p.path@ == path@,
        p.query_params is None,
        p.body is None,
        p.headers is None,
        p.token_kind == token_kind,
{
    AuthRequestParams {
        method,
        base_url: base_url.clone(),
        path,
        query_params: None,
        body: None,
        headers: None,
        token_kind,
    }
}

/// An authorized call with a body.
fn body_auth(
    method: Method,
    base_url: &String,
    path: String,
    body: Vec<(String, BodyValue)>,
    token_kind: TokenKind,
) -> (p: AuthRequestParams)
    ensures
        p.method == method,
        p.base_url@ == base_url@,
        p.path@ == path@,
        p.query_params is None,
        p.body matches Some(b) && b == body,
        p.headers is None,
        p.token_kind == token_kind,
{
    AuthRequestParams {
        method,
        base_url: base_url.clone(),
        path,
        query_params: None,
        body: Some(body),
        headers: None,
        token_kind,
    }
}

/// A body-less unauthenticated call.
fn simple_request(method: Method, base_url: &String, path: String) -> (p: RequestParams)
    ensures
        p.method == method,
        p.base_url@ == base_url@,
        p.path@ == path@,
        p.query_params is None,
        p.body is None,
        p.headers is None,
{
    RequestParams {
        method,
        base_url: base_url.clone(),
        path,
        query_params: None,
        body: None,
        headers: None,
    }
}

impl Devices {
    /// The base URL this client was constructed with.
    pub closed spec fn base_url_spec(&self) -> Seq<char> {
        self.base_url@
    }

    pub fn new(base_url: &str) -> (r: Self)
        ensures
            r.base_url_spec() == base_url@,
    {
        Self { base_url: base_url.to_owned() }
    }

    /// Describes vehicle creation from a device definition.
    pub fn create_vehicle(&self, country_code: &str, device_definition_id: &str) -> (p:
        AuthRequestParams)
        ensures
            p.method == Method::Post,
            p.base_url@ == self.base_url_spec(),
            p.path@ == "/v1/user/devices"@,
            p.query_params is None,
            p.body matches Some(b) && {
                &&& b@.len() == 2
                &&& b@[0].0@ == "countryCode"@ && (b@[0].1 matches BodyValue::String(v) && v@
                    == country_code@)
                &&& b@[1].0@ == "deviceDefinitionId"@ && (b@[1].1 matches BodyValue::String(v) && v@
                    == device_definition_id@)
            },
            p.headers is None,
            p.token_kind == TokenKind::Access,
    {
        let mut body: Vec<(String, BodyValue)> = Vec::new();
        body.push(("countryCode".to_owned(), BodyValue::String(country_code.to_owned())));
        body.push(
            ("deviceDefinitionId".to_owned(), BodyValue::String(device_definition_id.to_owned())),
        );
        body_auth(
            Method::Post,
            &self.base_url,
            "/v1/user/devices".to_owned(),
            body,
            TokenKind::Access,
        )
    }

    /// Describes vehicle creation from a smartcar authorization code.
    pub fn create_vehicle_from_smartcar(&self, code: &str, country_code: &str, redirect_uri: &str)
        -> (p: AuthRequestParams)
        ensures
            p.method == Method::Post,
            p.base_url@ == self.base_url_spec(),
            p.path@ == "/v1/user/devices/fromsmartcar"@,
            p.query_params is None,
            p.body matches Some(b) && {
                &&& b@.len() == 3
                &&& b@[0].0@ == "code"@ && (b@[0].1 matches BodyValue::String(v) && v@ == code@)
                &&& b@[1].0@ == "countryCode"@ && (b@[1].1 matches BodyValue::String(v) && v@
                    == country_code@)
                &&& b@[2].0@ == "redirectURI"@ && (b@[2].1 matches BodyValue::String(v) && v@
                    == redirect_uri@)
            },
            p.headers is None,
            p.token_kind == TokenKind::Access,
    {
        let mut body: Vec<(String, BodyValue)> = Vec::new();
        body.push(("code".to_owned(), BodyValue::String(code.to_owned())));
        body.push(("countryCode".to_owned(), BodyValue::String(country_code.to_owned())));
        body.push(("redirectURI".to_owned(), BodyValue::String(redirect_uri.to_owned())));
        body_auth(
            Method::Post,
            &self.base_url,
            "/v1/user/devices/fromsmartcar".to_owned(),
            body,
            TokenKind::Access,
        )
    }

    /// Describes vehicle creation from a VIN, with an optional CAN protocol.
    pub fn create_vehicle_from_vin(&self, vin: &str, country_code: &str, can_protocol: Option<&str>)
        -> (p: AuthRequestParams)
        ensures
            p.method == Method::Post,
            p.base_url@ == self.base_url_spec(),
            p.path@ == "/v1/user/devices/fromvin"@,
            p.query_params is None,
            p.body matches Some(b) && {
                &&& b@.len() == (if can_protocol is Some {
                    3int
                } else {
                    2int
                })
                &&& b@[0].0@ == "vin"@ && (b@[0].1 matches BodyValue::String(v) && v@ == vin@)
                &&& b@[1].0@ == "countryCode"@ && (b@[1].1 matches BodyValue::String(v) && v@
                    == country_code@)
                &&& (can_protocol matches Some(protocol) ==> (b@[2].0@ == "canProtocol"@ && (b@[2].1
                    matches BodyValue::String(v) && v@ == protocol@)))
            },
            p.headers is None,
            p.token_kind == TokenKind::Access,
    {
        let mut body: Vec<(String, BodyValue)> = Vec::new();
        body.push(("vin".to_owned(), BodyValue::String(vin.to_owned())));
        body.push(("countryCode".to_owned(), BodyValue::String(country_code.to_owned())));
        match can_protocol {
            Option::Some(protocol) => {
                body.push(("canProtocol".to_owned(), BodyValue::String(protocol.to_owned())));
            },
            Option::None => {},
        }
        body_auth(
            Method::Post,
            &self.base_url,
            "/v1/user/devices/fromvin".to_owned(),
            body,
            TokenKind::Access,
        )
    }

    /// Describes the VIN update call for a vehicle.
    pub fn update_vehicle_vin(&self, user_device_id: &str) -> (p: AuthRequestParams)
        ensures
            p.method == Method::Patch,
            p.base_url@ == self.base_url_spec(),
            p.path@ == "/v1/user/devices/"@ + user_device_id@ + "/vin"@,
            p.query_params is None,
            p.body is None,
            p.headers is None,
            p.token_kind == TokenKind::Access,
    {
        simple_auth(
            Method::Patch,
            &self.base_url,
            concat3("/v1/user/devices/", user_device_id, "/vin"),
            TokenKind::Access,
        )
    }

    /// Describes fetching the claiming payload for an aftermarket device.
    pub fn get_claiming_payload(&self, serial: &str) -> (p: AuthRequestParams)
        ensures
            p.method == Method::Post,
            p.base_url@ == self.base_url_spec(),
            p.path@ == "/v1/aftermarket/device/by-serial/"@ + serial@ + "/commands/claim"@,
            p.query_params is None,
            p.body is None,
            p.headers is None,
            p.token_kind == TokenKind::Access,
    {
        simple_auth(
            Method::Post,
            &self.base_url,
            concat3("/v1/aftermarket/device/by-serial/", serial, "/commands/claim"),
            TokenKind::Access,
        )
    }

    /// Describes submitting the signed claiming payload.
    pub fn sign_claiming_payload(&self, serial: &str, claim_request: &str) -> (p: AuthRequestParams)
        ensures
            p.method == Method::Post,
            p.base_url@ == self.base_url_spec(),
            p.path@ == "/v1/aftermarket/device/by-serial/"@ + serial@ + "/commands/claim"@,
            p.query_params is None,
            p.body matches Some(b) && b@.len() == 1 && b@[0].0@ == "claimRequest"@ && (b@[0].1
                matches BodyValue::String(v) && v@ == claim_request@),
            p.headers is None,
            p.token_kind == TokenKind::Access,
    {
        let mut body: Vec<(String, BodyValue)> = Vec::new();
        body.push(("claimRequest".to_owned(), BodyValue::String(claim_request.to_owned())));
        body_auth(
            Method::Post,
            &self.base_url,
            concat3("/v1/aftermarket/device/by-serial/", serial, "/commands/claim"),
            body,
            TokenKind::Access,
        )
    }

    /// Describes fetching the minting payload for a vehicle.
    pub fn get_minting_payload(&self, user_device_id: &str) -> (p: AuthRequestParams)
        ensures
            p.method == Method::Post,
            p.base_url@ == self.base_url_spec(),
            p.path@ == "/v1/user/devices/"@ + user_device_id@ + "/commands/mint"@,
            p.query_params is None,
            p.body is None,
            p.headers is None,
            p.token_kind == TokenKind::Access,
    {
        simple_auth(
            Method::Post,
            &self.base_url,
            concat3("/v1/user/devices/", user_device_id, "/commands/mint"),
            TokenKind::Access,
        )
    }

    /// Describes submitting the signed minting payload.
    pub fn sign_minting_payload(&self, user_device_id: &str, mint_request: serde_json::Value) -> (p:
        AuthRequestParams)
        ensures
            p.method == Method::Post,
            p.base_url@ == self.base_url_spec(),
            p.path@ == "/v1/user/devices/"@ + user_device_id@ + "/commands/mint"@,
            p.query_params is None,
            p.body matches Some(b) && b@.len() == 1 && b@[0].0@ == "mintRequest"@ && b@[0].1
                == BodyValue::Json(mint_request),
            p.headers is None,
            p.token_kind == TokenKind::Access,
    {
        let mut body: Vec<(String, BodyValue)> = Vec::new();
        body.push(("mintRequest".to_owned(), BodyValue::Json(mint_request)));
        body_auth(
            Method::Post,
            &self.base_url,
            concat3("/v1/user/devices/", user_device_id, "/commands/mint"),
            body,
            TokenKind::Access,
        )
    }

    /// Describes the data-sharing opt-in command.
    pub fn opt_in_share_data(&self, user_device_id: &str) -> (p: AuthRequestParams)
        ensures
            p.method == Method::Post,
            p.base_url@ == self.base_url_spec(),
            p.path@ == "/v1/user/devices/"@ + user_device_id@ + "/commands/opt-in"@,
            p.query_params is None,
            p.body is None,
            p.headers is None,
            p.token_kind == TokenKind::Access,
    {
        simple_auth(
            Method::Post,
            &self.base_url,
            concat3("/v1/user/devices/", user_device_id, "/commands/opt-in"),
            TokenKind::Access,
        )
    }

    /// Describes the smartcar data refresh command.
    pub fn refresh_smartcar_data(&self, user_device_id: &str) -> (p: AuthRequestParams)
        ensures
            p.method == Method::Post,
            p.base_url@ == self.base_url_spec(),
            p.path@ == "/v1/user/devices/"@ + user_device_id@ + "/commands/refresh"@,
            p.query_params is None,
            p.body is None,
            p.headers is None,
            p.token_kind == TokenKind::Access,
    {
        simple_auth(
            Method::Post,
            &self.base_url,
            concat3("/v1/user/devices/", user_device_id, "/commands/refresh"),
            TokenKind::Access,
        )
    }

    /// Describes fetching the pairing payload for a vehicle.
    pub fn get_pairing_payload(&self, user_device_id: &str) -> (p: AuthRequestParams)
        ensures
            p.method == Method::Get,
            p.base_url@ == self.base_url_spec(),
            p.path@ == "/v1/user/devices/"@ + user_device_id@ + "/aftermarket/commands/pair"@,
            p.query_params is None,
            p.body is None,
            p.headers is None,
            p.token_kind == TokenKind::Access,
    {
        simple_auth(
            Method::Get,
            &self.base_url,
            concat3("/v1/user/devices/", user_device_id, "/aftermarket/commands/pair"),
            TokenKind::Access,
        )
    }

    /// Describes submitting the signed pairing payload.
    pub fn sign_pairing_payload(&self, user_device_id: &str, user_signature: &str) -> (p:
        AuthRequestParams)
        ensures
            p.method == Method::Post,
            p.base_url@ == self.base_url_spec(),
            p.path@ == "/v1/user/devices/"@ + user_device_id@ + "/aftermarket/commands/pair"@,
            p.query_params is None,
            p.body matches Some(b) && b@.len() == 1 && b@[0].0@ == "userSignature"@ && (b@[0].1
                matches BodyValue::String(v) && v@ == user_signature@),
            p.headers is None,
            p.token_kind == TokenKind::Access,
    {
        let mut body: Vec<(String, BodyValue)> = Vec::new();
        body.push(("userSignature".to_owned(), BodyValue::String(user_signature.to_owned())));
        body_auth(
            Method::Post,
            &self.base_url,
            concat3("/v1/user/devices/", user_device_id, "/aftermarket/commands/pair"),
            body,
            TokenKind::Access,
        )
    }

    /// Describes fetching the unpairing payload for a vehicle.
    pub fn get_unpairing_payload(&self, user_device_id: &str) -> (p: AuthRequestParams)
        ensures
            p.method == Method::Get,
            p.base_url@ == self.base_url_spec(),
            p.path@ == "/v1/user/devices/"@ + user_device_id@ + "/aftermarket/commands/unpair"@,
            p.query_params is None,
            p.body is None,
            p.headers is None,
            p.token_kind == TokenKind::Access,
    {
        simple_auth(
            Method::Get,
            &self.base_url,
            concat3("/v1/user/devices/", user_device_id, "/aftermarket/commands/unpair"),
            TokenKind::Access,
        )
    }

    /// Describes submitting the signed unpairing payload.
    pub fn sign_unpairing_payload(&self, user_device_id: &str, user_signature: &str) -> (p:
        AuthRequestParams)
        ensures
            p.method == Method::Post,
            p.base_url@ == self.base_url_spec(),
            p.path@ == "/v1/user/devices/"@ + user_device_id@ + "/aftermarket/commands/unpair"@,
            p.query_params is None,
            p.body matches Some(b) && b@.len() == 1 && b@[0].0@ == "userSignature"@ && (b@[0].1
                matches BodyValue::String(v) && v@ == user_signature@),
            p.headers is None,
            p.token_kind == TokenKind::Access,
    {
        let mut body: Vec<(String, BodyValue)> = Vec::new();
        body.push(("userSignature".to_owned(), BodyValue::String(user_signature.to_owned())));
        body_auth(
            Method::Post,
            &self.base_url,
            concat3("/v1/user/devices/", user_device_id, "/aftermarket/commands/unpair"),
            body,
            TokenKind::Access,
        )
    }

    /// Describes the door-lock command.
    pub fn lock_doors(&self, token_id: &str) -> (p: AuthRequestParams)
        ensures
            p.method == Method::Post,
            p.base_url@ == self.base_url_spec(),
            p.path@ == "/v1/vehicle/"@ + token_id@ + "/commands/doors/lock"@,
            p.query_params is None,
            p.body is None,
            p.headers is None,
            p.token_kind == TokenKind::Privilege,
    {
        simple_auth(
            Method::Post,
            &self.base_url,
            concat3("/v1/vehicle/", token_id, "/commands/doors/lock"),
            TokenKind::Privilege,
        )
    }

    /// Describes the door-unlock command.
    pub fn unlock_doors(&self, token_id: &str) -> (p: AuthRequestParams)
        ensures
            p.method == Method::Post,
            p.base_url@ == self.base_url_spec(),
            p.path@ == "/v1/vehicle/"@ + token_id@ + "/commands/doors/unlock"@,
            p.query_params is None,
            p.body is None,
            p.headers is None,
            p.token_kind == TokenKind::Privilege,
    {
        simple_auth(
            Method::Post,
            &self.base_url,
            concat3("/v1/vehicle/", token_id, "/commands/doors/unlock"),
            TokenKind::Privilege,
        )
    }

    /// Describes the frunk-open command.
    pub fn open_frunk(&self, token_id: &str) -> (p: AuthRequestParams)
        ensures
            p.method == Method::Post,
            p.base_url@ == self.base_url_spec(),
            p.path@ == "/v1/vehicle/"@ + token_id@ + "/commands/frunk/open"@,
            p.query_params is None,
            p.body is None,
            p.headers is None,
            p.token_kind == TokenKind::Privilege,
    {
        simple_auth(
            Method::Post,
            &self.base_url,
            concat3("/v1/vehicle/", token_id, "/commands/frunk/open"),
            TokenKind::Privilege,
        )
    }

    /// Describes the trunk-open command.
    pub fn open_trunk(&self, token_id: &str) -> (p: AuthRequestParams)
        ensures
            p.method == Method::Post,
            p.base_url@ == self.base_url_spec(),
            p.path@ == "/v1/vehicle/"@ + token_id@ + "/commands/trunk/open"@,
            p.query_params is None,
            p.body is None,
            p.headers is None,
            p.token_kind == TokenKind::Privilege,
    {
        simple_auth(
            Method::Post,
            &self.base_url,
            concat3("/v1/vehicle/", token_id, "/commands/trunk/open"),
            TokenKind::Privilege,
        )
    }

    /// Describes listing a vehicle's error codes.
    pub fn list_error_codes(&self, user_device_id: &str) -> (p: AuthRequestParams)
        ensures
            p.method == Method::Get,
            p.base_url@ == self.base_url_spec(),
            p.path@ == "/v1/user/devices/"@ + user_device_id@ + "/error-codes"@,
            p.query_params is None,
            p.body is None,
            p.headers is None,
            p.token_kind == TokenKind::Access,
    {
        simple_auth(
            Method::Get,
            &self.base_url,
            concat3("/v1/user/devices/", user_device_id, "/error-codes"),
            TokenKind::Access,
        )
    }

    /// Describes submitting error codes for a vehicle.
    pub fn submit_error_codes(&self, user_device_id: &str, query_device_error_codes: bool) -> (p:
        AuthRequestParams)
        ensures
            p.method == Method::Post,
            p.base_url@ == self.base_url_spec(),
            p.path@ == "/v1/user/devices/"@ + user_device_id@ + "/error-codes"@,
            p.query_params is None,
            p.body matches Some(b) && b@.len() == 1 && b@[0].0@ == "queryDeviceErrorCodes"@ && b@[0].1
                == BodyValue::Bool(query_device_error_codes),
            p.headers is None,
            p.token_kind == TokenKind::Access,
    {
        let mut body: Vec<(String, BodyValue)> = Vec::new();
        body.push(("queryDeviceErrorCodes".to_owned(), BodyValue::Bool(query_device_error_codes)));
        body_auth(
            Method::Post,
            &self.base_url,
            concat3("/v1/user/devices/", user_device_id, "/error-codes"),
            body,
            TokenKind::Access,
        )
    }

    /// Describes clearing a vehicle's error codes.
    pub fn clear_error_codes(&self, user_device_id: &str) -> (p: AuthRequestParams)
        ensures
            p.method == Method::Post,
            p.base_url@ == self.base_url_spec(),
            p.path@ == "/v1/user/devices/"@ + user_device_id@ + "/error-codes/clear"@,
            p.query_params is None,
            p.body is None,
            p.headers is None,
            p.token_kind == TokenKind::Access,
    {
        simple_auth(
            Method::Post,
            &self.base_url,
            concat3("/v1/user/devices/", user_device_id, "/error-codes/clear"),
            TokenKind::Access,
        )
    }

    /// Describes fetching an aftermarket device record.
    pub fn get_aftermarket_device(&self, token_id: &str) -> (p: RequestParams)
        ensures
            p.method == Method::Get,
            p.base_url@ == self.base_url_spec(),
            p.path@ == "/v1/aftermarket/device/"@ + token_id@,
            p.query_params is None,
            p.body is None,
            p.headers is None,
    {
        simple_request(Method::Get, &self.base_url, concat2("/v1/aftermarket/device/", token_id))
    }

    /// Describes fetching an aftermarket device's image.
    pub fn get_aftermarket_device_image(&self, token_id: &str) -> (p: RequestParams)
        ensures
            p.method == Method::Get,
            p.base_url@ == self.base_url_spec(),
            p.path@ == "/v1/aftermarket/device/"@ + token_id@ + "/image"@,
            p.query_params is None,
            p.body is None,
            p.headers is None,
    {
        simple_request(
            Method::Get,
            &self.base_url,
            concat3("/v1/aftermarket/device/", token_id, "/image"),
        )
    }

    /// Describes fetching aftermarket device metadata by address.
    pub fn get_aftermarket_device_metadata_by_address(&self, address: &str) -> (p: RequestParams)
        ensures
            p.method == Method::Get,
            p.base_url@ == self.base_url_spec(),
            p.path@ == "/v1/aftermarket/device/by-address/"@ + address@,
            p.query_params is None,
            p.body is None,
            p.headers is None,
    {
        simple_request(
            Method::Get,
            &self.base_url,
            concat2("/v1/aftermarket/device/by-address/", address),
        )
    }
}

} // verus!
