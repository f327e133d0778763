//! The valuations client: valuations and offers for a vehicle.

use vstd::prelude::*;

use crate::request::{AuthRequestParams, Method, TokenKind};
use crate::text::concat3;

verus! {

/// The client for the valuations service.
pub struct Valuations {
    base_url: String,
}

/// A body-less authorized GET on this service.
fn simple_get(base_url: &String, path: String) -> (p: AuthRequestParams)
    ensures
        p.method == Method::Get,
        p.base_url@ == base_url@,
        p.path@ == path@,
        p.query_params is None,
        p.body is None,
        p.headers is None,
        p.token_kind == TokenKind::Access,
{
    AuthRequestParams {
        method: Method::Get,
        base_url: base_url.clone(),
        path,
        query_params: None,
        body: None,
        headers: None,
        token_kind: TokenKind::Access,
    }
}

impl Valuations {
    /// The base URL this client was constructed with.
    pub closed spec fn base_url_spec(&self) -> Seq<char> {
        self.base_url@
    }

    pub fn new(base_url: &str) -> (r: Self)
        ensures
            r.base_url_spec() == base_url@,
    {
        Self { base_url: base_url.to_owned() }
    }

    /// Describes fetching a vehicle's valuations.
    pub fn get_valuations(&self, user_device_id: &str) -> (p: AuthRequestParams)
        ensures
            p.method == Method::Get,
            p.base_url@ == self.base_url_spec(),
            p.path@ == "/v1/user/devices/"@ + user_device_id@ + "/valuations"@,
            p.query_params is None,
            p.body is None,
            p.headers is None,
            p.token_kind == TokenKind::Access,
    {
        simple_get(&self.base_url, concat3("/v1/user/devices/", user_device_id, "/valuations"))
    }

    /// Describes requesting an instant offer for a vehicle.
    pub fn get_instant_offers(&self, user_device_id: &str) -> (p: AuthRequestParams)
        ensures
            p.method == Method::Get,
            p.base_url@ == self.base_url_spec(),
            p.path@ == "/v1/user/devices/"@ + user_device_id@ + "/instant-offer"@,
            p.query_params is None,
            p.body is None,
            p.headers is None,
            p.token_kind == TokenKind::Access,
    {
        simple_get(&self.base_url, concat3("/v1/user/devices/", user_device_id, "/instant-offer"))
    }

    /// Describes fetching a vehicle's existing offers.
    pub fn get_offers(&self, user_device_id: &str) -> (p: AuthRequestParams)
        ensures
            p.method == Method::Get,
            p.base_url@ == self.base_url_spec(),
            p.path@ == "/v1/user/devices/"@ + user_device_id@ + "/offers"@,
            p.query_params is None,
            p.body is None,
            p.headers is None,
            p.token_kind == TokenKind::Access,
    {
        simple_get(&self.base_url, concat3("/v1/user/devices/", user_device_id, "/offers"))
    }
}

} // verus!
