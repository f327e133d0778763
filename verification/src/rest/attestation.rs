//! The attestation client: verifiable-credential creation for VINs and
//! proof-of-movement.

use vstd::prelude::*;

use crate::request::{AuthRequestParams, BodyValue, Method, TokenKind};
use crate::text::concat2;

verus! {

/// The client for the attestation service.
pub struct AttestationClient {
    base_url: String,
}

impl AttestationClient {
    /// The base URL this client was constructed with.
    pub closed spec fn base_url_spec(&self) -> Seq<char> {
        self.base_url@
    }

    pub fn new(base_url: String) -> (r: Self)
        ensures
            r.base_url_spec() == base_url@,
    {
        Self { base_url }
    }

    /// Describes VIN verifiable-credential creation for a vehicle.
    pub fn create_vin_vc(&self, token_id: &str, force: &str) -> (p: AuthRequestParams)
        ensures
            p.method == Method::Post,
            p.base_url@ == self.base_url_spec(),
            p.path@ == "/v1/vc/vin/"@ + token_id@,
            p.query_params matches Some(q) && q@.len() == 1 && q@[0].0@ == "force"@ && q@[0].1@
                == force@,
            p.body is None,
            p.headers is None,
            p.token_kind == TokenKind::Privilege,
    {
        let mut query_params: Vec<(String, String)> = Vec::new();
        query_params.push(("force".to_owned(), force.to_owned()));
        AuthRequestParams {
            method: Method::Post,
            base_url: self.base_url.clone(),
            path: concat2("/v1/vc/vin/", token_id),
            query_params: Some(query_params),
            body: None,
            headers: None,
            token_kind: TokenKind::Privilege,
        }
    }

    /// Describes proof-of-movement verifiable-credential creation, with a
    /// caller-supplied body.
    pub fn create_pom_vc(&self, token_id: &str, data: Vec<(String, BodyValue)>) -> (p:
        AuthRequestParams)
        ensures
            p.method == Method::Post,
            p.base_url@ == self.base_url_spec(),
            p.path@ == "/v1/vc/pom/"@ + token_id@,
            p.query_params is None,
            p.body matches Some(b) && b == data,
            p.headers is None,
            p.token_kind == TokenKind::Privilege,
    {
        AuthRequestParams {
            method: Method::Post,
            base_url: self.base_url.clone(),
            path: concat2("/v1/vc/pom/", token_id),
            query_params: None,
            body: Some(data),
            headers: None,
            token_kind: TokenKind::Privilege,
        }
    }
}

} // verus!
