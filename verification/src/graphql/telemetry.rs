//! The telemetry GraphQL client: signal queries authorized with the
//! vehicle token.

use vstd::prelude::*;
use vstd::string::*;

use crate::request::{AuthRequestParams, BodyValue, Method, TokenKind};
use crate::text::concat2;

verus! {

/// The client for the telemetry GraphQL endpoint.
pub struct Telemetry {
    base_url: String,
}

impl Telemetry {
    /// The base URL this client was constructed with.
    pub closed spec fn base_url_spec(&self) -> Seq<char> {
        self.base_url@
    }

    pub fn new(base_url: &str) -> (r: Self)
        ensures
            r.base_url_spec() == base_url@,
    {
        Self { base_url: base_url.to_owned() }
    }

    /// Describes a raw GraphQL query against the telemetry endpoint,
    /// authorized with the vehicle token.
    pub fn query(&self, query: &str) -> (p: AuthRequestParams)
        ensures
            p.method == Method::Post,
            p.base_url@ == self.base_url_spec(),
            p.path@ == "/telemetry"@,
            p.query_params is None,
            p.body matches Some(b) && b@.len() == 1 && b@[0].0@ == "query"@ && (b@[0].1 matches
                BodyValue::String(v) && v@ == query@),
            p.headers is None,
            p.token_kind == TokenKind::Vehicle,
    {
        let mut body: Vec<(String, BodyValue)> = Vec::new();
        body.push(("query".to_owned(), BodyValue::String(query.to_owned())));
        AuthRequestParams {
            method: Method::Post,
            base_url: self.base_url.clone(),
            path: "/telemetry".to_owned(),
            query_params: None,
            body: Some(body),
            headers: None,
            token_kind: TokenKind::Vehicle,
        }
    }

    /// Describes the fixed latest-signals query for one vehicle.
    pub fn get_latest_signals(&self, token_id: &str) -> (p: AuthRequestParams)
        ensures
            p.method == Method::Post,
            p.base_url@ == self.base_url_spec(),
            p.path@ == "/telemetry"@,
            p.query_params is None,
            p.body matches Some(b) && b@.len() == 1 && b@[0].0@ == "query"@ && (b@[0].1 matches
                BodyValue::String(v) && v@
                == "\n            query {\n                SignalsLatest(tokenID: \""@ + token_id@
                + "\") {\n                    powertrainTransmissionTravelledDistance {\n                        timestamp\n                        value\n                    }\n                    exteriorAirTemperature {\n                        timestamp\n                        value\n                    }\n                    speed {\n                        timestamp\n                        value\n                    }\n                    powertrainType {\n                        timestamp\n                        value\n                    }\n                }\n            }\n            "@),
            p.headers is None,
            p.token_kind == TokenKind::Vehicle,
    {
        let mut query = concat2(
            "\n            query {\n                SignalsLatest(tokenID: \"",
            token_id,
        );
        query.append(
            "\") {\n                    powertrainTransmissionTravelledDistance {\n                        timestamp\n                        value\n                    }\n                    exteriorAirTemperature {\n                        timestamp\n                        value\n                    }\n                    speed {\n                        timestamp\n                        value\n                    }\n                    powertrainType {\n                        timestamp\n                        value\n                    }\n                }\n            }\n            ",
        );
        self.query(query.as_str())
    }
}

} // verus!
