//! The identity GraphQL client: vehicle counts and per-owner definitions.

use vstd::prelude::*;
use vstd::string::*;

use crate::request::{BodyValue, Method, RequestParams};
use crate::text::{concat2, i32_to_string, int_dec_chars};

verus! {

/// The client for the identity GraphQL endpoint.
pub struct Identity {
    base_url: String,
}

impl Identity {
    /// The base URL this client was constructed with.
    pub closed spec fn base_url_spec(&self) -> Seq<char> {
        self.base_url@
    }

    pub fn new(base_url: &str) -> (r: Self)
        ensures
            r.base_url_spec() == base_url@,
    {
        Self { base_url: base_url.to_owned() }
    }

    /// Describes a raw GraphQL query against the identity endpoint.
    pub fn query(&self, query: &str) -> (p: RequestParams)
        ensures
            p.method == Method::Post,
            p.base_url@ == self.base_url_spec(),
            p.path@ == ""@,
            p.query_params is None,
            p.body matches Some(b) && b@.len() == 1 && b@[0].0@ == "query"@ && (b@[0].1 matches
                BodyValue::String(v) && v@ == query@),
            p.headers is None,
    {
        let mut body: Vec<(String, BodyValue)> = Vec::new();
        body.push(("query".to_owned(), BodyValue::String(query.to_owned())));
        RequestParams {
            method: Method::Post,
            base_url: self.base_url.clone(),
            path: "".to_owned(),
            query_params: None,
            body: Some(body),
            headers: None,
        }
    }

    /// Describes the fixed total-count query.
    pub fn count_dimo_vehicles(&self) -> (p: RequestParams)
        ensures
            p.method == Method::Post,
            p.base_url@ == self.base_url_spec(),
            p.path@ == ""@,
            p.query_params is None,
            p.body matches Some(b) && b@.len() == 1 && b@[0].0@ == "query"@ && (b@[0].1 matches
                BodyValue::String(v) && v@
                == "\n        {\n            vehicles (first: 10) {\n                totalCount\n            }\n        }\n        "@),
            p.headers is None,
    {
        self.query(
            "\n        {\n            vehicles (first: 10) {\n                totalCount\n            }\n        }\n        ",
        )
    }

    /// Describes the per-owner definition listing; `limit` defaults to 10.
    pub fn list_vehicle_definitions_per_address(&self, address: &str, limit: Option<i32>) -> (p:
        RequestParams)
        ensures
            p.method == Method::Post,
            p.base_url@ == self.base_url_spec(),
            p.path@ == ""@,
            p.query_params is None,
            p.body matches Some(b) && b@.len() == 1 && b@[0].0@ == "query"@ && (b@[0].1 matches
                BodyValue::String(v) && v@
                == "\n            {\n                vehicles(filterBy: {owner: \""@ + address@
                + "\"}, first: "@ + int_dec_chars(
                (match limit {
                    Option::Some(l) => l,
                    Option::None => 10,
                }) as int,
            )
                + ") {\n                    nodes {\n                        aftermarketDevice {\n                            tokenId\n                            address\n                        }\n                        syntheticDevice {\n                            address\n                            tokenId\n                        }\n                        definition {\n                            make\n                            model\n                            year\n                        }\n                    }\n                }\n            }\n            "@),
            p.headers is None,
    {
        let limit_value: i32 = match limit {
            Option::Some(l) => l,
            Option::None => 10,
        };
        let mut query = concat2(
            "\n            {\n                vehicles(filterBy: {owner: \"",
            address,
        );
        query.append("\"}, first: ");
        let limit_text = i32_to_string(limit_value);
        query.append(limit_text.as_str());
        query.append(
            ") {\n                    nodes {\n                        aftermarketDevice {\n                            tokenId\n                            address\n                        }\n                        syntheticDevice {\n                            address\n                            tokenId\n                        }\n                        definition {\n                            make\n                            model\n                            year\n                        }\n                    }\n                }\n            }\n            ",
        );
        self.query(query.as_str())
    }
}

} // verus!
