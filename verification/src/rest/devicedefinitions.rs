//! The device-definitions client: VIN decoding and definition search.

use vstd::prelude::*;

use crate::request::{AuthRequestParams, BodyValue, Method, RequestParams, TokenKind};

verus! {

/// The client for the device-definitions service.
pub struct DeviceDefinitions {
    base_url: String,
}

impl DeviceDefinitions {
    /// The base URL this client was constructed with.
    pub closed spec fn base_url_spec(&self) -> Seq<char> {
        self.base_url@
    }

    pub fn new(base_url: &str) -> (r: Self)
        ensures
            r.base_url_spec() == base_url@,
    {
        Self { base_url: base_url.to_owned() }
    }

    /// Describes VIN decoding. The body must carry `vin` and `countryCode`
    /// fields; every supplied field is passed through as a string value.
    pub fn decode_vin(&self, body: Vec<(String, String)>) -> (p: AuthRequestParams)
        ensures
            p.method == Method::Post,
            p.base_url@ == self.base_url_spec(),
            p.path@ == "/device-definitions/decode-vin"@,
            p.query_params is None,
            p.body matches Some(b) && {
                &&& b@.len() == body@.len()
                &&& forall|i: int|
                    0 <= i < b@.len() ==> (#[trigger] b@[i]).0 == body@[i].0 && b@[i].1
                        == BodyValue::String(body@[i].1)
            },
            p.headers is None,
            p.token_kind == TokenKind::Developer,
    {
        let mut string_body: Vec<(String, BodyValue)> = Vec::new();
        let mut i: usize = 0;
        while i < body.len()
            invariant
                0 <= i <= body@.len(),
                string_body@.len() == i,
                forall|j: int|
                    0 <= j < i ==> (#[trigger] string_body@[j]).0 == body@[j].0
                        && string_body@[j].1 == BodyValue::String(body@[j].1),
            decreases body@.len() - i,
        {
            let pair = &body[i];
            string_body.push((pair.0.clone(), BodyValue::String(pair.1.clone())));
            i = i + 1;
        }
        AuthRequestParams {
            method: Method::Post,
            base_url: self.base_url.clone(),
            path: "/device-definitions/decode-vin".to_owned(),
            query_params: None,
            body: Some(string_body),
            headers: None,
            token_kind: TokenKind::Developer,
        }
    }

    /// Describes a definition search: the query string first, then any
    /// additional parameters in their given order.
    pub fn search(&self, query: &str, additional_params: Option<Vec<(String, String)>>) -> (p:
        RequestParams)
        ensures
            p.method == Method::Get,
            p.base_url@ == self.base_url_spec(),
            p.path@ == "/device-definitions/search"@,
            p.query_params matches Some(q) && {
                &&& q@.len() == 1 + (match additional_params {
                    Option::Some(a) => a@.len(),
                    Option::None => 0,
                })
                &&& q@[0].0@ == "query"@ && q@[0].1@ == query@
                &&& (additional_params matches Some(a) ==> q@.skip(1) == a@)
            },
            p.body is None,
            p.headers is None,
    {
        let mut query_params: Vec<(String, String)> = Vec::new();
        query_params.push(("query".to_owned(), query.to_owned()));
        let query_params = match additional_params {
            Option::Some(mut a) => {
                query_params.append(&mut a);
                query_params
            },
            Option::None => query_params,
        };
        proof {
            assert(query_params@.skip(1) =~= (match additional_params {
                Option::Some(a) => a@,
                Option::None => Seq::<(String, String)>::empty(),
            }));
        }
        RequestParams {
            method: Method::Get,
            base_url: self.base_url.clone(),
            path: "/device-definitions/search".to_owned(),
            query_params: Some(query_params),
            body: None,
            headers: None,
        }
    }
}

} // verus!
