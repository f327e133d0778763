//! The trips client: listing a vehicle's trips.

use vstd::prelude::*;

use crate::request::{AuthRequestParams, Method, TokenKind};
use crate::text::{concat3, dec_chars, usize_to_string};

verus! {

/// The client for the trips service.
pub struct Trips {
    base_url: String,
}

impl Trips {
    /// The base URL this client was constructed with.
    pub closed spec fn base_url_spec(&self) -> Seq<char> {
        self.base_url@
    }

    pub fn new(base_url: &str) -> (r: Self)
        ensures
            r.base_url_spec() == base_url@,
    {
        Self { base_url: base_url.to_owned() }
    }

    /// Describes listing a vehicle's trips, with an optional page number.
    pub fn list(&self, token_id: &str, page: Option<u32>) -> (p: AuthRequestParams)
        ensures
            p.method == Method::Get,
            p.base_url@ == self.base_url_spec(),
            p.path@ == "/v1/vehicle/"@ + token_id@ + "/trips"@,
            p.query_params matches Some(q) && (match page {
                Option::Some(n) => q@.len() == 1 && q@[0].0@ == "page"@ && q@[0].1@ == dec_chars(
                    n as nat,
                ),
                Option::None => q@.len() == 0,
            }),
            p.body is None,
            p.headers is None,
            p.token_kind == TokenKind::Vehicle,
    {
        let mut query_params: Vec<(String, String)> = Vec::new();
        match page {
            Option::Some(n) => {
                query_params.push(("page".to_owned(), usize_to_string(n as usize)));
            },
            Option::None => {},
        }
        AuthRequestParams {
            method: Method::Get,
            base_url: self.base_url.clone(),
            path: concat3("/v1/vehicle/", token_id, "/trips"),
            query_params: Some(query_params),
            body: None,
            headers: None,
            token_kind: TokenKind::Vehicle,
        }
    }
}

} // verus!
