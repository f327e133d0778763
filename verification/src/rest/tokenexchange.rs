//! The token-exchange client: trading an access token for a
//! privilege-scoped token on a vehicle NFT.

use vstd::prelude::*;

use crate::request::{AuthRequestParams, BodyValue, Method, TokenKind};

verus! {

/// The client for the token-exchange service.
pub struct TokenExchange {
    base_url: String,
    contract_address: String,
}

/// The privileges and vehicle a token exchange asks for.
#[derive(Debug, Clone)]
pub struct TokenExchangeParams {
    pub privileges: Vec<i32>,
    pub token_id: i32,
}

impl TokenExchange {
    /// The base URL this client was constructed with.
    pub closed spec fn base_url_spec(&self) -> Seq<char> {
        self.base_url@
    }

    /// The NFT contract address this client was constructed with.
    pub closed spec fn contract_address_spec(&self) -> Seq<char> {
        self.contract_address@
    }

    pub fn new(base_url: &str, contract_address: &str) -> (r: Self)
        ensures
            r.base_url_spec() == base_url@,
            r.contract_address_spec() == contract_address@,
    {
        Self { base_url: base_url.to_owned(), contract_address: contract_address.to_owned() }
    }

    /// Describes the exchange call: the configured contract address, the
    /// requested privileges and the vehicle's token id.
    pub fn exchange(&self, token_id: i32, privileges: Vec<i32>) -> (p: AuthRequestParams)
        ensures
            p.method == Method::Post,
            p.base_url@ == self.base_url_spec(),
            p.path@ == "/v1/tokens/exchange"@,
            p.query_params is None,
            p.body matches Some(b) && {
                &&& b@.len() == 3
                &&& b@[0].0@ == "nftContractAddress"@ && (b@[0].1 matches BodyValue::String(v) && v@
                    == self.contract_address_spec())
                &&& b@[1].0@ == "privileges"@ && (b@[1].1 matches BodyValue::IntArray(v) && v@
                    == privileges@.map_values(|x: i32| x as i64))
                &&& b@[2].0@ == "tokenId"@ && b@[2].1 == BodyValue::Int(token_id as i64)
            },
            p.headers is None,
            p.token_kind == TokenKind::Access,
    {
        let mut privileges_wide: Vec<i64> = Vec::new();
        let mut i: usize = 0;
        while i < privileges.len()
            invariant
                0 <= i <= privileges@.len(),
                privileges_wide@ == privileges@.take(i as int).map_values(|x: i32| x as i64),
            decreases privileges@.len() - i,
        {
            privileges_wide.push(privileges[i] as i64);
            proof {
                assert(privileges@.take(i as int + 1) =~= privileges@.take(i as int).push(
                    privileges@[i as int],
                ));
                assert(privileges_wide@ =~= privileges@.take(i as int + 1).map_values(
                    |x: i32| x as i64,
                ));
            }
            i = i + 1;
        }
        proof {
            assert(privileges@.take(privileges@.len() as int) =~= privileges@);
        }
        let mut body: Vec<(String, BodyValue)> = Vec::new();
        body.push(
            ("nftContractAddress".to_owned(), BodyValue::String(self.contract_address.clone())),
        );
        body.push(("privileges".to_owned(), BodyValue::IntArray(privileges_wide)));
        body.push(("tokenId".to_owned(), BodyValue::Int(token_id as i64)));
        AuthRequestParams {
            method: Method::Post,
            base_url: self.base_url.clone(),
            path: "/v1/tokens/exchange".to_owned(),
            query_params: None,
            body: Some(body),
            headers: None,
            token_kind: TokenKind::Access,
        }
    }
}

} // verus!
