//! The challenge-response client: challenge generation, signing, and
//! submission, which together exchange a wallet signature for a bearer
//! token.
//!
//! The two network steps are described as request values; the caller
//! dispatches them and parses the responses. Signing is local and fully
//! verified against the signature layer.

use vstd::prelude::*;
use vstd::string::*;

use crate::hexcodec::hex_decoded;
use crate::request::{BodyValue, Method, RequestParams};
use crate::signing::{key_accepted, sign_message, signature_hex, strip_0x, SigningError};

verus! {

/// The client for the challenge-response endpoints of the auth service.
pub struct AuthClient {
    base_url: String,
}

/// One login attempt's nonce, consumed exactly once by signing and
/// submission.
#[derive(Debug, Clone)]
pub struct ChallengeResponse {
    pub challenge: String,
    pub state: String,
}

/// The bearer credential issued for a valid signature. Owned by the caller;
/// this subsystem does not cache or refresh it.
#[derive(Debug, Clone)]
pub struct AccessToken {
    pub access_token: String,
    pub id_token: String,
    pub token_type: String,
    pub expires_in: i32,
}

/// The signature text with exactly one `0x` prefix: one is added only when
/// none is present.
pub open spec fn prefixed_signature(s: Seq<char>) -> Seq<char> {
    if s.len() >= 2 && s[0] == '0' && s[1] == 'x' {
        s
    } else {
        seq!['0', 'x'] + s
    }
}

impl AuthClient {
    /// The base URL this client was constructed with.
    pub closed spec fn base_url_spec(&self) -> Seq<char> {
        self.base_url@
    }

    pub fn new(base_url: String) -> (r: Self)
        ensures
            r.base_url_spec() == base_url@,
    {
        Self { base_url }
    }

    /// Describes the challenge-generation call: a POST carrying the wallet
    /// id, domain, the fixed scope and response type, and the wallet id
    /// again as the login subject.
    pub fn generate_challenge(&self, client_id: &str, domain: &str) -> (p: RequestParams)
        ensures
            p.method == Method::Post,
            p.base_url@ == self.base_url_spec(),
            p.path@ == "/auth/web3/generate_challenge"@,
            p.query_params matches Some(q) && {
                &&& q@.len() == 5
                &&& q@[0].0@ == "client_id"@ && q@[0].1@ == client_id@
                &&& q@[1].0@ == "domain"@ && q@[1].1@ == domain@
                &&& q@[2].0@ == "scope"@ && q@[2].1@ == "openid email"@
                &&& q@[3].0@ == "response_type"@ && q@[3].1@ == "code"@
                &&& q@[4].0@ == "address"@ && q@[4].1@ == client_id@
            },
            p.body is None,
            p.headers is None,
    {
        let mut query_params: Vec<(String, String)> = Vec::new();
        query_params.push(("client_id".to_owned(), client_id.to_owned()));
        query_params.push(("domain".to_owned(), domain.to_owned()));
        query_params.push(("scope".to_owned(), "openid email".to_owned()));
        query_params.push(("response_type".to_owned(), "code".to_owned()));
        query_params.push(("address".to_owned(), client_id.to_owned()));
        RequestParams {
            method: Method::Post,
            base_url: self.base_url.clone(),
            path: "/auth/web3/generate_challenge".to_owned(),
            query_params: Some(query_params),
            body: None,
            headers: None,
        }
    }

    /// Signs the challenge text with the supplied private key; see the
    /// signature layer for the exact payload and serialization.
    pub fn sign_challenge(&self, message: &str, private_key: &str) -> (r: Result<
        String,
        SigningError,
    >)
        ensures
            r is Ok <==> key_accepted(private_key@),
            r is Ok ==> r->Ok_0@ == signature_hex(
                message.spec_bytes(),
                hex_decoded(strip_0x(private_key@)),
            ),
            r matches Ok(sig) ==> sig@.len() == 130,
            r is Err ==> r->Err_0 == SigningError::InvalidKey,
    {
        sign_message(message, private_key)
    }

    /// Describes the challenge-submission call: a form-encoded POST whose
    /// `signature` field carries the hex signature with exactly one `0x`
    /// prefix, added here and nowhere else.
    pub fn submit_challenge(&self, client_id: &str, domain: &str, state: &str, signature: &str) -> (p:
        RequestParams)
        ensures
            p.method == Method::Post,
            p.base_url@ == self.base_url_spec(),
            p.path@ == "/auth/web3/submit_challenge"@,
            p.query_params is None,
            p.body matches Some(b) && {
                &&& b@.len() == 5
                &&& b@[0].0@ == "client_id"@ && (b@[0].1 matches BodyValue::String(v) && v@
                    == client_id@)
                &&& b@[1].0@ == "domain"@ && (b@[1].1 matches BodyValue::String(v) && v@ == domain@)
                &&& b@[2].0@ == "grant_type"@ && (b@[2].1 matches BodyValue::String(v) && v@
                    == "authorization_code"@)
                &&& b@[3].0@ == "state"@ && (b@[3].1 matches BodyValue::String(v) && v@ == state@)
                &&& b@[4].0@ == "signature"@ && (b@[4].1 matches BodyValue::String(v) && v@
                    == prefixed_signature(signature@))
            },
            p.headers matches Some(h) && h@.len() == 1 && h@[0].0@ == "Content-Type"@ && h@[0].1@
                == "x-www-form-urlencoded"@,
    {
        let mut body: Vec<(String, BodyValue)> = Vec::new();
        body.push(("client_id".to_owned(), BodyValue::String(client_id.to_owned())));
        body.push(("domain".to_owned(), BodyValue::String(domain.to_owned())));
        body.push(("grant_type".to_owned(), BodyValue::String("authorization_code".to_owned())));
        body.push(("state".to_owned(), BodyValue::String(state.to_owned())));
        body.push(("signature".to_owned(), BodyValue::String(ensure_0x_prefix(signature))));
        let mut headers: Vec<(String, String)> = Vec::new();
        headers.push(("Content-Type".to_owned(), "x-www-form-urlencoded".to_owned()));
        RequestParams {
            method: Method::Post,
            base_url: self.base_url.clone(),
            path: "/auth/web3/submit_challenge".to_owned(),
            query_params: None,
            body: Some(body),
            headers: Some(headers),
        }
    }
}

/// Prefixes `s` with `0x` unless it already starts with it.
pub fn ensure_0x_prefix(s: &str) -> (r: String)
    ensures
        r@ == prefixed_signature(s@),
{
    let n = s.unicode_len();
    if n >= 2 && s.get_char(0) == '0' && s.get_char(1) == 'x' {
        s.to_owned()
    } else {
        let r = crate::text::concat2("0x", s);
        proof {
            reveal_strlit("0x");
            assert("0x"@ =~= seq!['0', 'x']);
        }
        r
    }
}

} // verus!
