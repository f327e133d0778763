//! The request dispatcher: building one HTTP call from a structured
//! description, resolving the bearer credential an authorized call needs,
//! and classifying transport and HTTP outcomes.
//!
//! Everything up to the wire is verified: the target URL with its encoded
//! query, the JSON-or-form body decision, the header merge, and the error
//! classification. The caller performs the exchange itself and hands the
//! outcome back to [`interpret_response`].

use vstd::prelude::*;
use vstd::string::*;
use vstd::utf8::encode_utf8;

use crate::credentials::Credentials;
use crate::text::{
    chars_of_ascii, eq_ignore_ascii_case_bytes, int_dec_bytes, urlencode_bytes, urlencoded,
};

verus! {

broadcast use vstd::string::group_string_axioms;

/// Declared so serde_json's structured values can be carried through
/// descriptions and results.
#[verifier::external_type_specification]
#[verifier::external_body]
pub struct ExJsonValue(serde_json::Value);

/// HTTP method of a request description.
#[derive(Clone, Copy, PartialEq, Eq, Structural, Debug)]
pub enum Method {
    Get,
    Post,
    Patch,
    Put,
    Delete,
}

/// The dispatcher executes GET, POST and PATCH only.
pub open spec fn method_supported(m: Method) -> bool {
    m == Method::Get || m == Method::Post || m == Method::Patch
}

/// Which credential slot an authorized call uses.
#[derive(Clone, Copy, PartialEq, Eq, Structural, Debug)]
pub enum TokenKind {
    Developer,
    Vehicle,
    Access,
    Privilege,
}

/// A value in a query string.
#[derive(Debug, Clone)]
pub enum QueryValue {
    Str(String),
    Bool(bool),
}

/// A value in a request body: a tagged union mirroring structured data.
#[derive(Debug)]
pub enum BodyValue {
    String(String),
    Array(Vec<String>),
    Bool(bool),
    Int(i64),
    IntArray(Vec<i64>),
    Json(serde_json::Value),
}

/// How a dispatched call failed.
#[derive(Debug)]
pub enum RequestError {
    /// Transport-level failure: the exchange could not happen.
    Transport(String),
    /// Non-2xx HTTP status, with the response text when it could be read.
    Http(u16, String),
    /// A success status whose body did not parse as structured data.
    Decode,
    /// A method other than GET, POST or PATCH.
    UnsupportedMethod,
    /// A token kind that no credential slot answers for.
    InvalidTokenKind,
}

/// A single HTTP call, described structurally. Immutable once constructed;
/// consumed exactly once by the dispatcher.
#[derive(Debug)]
pub struct RequestParams {
    pub method: Method,
    pub base_url: String,
    pub path: String,
    pub query_params: Option<Vec<(String, String)>>,
    pub body: Option<Vec<(String, BodyValue)>>,
    pub headers: Option<Vec<(String, String)>>,
}

/// A request description together with the token kind it must be
/// authorized with.
#[derive(Debug)]
pub struct AuthRequestParams {
    pub method: Method,
    pub base_url: String,
    pub path: String,
    pub query_params: Option<Vec<(String, String)>>,
    pub body: Option<Vec<(String, BodyValue)>>,
    pub headers: Option<Vec<(String, String)>>,
    pub token_kind: TokenKind,
}

/// The body of a prepared request.
#[derive(Debug)]
pub enum PreparedBody {
    Empty,
    Form(String),
    Json(Vec<(String, BodyValue)>),
}

/// A fully prepared HTTP exchange: the target URL with its encoded query,
/// the encoding-resolved body, and the headers to attach, in order.
#[derive(Debug)]
pub struct PreparedRequest {
    pub method: Method,
    pub url: String,
    pub body: PreparedBody,
    pub headers: Vec<(String, String)>,
}

/// What the transport handed back: a failure to exchange at all, or a
/// response with its status and best-effort body text.
pub enum HttpOutcome {
    Transport(String),
    Response(u16, Option<String>),
}

/// One encoded `key=value` query pair.
pub open spec fn encoded_pair(k: Seq<char>, v: Seq<char>) -> Seq<char> {
    urlencoded(k) + seq!['='] + urlencoded(v)
}

/// The first `n` query pairs, encoded and joined with `&`.
pub open spec fn rendered_query_prefix(q: Seq<(String, String)>, n: int) -> Seq<char>
    decreases n,
{
    if n <= 0 {
        Seq::empty()
    } else if n == 1 {
        encoded_pair(q[0].0@, q[0].1@)
    } else {
        rendered_query_prefix(q, n - 1) + seq!['&'] + encoded_pair(q[n - 1].0@, q[n - 1].1@)
    }
}

/// All query pairs, encoded and joined with `&`.
pub open spec fn rendered_query(q: Seq<(String, String)>) -> Seq<char> {
    rendered_query_prefix(q, q.len() as int)
}

/// The views of an optional list of pairs.
pub open spec fn pairs_view(o: Option<Vec<(String, String)>>) -> Option<Seq<(String, String)>> {
    match o {
        Option::Some(v) => Option::Some(v@),
        Option::None => Option::None,
    }
}

/// The target URL: base joined to path, with the encoded query appended
/// after `?` when there is at least one pair. No slash normalization.
pub open spec fn url_of(base: Seq<char>, path: Seq<char>, q: Option<Seq<(String, String)>>) -> Seq<
    char,
> {
    base + path + (match q {
        Option::None => Seq::<char>::empty(),
        Option::Some(pairs) => if pairs.len() == 0 {
            Seq::<char>::empty()
        } else {
            seq!['?'] + rendered_query(pairs)
        },
    })
}

/// The value of the first `Content-Type` header, if any.
pub open spec fn content_type_value(h: Seq<(String, String)>) -> Option<Seq<char>>
    decreases h.len(),
{
    if h.len() == 0 {
        Option::None
    } else if h[0].0@ == "Content-Type"@ {
        Option::Some(h[0].1@)
    } else {
        content_type_value(h.drop_first())
    }
}

/// Whether a header list asks for a form-encoded body: its first
/// `Content-Type` value equals `x-www-form-urlencoded` up to ASCII case.
pub open spec fn wants_form_body(h: Seq<(String, String)>) -> bool {
    match content_type_value(h) {
        Option::None => false,
        Option::Some(v) => eq_ignore_ascii_case_bytes(
            encode_utf8(v),
            encode_utf8("x-www-form-urlencoded"@),
        ),
    }
}

/// Whether a request description asks for a form-encoded body.
pub open spec fn form_requested(headers: Option<Vec<(String, String)>>) -> bool {
    match headers {
        Option::None => false,
        Option::Some(h) => wants_form_body(h@),
    }
}

/// The bytes a body value contributes to a form-encoded body, when it is a
/// primitive; arrays and structured values cannot be form-encoded.
pub open spec fn form_value_bytes(v: BodyValue) -> Option<Seq<u8>> {
    match v {
        BodyValue::String(s) => Option::Some(encode_utf8(s@)),
        BodyValue::Bool(b) => Option::Some(
            if b {
                encode_utf8("true"@)
            } else {
                encode_utf8("false"@)
            },
        ),
        BodyValue::Int(i) => Option::Some(int_dec_bytes(i as int)),
        BodyValue::Array(_) => Option::None,
        BodyValue::IntArray(_) => Option::None,
        BodyValue::Json(_) => Option::None,
    }
}

/// One form-encoded `key=value` field, as bytes.
pub open spec fn form_field_bytes(k: Seq<char>, vb: Seq<u8>) -> Seq<u8> {
    urlencode_bytes(encode_utf8(k)) + seq![61u8] + urlencode_bytes(vb)
}

/// The first `n` body fields, form-encoded as bytes and joined with `&`;
/// `None` when some value cannot be form-encoded.
pub open spec fn form_body_bytes_prefix(b: Seq<(String, BodyValue)>, n: int) -> Option<Seq<u8>>
    decreases n,
{
    if n <= 0 {
        Option::Some(Seq::empty())
    } else {
        match (form_body_bytes_prefix(b, n - 1), form_value_bytes(b[n - 1].1)) {
            (Option::Some(acc), Option::Some(vb)) => Option::Some(
                acc + (if n == 1 {
                    Seq::empty()
                } else {
                    seq![38u8]
                }) + form_field_bytes(b[n - 1].0@, vb),
            ),
            _ => Option::None,
        }
    }
}

/// The whole body, form-encoded as text; `None` when some value cannot be
/// form-encoded.
pub open spec fn form_body_text(b: Seq<(String, BodyValue)>) -> Option<Seq<char>> {
    match form_body_bytes_prefix(b, b.len() as int) {
        Option::Some(bytes) => Option::Some(chars_of_ascii(bytes)),
        Option::None => Option::None,
    }
}

/// A form body was requested but some value cannot be form-encoded.
pub open spec fn form_conflict(
    body: Option<Vec<(String, BodyValue)>>,
    headers: Option<Vec<(String, String)>>,
) -> bool {
    &&& form_requested(headers)
    &&& body matches Option::Some(b)
    &&& form_body_text(b@) is None
}

/// The token a resolvable kind maps to.
pub open spec fn resolved_token(kind: TokenKind, c: Credentials) -> Seq<char>
    recommends
        kind == TokenKind::Developer || kind == TokenKind::Vehicle,
{
    if kind == TokenKind::Developer {
        c.developer_jwt@
    } else {
        c.vehicle_jwt@
    }
}

/// Builds the `Authorization` header an authorized call attaches.
///
/// `developer` and `vehicle` resolve to the corresponding pre-issued token,
/// even when that token is the empty string: the header is then
/// `Bearer ` with nothing after it, by design. Every other kind is refused
/// before any I/O.
pub fn build_auth_header(token_kind: TokenKind, credentials: &Credentials) -> (r: Result<
    Vec<(String, String)>,
    RequestError,
>)
    ensures
        r is Ok <==> (token_kind == TokenKind::Developer || token_kind == TokenKind::Vehicle),
        r matches Ok(h) ==> {
            &&& h@.len() == 1
            &&& h@[0].0@ == "Authorization"@
            &&& h@[0].1@ == "Bearer "@ + resolved_token(token_kind, *credentials)
        },
        r is Err ==> (r matches Err(e) && e == RequestError::InvalidTokenKind),
{
    let token: &String = match token_kind {
        TokenKind::Developer => &credentials.developer_jwt,
        TokenKind::Vehicle => &credentials.vehicle_jwt,
        TokenKind::Access => {
            return Err(RequestError::InvalidTokenKind);
        },
        TokenKind::Privilege => {
            return Err(RequestError::InvalidTokenKind);
        },
    };
    let value = crate::text::concat2("Bearer ", token.as_str());
    let mut headers: Vec<(String, String)> = Vec::new();
    headers.push(("Authorization".to_owned(), value));
    Ok(headers)
}

/// Finds the value of the first `Content-Type` header.
fn find_content_type(h: &Vec<(String, String)>) -> (r: Option<String>)
    ensures
        r matches Some(v) ==> (content_type_value(h@) matches Some(cv) && v@ == cv),
        r is None ==> content_type_value(h@) is None,
{
    let key: String = "Content-Type".to_owned();
    let mut i: usize = 0;
    proof {
        assert(h@.skip(0) =~= h@);
    }
    while i < h.len()
        invariant
            0 <= i <= h@.len(),
            key@ == "Content-Type"@,
            content_type_value(h@) == content_type_value(h@.skip(i as int)),
        decreases h@.len() - i,
    {
        proof {
            assert(h@.skip(i as int)[0] == h@[i as int]);
        }
        if h[i].0 == key {
            return Some(h[i].1.clone());
        }
        proof {
            assert(h@.skip(i as int).drop_first() =~= h@.skip(i as int + 1));
        }
        i = i + 1;
    }
    proof {
        assert(h@.skip(h@.len() as int) =~= Seq::<(String, String)>::empty());
    }
    None
}

/// Whether a request description asks for a form-encoded body.
fn headers_want_form(headers: &Option<Vec<(String, String)>>) -> (r: bool)
    ensures
        r == form_requested(*headers),
{
    match headers {
        Option::None => false,
        Option::Some(h) => match find_content_type(h) {
            Option::None => false,
            Option::Some(v) => crate::text::bytes_eq_ignore_ascii_case(
                &v.as_str().as_bytes_vec(),
                &"x-www-form-urlencoded".as_bytes_vec(),
            ),
        },
    }
}

/// The bytes a body value contributes to a form-encoded body.
fn form_value_to_bytes(v: &BodyValue) -> (r: Option<Vec<u8>>)
    ensures
        r matches Some(b) ==> (form_value_bytes(*v) matches Some(s) && b@ == s),
        r is None ==> form_value_bytes(*v) is None,
{
    match v {
        BodyValue::String(s) => Some(s.as_str().as_bytes_vec()),
        BodyValue::Bool(b) => Some(
            if *b {
                "true".as_bytes_vec()
            } else {
                "false".as_bytes_vec()
            },
        ),
        BodyValue::Int(i) => Some(crate::text::i64_dec_bytes(*i)),
        BodyValue::Array(_) => None,
        BodyValue::IntArray(_) => None,
        BodyValue::Json(_) => None,
    }
}

/// Renders a body as a form-encoded string, or reports that some value
/// cannot be form-encoded.
fn render_form_body(b: &Vec<(String, BodyValue)>) -> (r: Option<String>)
    ensures
        r matches Some(s) ==> (form_body_text(b@) matches Some(t) && s@ == t),
        r is None ==> form_body_text(b@) is None,
{
    let mut out: Vec<u8> = Vec::new();
    let mut i: usize = 0;
    while i < b.len()
        invariant
            0 <= i <= b@.len(),
            form_body_bytes_prefix(b@, i as int) matches Some(acc) && out@ == acc,
            forall|j: int| 0 <= j < out@.len() ==> out@[j] < 128,
        decreases b@.len() - i,
    {
        if i > 0 {
            out.push(38);
        }
        let key_bytes = b[i].0.as_str().as_bytes_vec();
        let mut enc_key = crate::text::urlencode_bytes_exec(&key_bytes);
        out.append(&mut enc_key);
        out.push(61);
        match form_value_to_bytes(&b[i].1) {
            Option::Some(vb) => {
                let mut enc_val = crate::text::urlencode_bytes_exec(&vb);
                out.append(&mut enc_val);
            },
            Option::None => {
                proof {
                    lemma_form_prefix_none(b@, i as int, b@.len() as int);
                }
                return None;
            },
        }
        proof {
            assert(form_body_bytes_prefix(b@, i as int + 1) matches Some(acc2) && out@ =~= acc2);
        }
        i = i + 1;
    }
    let ghost final_bytes = out@;
    let s = crate::text::ascii_to_string(out);
    proof {
        assert(form_body_text(b@) matches Some(t) && s@ =~= t);
    }
    Some(s)
}

/// Builds the target URL: base joined to path, with the encoded query.
fn build_url(base: &String, path: &String, query: &Option<Vec<(String, String)>>) -> (r: String)
    ensures
        r@ == url_of(base@, path@, pairs_view(*query)),
{
    let mut url = crate::text::concat2(base.as_str(), path.as_str());
    match query {
        Option::None => url,
        Option::Some(q) => {
            if q.len() == 0 {
                url
            } else {
                url.append("?");
                proof {
                    reveal_strlit("?");
                    assert("?"@ =~= seq!['?']);
                }
                let mut i: usize = 0;
                while i < q.len()
                    invariant
                        0 <= i <= q@.len(),
                        q@.len() > 0,
                        url@ == base@ + path@ + seq!['?'] + rendered_query_prefix(q@, i as int),
                    decreases q@.len() - i,
                {
                    if i > 0 {
                        url.append("&");
                        proof {
                            reveal_strlit("&");
                            assert("&"@ =~= seq!['&']);
                        }
                    }
                    let encoded_key = crate::text::urlencode(q[i].0.as_str());
                    url.append(encoded_key.as_str());
                    url.append("=");
                    let encoded_value = crate::text::urlencode(q[i].1.as_str());
                    url.append(encoded_value.as_str());
                    proof {
                        reveal_strlit("=");
                        assert("="@ =~= seq!['=']);
                        assert(url@ =~= base@ + path@ + seq!['?'] + rendered_query_prefix(
                            q@,
                            i as int + 1,
                        ));
                    }
                    i = i + 1;
                }
                url
            }
        },
    }
}

/// Builds one call from its description.
///
/// The method must be GET, POST or PATCH; anything else is refused before
/// any I/O. The URL is base joined to path with the encoded query. The body
/// is form-encoded when the headers ask for it and sent as structured data
/// otherwise; a form body whose values cannot all be form-encoded fails as
/// the transport would report it. Headers pass through unchanged.
pub fn prepare_request(params: RequestParams) -> (r: Result<PreparedRequest, RequestError>)
    ensures
        (r matches Err(e) && e == RequestError::UnsupportedMethod) <==> !method_supported(
            params.method,
        ),
        (r matches Err(e) && e matches RequestError::Transport(_)) <==> (method_supported(
            params.method,
        ) && form_conflict(params.body, params.headers)),
        r matches Err(RequestError::Transport(m)) ==> m@
            == "form body has a value that cannot be form-encoded"@,
        r is Ok <==> (method_supported(params.method) && !form_conflict(
            params.body,
            params.headers,
        )),
        r matches Ok(p) ==> {
            &&& p.method == params.method
            &&& p.url@ == url_of(params.base_url@, params.path@, pairs_view(params.query_params))
            &&& (match params.headers {
                Option::Some(h) => p.headers@ == h@,
                Option::None => p.headers@ == Seq::<(String, String)>::empty(),
            })
            &&& (match params.body {
                Option::None => p.body is Empty,
                Option::Some(b) => if form_requested(params.headers) {
                    p.body matches PreparedBody::Form(s) && Option::Some(s@) == form_body_text(b@)
                } else {
                    p.body matches PreparedBody::Json(j) && j == b
                },
            })
        },
{
    match params.method {
        Method::Put => {
            return Err(RequestError::UnsupportedMethod);
        },
        Method::Delete => {
            return Err(RequestError::UnsupportedMethod);
        },
        _ => {},
    }
    let url = build_url(&params.base_url, &params.path, &params.query_params);
    let use_form = headers_want_form(&params.headers);
    let body = match params.body {
        Option::None => PreparedBody::Empty,
        Option::Some(b) => if use_form {
            match render_form_body(&b) {
                Option::Some(s) => PreparedBody::Form(s),
                Option::None => {
                    return Err(
                        RequestError::Transport(
                            "form body has a value that cannot be form-encoded".to_owned(),
                        ),
                    );
                },
            }
        } else {
            PreparedBody::Json(b)
        },
    };
    let headers = match params.headers {
        Option::Some(h) => h,
        Option::None => Vec::new(),
    };
    Ok(PreparedRequest { method: params.method, url, body, headers })
}

/// A token kind the credential resolver answers for.
pub open spec fn token_kind_resolvable(kind: TokenKind) -> bool {
    kind == TokenKind::Developer || kind == TokenKind::Vehicle
}

/// The caller-supplied headers, or the empty list.
pub open spec fn headers_or_empty(o: Option<Vec<(String, String)>>) -> Seq<(String, String)> {
    match o {
        Option::Some(h) => h@,
        Option::None => Seq::empty(),
    }
}

proof fn lemma_form_prefix_none(b: Seq<(String, BodyValue)>, i: int, n: int)
    requires
        0 <= i < n <= b.len(),
        form_value_bytes(b[i].1) is None,
    ensures
        form_body_bytes_prefix(b, n) is None,
    decreases n,
{
    if n - 1 > i {
        lemma_form_prefix_none(b, i, n - 1);
    }
}

proof fn lemma_content_type_append(h: Seq<(String, String)>, p: (String, String))
    requires
        p.0@ != "Content-Type"@,
    ensures
        content_type_value(h + seq![p]) == content_type_value(h),
    decreases h.len(),
{
    if h.len() == 0 {
        assert((h + seq![p])[0] == p);
        assert((h + seq![p]).drop_first() =~= Seq::<(String, String)>::empty());
    } else {
        assert((h + seq![p])[0] == h[0]);
        assert((h + seq![p]).drop_first() =~= h.drop_first() + seq![p]);
        lemma_content_type_append(h.drop_first(), p);
    }
}

/// Builds one authorized call from its description.
///
/// The token kind is resolved against the credential store first:
/// `developer` and `vehicle` map to their pre-issued tokens (an empty token
/// still yields an `Authorization: Bearer ` header, by design), and any
/// other kind fails closed before any I/O. The caller's headers are all
/// kept, with the generated `Authorization` header appended; the call is
/// then built exactly as [`prepare_request`] builds it.
pub fn prepare_auth_request(params: AuthRequestParams, credentials: &Credentials) -> (r: Result<
    PreparedRequest,
    RequestError,
>)
    ensures
        (r matches Err(e) && e == RequestError::InvalidTokenKind) <==> !token_kind_resolvable(
            params.token_kind,
        ),
        (r matches Err(e) && e == RequestError::UnsupportedMethod) <==> (token_kind_resolvable(
            params.token_kind,
        ) && !method_supported(params.method)),
        (r matches Err(e) && e matches RequestError::Transport(_)) <==> (token_kind_resolvable(
            params.token_kind,
        ) && method_supported(params.method) && form_conflict(params.body, params.headers)),
        r is Ok <==> (token_kind_resolvable(params.token_kind) && method_supported(params.method)
            && !form_conflict(params.body, params.headers)),
        r matches Ok(p) ==> {
            &&& p.method == params.method
            &&& p.url@ == url_of(params.base_url@, params.path@, pairs_view(params.query_params))
            &&& p.headers@.len() == headers_or_empty(params.headers).len() + 1
            &&& p.headers@.take(p.headers@.len() - 1) == headers_or_empty(params.headers)
            &&& p.headers@.last().0@ == "Authorization"@
            &&& p.headers@.last().1@ == "Bearer "@ + resolved_token(params.token_kind, *credentials)
            &&& (match params.body {
                Option::None => p.body is Empty,
                Option::Some(b) => if form_requested(params.headers) {
                    p.body matches PreparedBody::Form(s) && Option::Some(s@) == form_body_text(b@)
                } else {
                    p.body matches PreparedBody::Json(j) && j == b
                },
            })
        },
{
    let mut auth = match build_auth_header(params.token_kind, credentials) {
        Ok(h) => h,
        Err(e) => {
            return Err(e);
        },
    };
    let pair = match auth.pop() {
        Option::Some(p) => p,
        Option::None => {
            return Err(RequestError::InvalidTokenKind);
        },
    };
    let ghost pair_snapshot = pair;
    let ghost original_headers = headers_or_empty(params.headers);
    let merged: Vec<(String, String)> = match params.headers {
        Option::Some(mut h) => {
            h.push(pair);
            h
        },
        Option::None => {
            let mut h: Vec<(String, String)> = Vec::new();
            h.push(pair);
            h
        },
    };
    proof {
        reveal_strlit("Authorization");
        reveal_strlit("Content-Type");
        assert(pair_snapshot.0@ == "Authorization"@);
        assert("Authorization"@.len() == 13);
        assert("Content-Type"@.len() == 12);
        assert(pair_snapshot.0@ != "Content-Type"@);
        assert(merged@ =~= original_headers + seq![pair_snapshot]);
        lemma_content_type_append(original_headers, pair_snapshot);
    }
    let request = RequestParams {
        method: params.method,
        base_url: params.base_url,
        path: params.path,
        query_params: params.query_params,
        body: params.body,
        headers: Some(merged),
    };
    let r = prepare_request(request);
    match &r {
        Ok(p) => proof {
            assert(p.headers@.take(p.headers@.len() - 1) =~= original_headers);
        },
        _ => {},
    }
    r
}

/// Named result: whether a text is well-formed JSON, as serde_json decides
/// it.
pub uninterp spec fn is_json_text(s: Seq<char>) -> bool;

/// Relies on `serde_json::from_str::<Value>`: it succeeds exactly on
/// well-formed JSON text.
#[verifier::external_body]
fn parse_json(s: &str) -> (r: Option<serde_json::Value>)
    ensures
        r is Some <==> is_json_text(s@),
{
    serde_json::from_str(s).ok()
}

/// Classifies what the transport handed back.
///
/// A transport failure is surfaced as `Transport`. A success status
/// (200-299) must carry readable, well-formed JSON text; anything else on a
/// success status is `Decode`. Any other status becomes `Http` with the
/// response text, or a fixed placeholder when the text could not be read —
/// the status is never masked.
pub fn interpret_response(outcome: HttpOutcome) -> (r: Result<serde_json::Value, RequestError>)
    ensures
        outcome matches HttpOutcome::Transport(m) ==> r matches Err(e) && e
            == RequestError::Transport(m),
        outcome matches HttpOutcome::Response(status, body) ==> {
            &&& (r is Ok <==> (200 <= status < 300 && (body matches Some(t) && is_json_text(t@))))
            &&& (200 <= status < 300 && !(body matches Some(t) && is_json_text(t@)) ==> (r matches
                Err(e) && e == RequestError::Decode))
            &&& (!(200 <= status < 300) ==> match body {
                Option::Some(t) => r matches Err(e) && e == RequestError::Http(status, t),
                Option::None => r matches Err(e) && e matches RequestError::Http(s, t) && s
                    == status && t@ == "Unknown error"@,
            })
        },
{
    match outcome {
        HttpOutcome::Transport(m) => Err(RequestError::Transport(m)),
        HttpOutcome::Response(status, body) => {
            if 200 <= status && status < 300 {
                match body {
                    Option::Some(t) => match parse_json(t.as_str()) {
                        Option::Some(v) => Ok(v),
                        Option::None => Err(RequestError::Decode),
                    },
                    Option::None => Err(RequestError::Decode),
                }
            } else {
                match body {
                    Option::Some(t) => Err(RequestError::Http(status, t)),
                    Option::None => Err(RequestError::Http(status, "Unknown error".to_owned())),
                }
            }
        },
    }
}

} // verus!
