//! Tests for the request dispatcher: URL building, body encoding selection,
//! header merging, credential resolution, and outcome classification.

use dimo_sdk::credentials::Credentials;
use dimo_sdk::request::{
    build_auth_header, interpret_response, prepare_auth_request, prepare_request,
    AuthRequestParams, BodyValue, HttpOutcome, Method, PreparedBody, RequestError, RequestParams,
    TokenKind,
};

fn creds(developer_jwt: &str, vehicle_jwt: &str) -> Credentials {
    Credentials {
        client_id: "0xclient".to_owned(),
        private_key: "4646".to_owned(),
        domain: "https://example.com".to_owned(),
        developer_jwt: developer_jwt.to_owned(),
        vehicle_jwt: vehicle_jwt.to_owned(),
    }
}

fn get_request(
    base: &str,
    path: &str,
    query: Option<Vec<(String, String)>>,
) -> RequestParams {
    RequestParams {
        method: Method::Get,
        base_url: base.to_owned(),
        path: path.to_owned(),
        query_params: query,
        body: None,
        headers: None,
    }
}

#[test]
fn bodyless_get_builds_exact_url_with_query() {
    let params = get_request(
        "https://x/y",
        "/z",
        Some(vec![("protocol".to_owned(), "v1".to_owned())]),
    );
    let prepared = prepare_request(params).unwrap();
    assert_eq!(prepared.url, "https://x/y/z?protocol=v1");
    assert!(matches!(prepared.body, PreparedBody::Empty));
    assert!(prepared.headers.is_empty());
    assert_eq!(prepared.method, Method::Get);
}

#[test]
fn empty_query_map_appends_nothing() {
    let params = get_request("https://x", "/z", Some(Vec::new()));
    let prepared = prepare_request(params).unwrap();
    assert_eq!(prepared.url, "https://x/z");
}

#[test]
fn absent_query_appends_nothing() {
    let params = get_request("https://x", "/z", None);
    let prepared = prepare_request(params).unwrap();
    assert_eq!(prepared.url, "https://x/z");
}

#[test]
fn query_values_are_urlencoded() {
    let params = get_request(
        "https://x",
        "/z",
        Some(vec![
            ("a b".to_owned(), "c/d".to_owned()),
            ("k".to_owned(), "v".to_owned()),
        ]),
    );
    let prepared = prepare_request(params).unwrap();
    assert_eq!(prepared.url, "https://x/z?a+b=c%2Fd&k=v");
}

#[test]
fn unsupported_methods_are_refused_before_io() {
    for method in [Method::Put, Method::Delete] {
        let params = RequestParams {
            method,
            base_url: "https://x".to_owned(),
            path: "/z".to_owned(),
            query_params: None,
            body: None,
            headers: None,
        };
        let err = prepare_request(params).unwrap_err();
        assert!(matches!(err, RequestError::UnsupportedMethod));
    }
}

#[test]
fn json_body_is_kept_structured_without_content_type() {
    let params = RequestParams {
        method: Method::Post,
        base_url: "https://x".to_owned(),
        path: "/z".to_owned(),
        query_params: None,
        body: Some(vec![("k".to_owned(), BodyValue::String("v".to_owned()))]),
        headers: None,
    };
    let prepared = prepare_request(params).unwrap();
    match prepared.body {
        PreparedBody::Json(b) => {
            assert_eq!(b.len(), 1);
            assert_eq!(b[0].0, "k");
            assert!(matches!(&b[0].1, BodyValue::String(v) if v == "v"));
        }
        _ => panic!("expected a structured body"),
    }
}

#[test]
fn form_content_type_switches_to_form_encoding() {
    let params = RequestParams {
        method: Method::Post,
        base_url: "https://x".to_owned(),
        path: "/z".to_owned(),
        query_params: None,
        body: Some(vec![
            ("sig".to_owned(), BodyValue::String("0xab cd".to_owned())),
            ("n".to_owned(), BodyValue::Int(-5)),
            ("flag".to_owned(), BodyValue::Bool(true)),
        ]),
        headers: Some(vec![(
            "Content-Type".to_owned(),
            "X-WWW-Form-URLEncoded".to_owned(),
        )]),
    };
    let prepared = prepare_request(params).unwrap();
    match prepared.body {
        PreparedBody::Form(s) => assert_eq!(s, "sig=0xab+cd&n=-5&flag=true"),
        _ => panic!("expected a form body"),
    }
}

#[test]
fn form_body_with_structured_value_fails_like_the_transport() {
    let params = RequestParams {
        method: Method::Post,
        base_url: "https://x".to_owned(),
        path: "/z".to_owned(),
        query_params: None,
        body: Some(vec![(
            "arr".to_owned(),
            BodyValue::Array(vec!["a".to_owned()]),
        )]),
        headers: Some(vec![(
            "Content-Type".to_owned(),
            "x-www-form-urlencoded".to_owned(),
        )]),
    };
    let err = prepare_request(params).unwrap_err();
    assert!(matches!(err, RequestError::Transport(_)));
}

#[test]
fn developer_kind_resolves_to_developer_token() {
    let headers = build_auth_header(TokenKind::Developer, &creds("devjwt", "vehjwt")).unwrap();
    assert_eq!(headers.len(), 1);
    assert_eq!(headers[0].0, "Authorization");
    assert_eq!(headers[0].1, "Bearer devjwt");
}

#[test]
fn vehicle_kind_resolves_to_vehicle_token() {
    let headers = build_auth_header(TokenKind::Vehicle, &creds("devjwt", "vehjwt")).unwrap();
    assert_eq!(headers[0].1, "Bearer vehjwt");
}

#[test]
fn empty_developer_token_still_attaches_bearer_header() {
    let headers = build_auth_header(TokenKind::Developer, &creds("", "vehjwt")).unwrap();
    assert_eq!(headers.len(), 1);
    assert_eq!(headers[0].0, "Authorization");
    assert_eq!(headers[0].1, "Bearer ");
}

#[test]
fn unrecognized_token_kinds_fail_closed() {
    for kind in [TokenKind::Access, TokenKind::Privilege] {
        let err = build_auth_header(kind, &creds("devjwt", "vehjwt")).unwrap_err();
        assert!(matches!(err, RequestError::InvalidTokenKind));
    }
}

#[test]
fn authorized_request_keeps_caller_headers_and_appends_bearer() {
    let params = AuthRequestParams {
        method: Method::Get,
        base_url: "https://x".to_owned(),
        path: "/z".to_owned(),
        query_params: None,
        body: None,
        headers: Some(vec![("X-Extra".to_owned(), "kept".to_owned())]),
        token_kind: TokenKind::Developer,
    };
    let prepared = prepare_auth_request(params, &creds("devjwt", "")).unwrap();
    assert_eq!(prepared.headers.len(), 2);
    assert_eq!(prepared.headers[0].0, "X-Extra");
    assert_eq!(prepared.headers[0].1, "kept");
    assert_eq!(prepared.headers[1].0, "Authorization");
    assert_eq!(prepared.headers[1].1, "Bearer devjwt");
}

#[test]
fn authorized_request_with_empty_token_attaches_empty_bearer() {
    let params = AuthRequestParams {
        method: Method::Get,
        base_url: "https://x".to_owned(),
        path: "/z".to_owned(),
        query_params: None,
        body: None,
        headers: None,
        token_kind: TokenKind::Developer,
    };
    let prepared = prepare_auth_request(params, &creds("", "")).unwrap();
    assert_eq!(prepared.headers.len(), 1);
    assert_eq!(prepared.headers[0].0, "Authorization");
    assert_eq!(prepared.headers[0].1, "Bearer ");
}

#[test]
fn authorized_request_refuses_unresolvable_kind_before_anything_else() {
    let params = AuthRequestParams {
        method: Method::Put,
        base_url: "https://x".to_owned(),
        path: "/z".to_owned(),
        query_params: None,
        body: None,
        headers: None,
        token_kind: TokenKind::Access,
    };
    let err = prepare_auth_request(params, &creds("devjwt", "")).unwrap_err();
    assert!(matches!(err, RequestError::InvalidTokenKind));
}

#[test]
fn http_404_is_classified_with_its_body_text() {
    let outcome = HttpOutcome::Response(404, Some("not found".to_owned()));
    let err = interpret_response(outcome).unwrap_err();
    match err {
        RequestError::Http(status, body) => {
            assert_eq!(status, 404);
            assert_eq!(body, "not found");
        }
        _ => panic!("expected an HTTP classification"),
    }
}

#[test]
fn http_error_with_unreadable_body_uses_placeholder() {
    let outcome = HttpOutcome::Response(500, None);
    let err = interpret_response(outcome).unwrap_err();
    match err {
        RequestError::Http(status, body) => {
            assert_eq!(status, 500);
            assert_eq!(body, "Unknown error");
        }
        _ => panic!("expected an HTTP classification"),
    }
}

#[test]
fn success_status_with_json_body_parses() {
    let outcome = HttpOutcome::Response(200, Some("{\"ok\": true}".to_owned()));
    let value = interpret_response(outcome).unwrap();
    let expected: serde_json::Value = serde_json::from_str("{\"ok\": true}").unwrap();
    assert_eq!(value, expected);
}

#[test]
fn success_status_with_bad_body_is_a_decode_error() {
    let outcome = HttpOutcome::Response(201, Some("not json".to_owned()));
    let err = interpret_response(outcome).unwrap_err();
    assert!(matches!(err, RequestError::Decode));
}

#[test]
fn status_199_and_300_are_not_successes() {
    for status in [199u16, 300, 301] {
        let outcome = HttpOutcome::Response(status, Some("body".to_owned()));
        let err = interpret_response(outcome).unwrap_err();
        assert!(matches!(err, RequestError::Http(s, _) if s == status));
    }
}

#[test]
fn status_299_is_still_a_success() {
    let outcome = HttpOutcome::Response(299, Some("[]".to_owned()));
    assert!(interpret_response(outcome).is_ok());
}

#[test]
fn transport_failures_pass_through() {
    let outcome = HttpOutcome::Transport("connection refused".to_owned());
    let err = interpret_response(outcome).unwrap_err();
    assert!(matches!(err, RequestError::Transport(m) if m == "connection refused"));
}
