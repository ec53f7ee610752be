//! Stage-level tests: token extraction, key-set parsing and resolution,
//! role extraction, identity mapping and the envelope types.

use auth::{
    complete_validation, extract_token, jwks_uri, parse_key_set, to_roles, AuthError, Claims,
    Header, LambdaError, LambdaResult, Request, RequestDto, RoleEntry, RolesClaim, User,
};

const B64URL_ALPHABET: &[u8] =
    b"ABCDEFGHIJKLMNOPQRSTUVWXYZabcdefghijklmnopqrstuvwxyz0123456789-_";

fn b64url(data: &[u8]) -> String {
    let mut out = String::new();
    for chunk in data.chunks(3) {
        let b = [chunk[0], *chunk.get(1).unwrap_or(&0), *chunk.get(2).unwrap_or(&0)];
        let n = ((b[0] as u32) << 16) | ((b[1] as u32) << 8) | (b[2] as u32);
        let idx = [(n >> 18) & 63, (n >> 12) & 63, (n >> 6) & 63, n & 63];
        let count = match chunk.len() {
            1 => 2,
            2 => 3,
            _ => 4,
        };
        for k in 0..count {
            out.push(B64URL_ALPHABET[idx[k] as usize] as char);
        }
    }
    out
}

fn unsigned_token(header_json: &str, payload_json: &str) -> String {
    format!(
        "{}.{}.sig",
        b64url(header_json.as_bytes()),
        b64url(payload_json.as_bytes())
    )
}

fn request_with(value: &[u8]) -> Request {
    Request {
        headers: vec![Header {
            name: "Authorization".to_string(),
            value: value.to_vec(),
        }],
    }
}

const SMALL_JWKS: &str = r#"{"keys":[{"kty":"RSA","kid":"k1","n":"AQAB","e":"AQAB"},{"kty":"RSA","kid":"k2","n":"AQAB","e":"AQAB"}]}"#;

#[test]
fn extract_strips_bearer_prefix() {
    let token = extract_token(&request_with(b"Bearer abc.def.ghi")).unwrap();
    assert_eq!(token, "abc.def.ghi");
}

#[test]
fn extract_strips_prefix_case_insensitively() {
    let token = extract_token(&request_with(b"bEaReR tok")).unwrap();
    assert_eq!(token, "tok");
}

#[test]
fn extract_keeps_raw_value_without_scheme() {
    let token = extract_token(&request_with(b"sometoken")).unwrap();
    assert_eq!(token, "sometoken");
}

#[test]
fn extract_of_exact_scheme_yields_empty_token() {
    let token = extract_token(&request_with(b"Bearer ")).unwrap();
    assert_eq!(token, "");
}

#[test]
fn extract_fails_without_header() {
    let request = Request {
        headers: vec![Header {
            name: "Accept".to_string(),
            value: b"*/*".to_vec(),
        }],
    };
    let err = extract_token(&request).unwrap_err();
    assert_eq!(err.status_code, 401);
    assert_eq!(err.message, "no 'Authorization' header present");
}

#[test]
fn extract_matches_header_name_exactly() {
    let request = Request {
        headers: vec![Header {
            name: "authorization".to_string(),
            value: b"Bearer abc".to_vec(),
        }],
    };
    let err = extract_token(&request).unwrap_err();
    assert_eq!(err.status_code, 401);
}

#[test]
fn extract_takes_first_matching_header() {
    let request = Request {
        headers: vec![
            Header {
                name: "Authorization".to_string(),
                value: b"first".to_vec(),
            },
            Header {
                name: "Authorization".to_string(),
                value: b"second".to_vec(),
            },
        ],
    };
    assert_eq!(extract_token(&request).unwrap(), "first");
}

#[test]
fn extract_rejects_non_visible_ascii_value() {
    let err = extract_token(&request_with(&[66, 128, 67])).unwrap_err();
    assert_eq!(err.status_code, 401);
    assert_eq!(
        err.message,
        "unable to extract string from 'Authorization' header: failed to convert header to a str"
    );
}

#[test]
fn extract_allows_horizontal_tab() {
    let token = extract_token(&request_with(b"a\tb")).unwrap();
    assert_eq!(token, "a\tb");
}

#[test]
fn key_set_parses_and_resolves_known_kid() {
    let keys = parse_key_set(SMALL_JWKS).unwrap();
    let token = unsigned_token(r#"{"alg":"RS256","kid":"k2"}"#, "{}");
    assert!(keys.resolve(&token).is_ok());
}

#[test]
fn key_set_reports_unknown_kid() {
    let keys = parse_key_set(SMALL_JWKS).unwrap();
    let token = unsigned_token(r#"{"alg":"RS256","kid":"nope"}"#, "{}");
    let err = keys.resolve(&token).unwrap_err();
    assert_eq!(err.status_code, 500);
    assert_eq!(err.message, "Specified key not found in set");
}

#[test]
fn key_set_reports_token_without_kid() {
    let keys = parse_key_set(SMALL_JWKS).unwrap();
    let token = unsigned_token(r#"{"alg":"RS256"}"#, "{}");
    let err = keys.resolve(&token).unwrap_err();
    assert_eq!(err.status_code, 500);
    assert_eq!(err.message, "unable to parse jwt");
}

#[test]
fn key_set_reports_undecodable_token() {
    let keys = parse_key_set(SMALL_JWKS).unwrap();
    let err = keys.resolve("garbage").unwrap_err();
    assert_eq!(err.status_code, 500);
    assert_eq!(err.message, "unable to parse jwt: InvalidComponents");
}

#[test]
fn key_set_rejects_document_without_keys_field() {
    let err = parse_key_set(r#"{"nokeys":[]}"#).unwrap_err();
    assert_eq!(err.status_code, 500);
    assert_eq!(err.message, "unable to parse response: missing field 'keys'");
}

#[test]
fn key_set_rejects_non_array_keys_field() {
    let err = parse_key_set(r#"{"keys":7}"#).unwrap_err();
    assert_eq!(err.status_code, 500);
    assert_eq!(err.message, "unable to parse response: 'keys' is not an array");
}

#[test]
fn key_set_rejects_undecodable_key_element() {
    let err = parse_key_set(r#"{"keys":[{"kty":"RSA"}]}"#).unwrap_err();
    assert_eq!(err.status_code, 500);
    assert!(
        err.message.starts_with("unable to parse response: "),
        "{}",
        err.message
    );
}

#[test]
fn key_set_rejects_unreadable_document() {
    let err = parse_key_set("][").unwrap_err();
    assert_eq!(err.status_code, 500);
    assert!(
        err.message.starts_with("unable to parse response: "),
        "{}",
        err.message
    );
}

#[test]
fn fetch_jwks_maps_transport_failure() {
    let err = auth::fetch_jwks(Err("timeout".to_string())).unwrap_err();
    assert_eq!(err.status_code, 500);
    assert_eq!(err.message, "unable to send http request: timeout");
}

#[test]
fn fetch_jwks_parses_delivered_document() {
    assert!(auth::fetch_jwks(Ok(SMALL_JWKS.to_string())).is_ok());
}

#[test]
fn authenticate_with_keys_reports_unknown_kid() {
    let keys = parse_key_set(SMALL_JWKS).unwrap();
    let token = unsigned_token(r#"{"alg":"RS256","kid":"nope"}"#, "{}");
    let request = request_with(format!("Bearer {}", token).as_bytes());
    let err = auth::authenticate_with_keys(&request, "https://issuer.example/", &keys)
        .unwrap_err();
    assert_eq!(err.status_code, 500);
    assert_eq!(err.message, "Specified key not found in set");
}

#[test]
fn roles_drop_non_string_entries() {
    let claim = RolesClaim::Array(vec![
        RoleEntry::Text("a".to_string()),
        RoleEntry::Text("b".to_string()),
        RoleEntry::NonText,
        RoleEntry::Text("c".to_string()),
    ]);
    assert_eq!(
        to_roles(&claim),
        vec!["a".to_string(), "b".to_string(), "c".to_string()]
    );
}

#[test]
fn roles_of_missing_claim_are_empty() {
    assert_eq!(to_roles(&RolesClaim::Absent), Vec::<String>::new());
}

#[test]
fn roles_of_non_array_claim_are_empty() {
    assert_eq!(to_roles(&RolesClaim::NotArray), Vec::<String>::new());
}

#[test]
fn roles_extraction_is_idempotent() {
    let first = to_roles(&RolesClaim::Array(vec![
        RoleEntry::Text("x".to_string()),
        RoleEntry::NonText,
        RoleEntry::Text("y".to_string()),
    ]));
    let again = to_roles(&RolesClaim::Array(
        first.iter().map(|r| RoleEntry::Text(r.clone())).collect(),
    ));
    assert_eq!(first, again);
}

#[test]
fn user_derivation_takes_subject_and_roles() {
    let user = User::from_claims(Claims {
        subject: Some("dana".to_string()),
        roles: RolesClaim::Array(vec![RoleEntry::Text("admin".to_string())]),
    })
    .unwrap();
    assert_eq!(user.username, "dana");
    assert_eq!(user.roles, vec!["admin".to_string()]);
}

#[test]
fn user_derivation_fails_fast_without_subject() {
    let err = User::from_claims(Claims {
        subject: None,
        roles: RolesClaim::Absent,
    })
    .unwrap_err();
    assert_eq!(err.status_code, 500);
    assert_eq!(err.message, "'sub' claim missing or not a string");
}

#[test]
fn validation_failure_becomes_401_with_detail() {
    let err = complete_validation(Err("InvalidSignature".to_string())).unwrap_err();
    assert_eq!(err.status_code, 401);
    assert_eq!(err.message, "InvalidSignature");
}

#[test]
fn jwks_uri_appends_well_known_path() {
    assert_eq!(
        jwks_uri("https://issuer.example/"),
        "https://issuer.example/.well-known/jwks.json"
    );
}

#[test]
fn auth_error_keeps_its_parts() {
    let e = AuthError::new(401, "denied".to_string());
    assert_eq!(e.status_code, 401);
    assert_eq!(e.message, "denied");
}

#[test]
fn lambda_error_wraps_message_in_payload() {
    let e = LambdaError::new(400, "bad".to_string());
    assert_eq!(e.status_code, 400);
    assert_eq!(e.error.message, "bad");
}

#[test]
fn lambda_result_keeps_its_parts() {
    let r = LambdaResult::new(201, "created".to_string());
    assert_eq!(r.status_code, 201);
    assert_eq!(r.message, "created");
}

#[test]
fn request_dto_holds_value() {
    let dto = RequestDto {
        value: "payload".to_string(),
    };
    assert_eq!(dto.value, "payload");
}
