//! The authentication pipeline: fetch outcome to key set, request to
//! token, token to key, key to validated claims, claims to identity.
//! The first failing stage's error is returned unchanged; no stage is
//! retried.

use vstd::prelude::*;
use vstd::string::StringExecFns;

use crate::claims::User;
use crate::claims::array_claim_of;
use crate::claims::complete_validation;
use crate::claims::lemma_roles_match_view;
use crate::claims::roles_from_view;
use crate::claims::string_claim_of;
use crate::claims::validate_and_read_claims;
use crate::errors::AuthError;
use crate::keys::KeySet;
use crate::keys::has_kid;
use crate::keys::jwks_kids_of;
use crate::keys::kid_list;
use crate::keys::kid_of_token;
use crate::keys::lemma_has_kid_iff_listed;
use crate::keys::parse_key_set;
use crate::request::Request;
use crate::request::all_visible_ascii;
use crate::request::bytes_as_chars;
use crate::request::extract_token;
use crate::request::spec_authorization;
use crate::request::spec_token_bytes;

verus! {

/// The address of a trust authority's published key set: the authority's
/// base URI followed by the well-known document path.
pub fn jwks_uri(authority: &str) -> (r: String)
    ensures
        r@ == authority@ + ".well-known/jwks.json"@,
{
    let mut uri = String::from_str(authority);
    uri.append(".well-known/jwks.json");
    uri
}

/// Turns the outcome of fetching the key-set document into a [`KeySet`].
///
/// The caller performs the HTTP GET and hands over either the response
/// body or the transport failure's text.  A transport failure maps to
/// status 500 with the request-stage prefix; a body that is not a valid
/// key-set document maps to status 500 with the parse-stage prefix; a
/// valid document yields the set holding exactly its keys, in order.
pub fn fetch_jwks(outcome: Result<String, String>) -> (r: Result<KeySet, AuthError>)
    ensures
        match outcome {
            Err(d) => r matches Err(e) && e.status_code == 500 && e.message@
                == "unable to send http request: "@ + d@,
            Ok(body) => match jwks_kids_of(body@) {
                Ok(kids) => r matches Ok(ks) && kid_list(ks.entries@) == kids,
                Err(d) => r matches Err(e) && e.status_code == 500 && e.message@
                    == "unable to parse response: "@ + d,
            },
        },
{
    match outcome {
        Ok(body) => parse_key_set(body.as_str()),
        Err(detail) => Err(
            AuthError::with_detail(500, "unable to send http request: ", detail.as_str()),
        ),
    }
}

/// Authenticates a request against an already-fetched key set.
///
/// The stages run in order — extract the bearer token, resolve its `kid`
/// in the set, verify the signature and claim policies, derive the
/// identity — and the first failure wins.  Every outcome up to key
/// resolution is pinned exactly.  Past that point the clock decides, and
/// the contract states what holds either way: a failure is the 401
/// carrying the validation failure's text, and a success carries the
/// token's own claims — the issuer claim equals the authority, the
/// username is the token's `sub` claim byte for byte, and the roles are
/// the ones extracted from the token's namespaced roles claim.
pub fn authenticate_with_keys(request: &Request, authority: &str, keys: &KeySet) -> (r: Result<
    User,
    AuthError,
>)
    ensures
        match spec_authorization(*request) {
            None => r matches Err(e) && e.status_code == 401 && e.message@
                == "no 'Authorization' header present"@,
            Some(v) => if !all_visible_ascii(v) {
                r matches Err(e) && e.status_code == 401 && e.message@
                    == "unable to extract string from 'Authorization' header: failed to convert header to a str"@
            } else {
                match kid_of_token(bytes_as_chars(spec_token_bytes(v))) {
                    Err(d) => r matches Err(e) && e.status_code == 500 && e.message@
                        == "unable to parse jwt: "@ + d,
                    Ok(None) => r matches Err(e) && e.status_code == 500 && e.message@
                        == "unable to parse jwt"@,
                    Ok(Some(k)) => if !has_kid(keys.entries@, k) {
                        r matches Err(e) && e.status_code == 500 && e.message@
                            == "Specified key not found in set"@
                    } else {
                        match r {
                            Ok(u) => string_claim_of(bytes_as_chars(spec_token_bytes(v)), "iss"@)
                                == Some(authority@) && (string_claim_of(
                                bytes_as_chars(spec_token_bytes(v)),
                                "sub"@,
                            ) matches Some(s) && u.username@ == s) && u.roles.deep_view()
                                == roles_from_view(array_claim_of(
                                bytes_as_chars(spec_token_bytes(v)),
                                "https://carvis.cloud/roles"@,
                            )),
                            Err(e) => e.status_code == 401,
                        }
                    },
                }
            },
        },
{
    let token = match extract_token(request) {
        Ok(t) => t,
        Err(e) => {
            return Err(e);
        },
    };
    let key = match keys.resolve(token.as_str()) {
        Ok(k) => k,
        Err(e) => {
            return Err(e);
        },
    };
    let outcome = validate_and_read_claims(token.as_str(), key, authority);
    let ghost read = outcome;
    let r = complete_validation(outcome);
    proof {
        match read {
            Ok(c) => lemma_roles_match_view(c.roles),
            Err(_) => {},
        }
    }
    r
}

/// Authenticates an inbound request: the single entry point every
/// protected endpoint handler consumes.
///
/// The caller fetches the authority's key-set document (see [`jwks_uri`])
/// and passes the outcome along with the request; everything else —
/// parsing the document, extracting the token, resolving the key,
/// validating signature and claims, deriving the identity — happens
/// here, in that order, and the first failing stage's error is returned
/// verbatim.
pub fn authenticate(
    request: &Request,
    authority: &str,
    fetch_outcome: Result<String, String>,
) -> (r: Result<User, AuthError>)
    ensures
        match fetch_outcome {
            Err(d) => r matches Err(e) && e.status_code == 500 && e.message@
                == "unable to send http request: "@ + d@,
            Ok(body) => match jwks_kids_of(body@) {
                Err(d) => r matches Err(e) && e.status_code == 500 && e.message@
                    == "unable to parse response: "@ + d,
                Ok(kids) => match spec_authorization(*request) {
                    None => r matches Err(e) && e.status_code == 401 && e.message@
                        == "no 'Authorization' header present"@,
                    Some(v) => if !all_visible_ascii(v) {
                        r matches Err(e) && e.status_code == 401 && e.message@
                            == "unable to extract string from 'Authorization' header: failed to convert header to a str"@
                    } else {
                        match kid_of_token(bytes_as_chars(spec_token_bytes(v))) {
                            Err(d) => r matches Err(e) && e.status_code == 500 && e.message@
                                == "unable to parse jwt: "@ + d,
                            Ok(None) => r matches Err(e) && e.status_code == 500 && e.message@
                                == "unable to parse jwt"@,
                            Ok(Some(k)) => if !kids.contains(Some(k)) {
                                r matches Err(e) && e.status_code == 500 && e.message@
                                    == "Specified key not found in set"@
                            } else {
                                match r {
                                    Ok(u) => string_claim_of(
                                        bytes_as_chars(spec_token_bytes(v)),
                                        "iss"@,
                                    ) == Some(authority@) && (string_claim_of(
                                        bytes_as_chars(spec_token_bytes(v)),
                                        "sub"@,
                                    ) matches Some(s) && u.username@ == s) && u.roles.deep_view()
                                        == roles_from_view(array_claim_of(
                                        bytes_as_chars(spec_token_bytes(v)),
                                        "https://carvis.cloud/roles"@,
                                    )),
                                    Err(e) => e.status_code == 401,
                                }
                            },
                        }
                    },
                },
            },
        },
{
    let keys = match fetch_jwks(fetch_outcome) {
        Ok(k) => k,
        Err(e) => {
            return Err(e);
        },
    };
    let r = authenticate_with_keys(request, authority, &keys);
    proof {
        match spec_authorization(*request) {
            Some(v) => match kid_of_token(bytes_as_chars(spec_token_bytes(v))) {
                Ok(kid_opt) => match kid_opt {
                    Some(k) => lemma_has_kid_iff_listed(keys.entries@, k),
                    None => {},
                },
                Err(_) => {},
            },
            None => {},
        }
    }
    r
}

} // verus!
