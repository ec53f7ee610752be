//! Verified claims and the identity derived from them.
//!
//! Signature verification and the claim policies are applied by the token
//! library; the claims this component reads afterwards — the subject
//! string and the namespaced roles claim — are functions of the token
//! alone, so each carries a name that the trusted readers' contracts pin,
//! and the mapping from claims to a [`User`] is verified against those
//! names.  Role extraction is deliberately lenient: a missing or
//! malformed roles claim yields an empty role list, and non-string array
//! entries are dropped silently, so authentication never fails over
//! authorization metadata.

use vstd::prelude::*;
use vstd::string::StringExecFns;

use crate::errors::AuthError;

verus! {

#[verifier::external_type_specification]
#[verifier::external_body]
pub struct ExValidJwt(alcoholic_jwt::ValidJWT);

#[verifier::external_type_specification]
#[verifier::external_body]
pub struct ExValidation(alcoholic_jwt::Validation);

/// One element of the roles claim array: a string kept as text, or any
/// other kind of JSON value.
pub enum RoleEntry {
    Text(String),
    NonText,
}

/// The namespaced roles claim as found in a validated token's claim set.
pub enum RolesClaim {
    /// The claim is not present.
    Absent,
    /// The claim is present but is not an array.
    NotArray,
    /// The claim is an array with the given elements, in order.
    Array(Vec<RoleEntry>),
}

/// The claims this component reads from a validated token.
pub struct Claims {
    /// The `sub` claim, when present and a string.
    pub subject: Option<String>,
    /// The namespaced roles claim.
    pub roles: RolesClaim,
}

/// The authenticated identity: a username and an ordered, possibly empty
/// role list.
#[derive(Clone, Debug)]
pub struct User {
    pub username: String,
    pub roles: Vec<String>,
}

/// The token a validated value was decoded from.
pub uninterp spec fn token_of_jwt(jwt: alcoholic_jwt::ValidJWT) -> Seq<char>;

/// The claim under `name` in a token's decoded payload, when the payload
/// decodes and that claim is a string.  It depends on the token and the
/// name alone.
pub uninterp spec fn string_claim_of(token: Seq<char>, name: Seq<char>) -> Option<Seq<char>>;

/// The claim under `name` in a token's decoded payload, when it is an
/// array: each element as its text when it is a string, `None` otherwise,
/// in order.  `None` when the claim is absent or not an array.  It
/// depends on the token and the name alone.
pub uninterp spec fn array_claim_of(token: Seq<char>, name: Seq<char>) -> Option<
    Seq<Option<Seq<char>>>,
>;

/// The role list extracted from the elements of a roles array: the text
/// of every string element, in order; other elements are dropped.
pub open spec fn spec_roles(items: Seq<RoleEntry>) -> Seq<Seq<char>>
    decreases items.len(),
{
    if items.len() == 0 {
        Seq::empty()
    } else {
        let rest = spec_roles(items.drop_last());
        match items.last() {
            RoleEntry::Text(t) => rest.push(t@),
            RoleEntry::NonText => rest,
        }
    }
}

/// The role list extracted from a roles claim: empty unless the claim is
/// an array.
pub open spec fn spec_roles_claim(claim: RolesClaim) -> Seq<Seq<char>> {
    match claim {
        RolesClaim::Array(items) => spec_roles(items@),
        RolesClaim::Absent => Seq::empty(),
        RolesClaim::NotArray => Seq::empty(),
    }
}

/// The text of an entry, when it is one.
pub open spec fn entry_view(e: RoleEntry) -> Option<Seq<char>> {
    match e {
        RoleEntry::Text(t) => Some(t@),
        RoleEntry::NonText => None,
    }
}

/// The texts of a sequence of entries, in order.
pub open spec fn entry_views(items: Seq<RoleEntry>) -> Seq<Option<Seq<char>>> {
    items.map_values(|e: RoleEntry| entry_view(e))
}

/// A roles claim as the named claim shape: the element views of an array
/// claim, `None` otherwise.
pub open spec fn roles_view(claim: RolesClaim) -> Option<Seq<Option<Seq<char>>>> {
    match claim {
        RolesClaim::Array(items) => Some(entry_views(items@)),
        RolesClaim::Absent => None,
        RolesClaim::NotArray => None,
    }
}

/// The role list that a claim of the named shape yields: the text of
/// every string element, in order; empty for a claim that is absent or
/// not an array.
pub open spec fn texts_of(entries: Seq<Option<Seq<char>>>) -> Seq<Seq<char>>
    decreases entries.len(),
{
    if entries.len() == 0 {
        Seq::empty()
    } else {
        let rest = texts_of(entries.drop_last());
        match entries.last() {
            Some(t) => rest.push(t),
            None => rest,
        }
    }
}

/// The role list read off the named claim shape.
pub open spec fn roles_from_view(vw: Option<Seq<Option<Seq<char>>>>) -> Seq<Seq<char>> {
    match vw {
        Some(entries) => texts_of(entries),
        None => Seq::empty(),
    }
}

proof fn lemma_spec_roles_as_texts(items: Seq<RoleEntry>)
    ensures
        spec_roles(items) == texts_of(entry_views(items)),
    decreases items.len(),
{
    if items.len() > 0 {
        lemma_spec_roles_as_texts(items.drop_last());
        assert(entry_views(items.drop_last()) =~= entry_views(items).drop_last());
        assert(entry_views(items).last() == entry_view(items.last()));
    }
}

/// Extraction agrees with the named claim shape: the role list of a
/// claim equals the role list read off its view.
pub proof fn lemma_roles_match_view(claim: RolesClaim)
    ensures
        spec_roles_claim(claim) == roles_from_view(roles_view(claim)),
{
    match claim {
        RolesClaim::Array(items) => lemma_spec_roles_as_texts(items@),
        RolesClaim::Absent => {},
        RolesClaim::NotArray => {},
    }
}

/// Role extraction keeps every textual entry: on an array whose elements
/// are all text, the extracted list is exactly the texts, in order.
/// Extraction is therefore idempotent — feeding the extracted list back
/// in as text entries extracts the same list — and it is total: it is a
/// function defined on every claim shape.
pub proof fn lemma_roles_keep_text(items: Seq<RoleEntry>)
    requires
        forall|i: int| 0 <= i < items.len() ==> items[i] is Text,
    ensures
        spec_roles(items).len() == items.len(),
        forall|i: int| 0 <= i < items.len() ==> spec_roles(items)[i] == items[i]->0@,
    decreases items.len(),
{
    if items.len() > 0 {
        lemma_roles_keep_text(items.drop_last());
    }
}

/// The name of the namespaced roles claim.
pub fn roles_claim_name() -> (r: &'static str)
    ensures
        r@ == "https://carvis.cloud/roles"@,
{
    "https://carvis.cloud/roles"
}

/// Relies on `serde_json::Value::get` and `Value::as_str` on the
/// validated token's claim set: the named claim, when present and a
/// string — exactly the named string claim of the token the value was
/// decoded from.
#[verifier::external_body]
fn read_string_claim(jwt: &alcoholic_jwt::ValidJWT, name: &str) -> (r: Option<String>)
    ensures
        r.deep_view() == string_claim_of(token_of_jwt(*jwt), name@),
{
    match jwt.claims.get(name) {
        Some(value) => value.as_str().map(|s| s.to_string()),
        None => None,
    }
}

/// Relies on `serde_json::Value::get`, `Value::as_array` and
/// `Value::as_str` on the validated token's claim set: the named claim
/// classified as absent, not an array, or an array of text and non-text
/// entries — exactly the named array claim of the token the value was
/// decoded from.
#[verifier::external_body]
fn read_array_claim(jwt: &alcoholic_jwt::ValidJWT, name: &str) -> (r: RolesClaim)
    ensures
        roles_view(r) == array_claim_of(token_of_jwt(*jwt), name@),
{
    let value = match jwt.claims.get(name) {
        Some(v) => v,
        None => return RolesClaim::Absent,
    };
    let items = match value.as_array() {
        Some(a) => a,
        None => return RolesClaim::NotArray,
    };
    RolesClaim::Array(items.iter().map(|item| match item.as_str() {
        Some(s) => RoleEntry::Text(s.to_string()),
        None => RoleEntry::NonText,
    }).collect())
}

/// Relies on `alcoholic_jwt::Validation::Issuer`: the policy value
/// demanding an `iss` claim equal to the given text.
#[verifier::external_body]
fn validation_issuer(issuer: &str) -> alcoholic_jwt::Validation {
    alcoholic_jwt::Validation::Issuer(issuer.to_string())
}

/// Relies on `alcoholic_jwt::Validation::SubjectPresent`: the policy
/// value demanding a `sub` claim.
#[verifier::external_body]
fn validation_subject_present() -> alcoholic_jwt::Validation {
    alcoholic_jwt::Validation::SubjectPresent
}

/// Relies on `alcoholic_jwt::Validation::NotExpired`: the policy value
/// demanding an `exp` claim in the future.
#[verifier::external_body]
fn validation_not_expired() -> alcoholic_jwt::Validation {
    alcoholic_jwt::Validation::NotExpired
}

/// The Token Validator's claim policies, all of which must pass: the
/// issuer equals the configured authority, a subject is present, the
/// expiry lies in the future.
fn validation_policies(issuer: &str) -> Vec<alcoholic_jwt::Validation> {
    let mut policies: Vec<alcoholic_jwt::Validation> = Vec::new();
    policies.push(validation_issuer(issuer));
    policies.push(validation_subject_present());
    policies.push(validation_not_expired());
    policies
}

/// Relies on `alcoholic_jwt::validate`: verifies the token's signature
/// against the key, then applies the claim policies built by
/// [`validation_policies`].  A failure is the error's debug rendering.
/// The expiry check reads the clock, so success cannot be promised; the
/// contract states only what holds of every outcome: a validated value
/// is decoded from this very token, and validation cannot succeed unless
/// the token's `iss` claim equals the given issuer and its `sub` claim is
/// a present string.  The underlying expiry check panics when the system
/// clock reads before the epoch; no condition on the inputs can exclude
/// that.
#[verifier::external_body]
fn validate_token(token: &str, key: &alcoholic_jwt::JWK, issuer: &str) -> (r: Result<
    alcoholic_jwt::ValidJWT,
    String,
>)
    ensures
        r matches Ok(jwt) ==> token_of_jwt(jwt) == token@ && string_claim_of(token@, "iss"@)
            == Some(issuer@) && string_claim_of(token@, "sub"@) is Some,
{
    match alcoholic_jwt::validate(token, key, validation_policies(issuer)) {
        Ok(jwt) => Ok(jwt),
        Err(err) => Err(format!("{:?}", err)),
    }
}

/// Applies signature and claim validation to a token and reads the claims
/// this component consumes out of the validated result.  Claims come back
/// only from a token whose `iss` claim equals the given issuer; the
/// subject handed on is the token's `sub` claim, which success guarantees
/// present, and the roles handed on are the token's namespaced roles
/// claim.
pub(crate) fn validate_and_read_claims(
    token: &str,
    key: &alcoholic_jwt::JWK,
    issuer: &str,
) -> (r: Result<Claims, String>)
    ensures
        r matches Ok(c) ==> string_claim_of(token@, "iss"@) == Some(issuer@)
            && c.subject.deep_view() == string_claim_of(token@, "sub"@)
            && string_claim_of(token@, "sub"@) is Some
            && roles_view(c.roles) == array_claim_of(token@, "https://carvis.cloud/roles"@),
{
    match validate_token(token, key, issuer) {
        Ok(jwt) => {
            let subject = read_string_claim(&jwt, "sub");
            let roles = read_array_claim(&jwt, roles_claim_name());
            Ok(Claims { subject, roles })
        },
        Err(detail) => Err(detail),
    }
}

/// Extracts the role list from a roles claim.  Total: every claim shape
/// yields a list, empty for an absent or malformed claim, and non-string
/// array entries are skipped.
pub fn to_roles(claim: &RolesClaim) -> (r: Vec<String>)
    ensures
        r.deep_view() == spec_roles_claim(*claim),
{
    let items = match claim {
        RolesClaim::Array(items) => items,
        RolesClaim::Absent => {
            let empty: Vec<String> = Vec::new();
            proof {
                assert(empty.deep_view() =~= spec_roles_claim(*claim));
            }
            return empty;
        },
        RolesClaim::NotArray => {
            let empty: Vec<String> = Vec::new();
            proof {
                assert(empty.deep_view() =~= spec_roles_claim(*claim));
            }
            return empty;
        },
    };
    let n = items.len();
    let mut roles: Vec<String> = Vec::new();
    let mut i: usize = 0;
    while i < n
        invariant
            0 <= i <= n,
            n == items@.len(),
            claim matches RolesClaim::Array(its) && its@ == items@,
            roles.deep_view() == spec_roles(items@.take(i as int)),
        decreases n - i,
    {
        proof {
            assert(items@.take(i + 1).drop_last() =~= items@.take(i as int));
            assert(items@.take(i + 1).last() == items@[i as int]);
        }
        let ghost before = roles.deep_view();
        match &items[i] {
            RoleEntry::Text(t) => {
                let text = t.clone();
                roles.push(text);
                proof {
                    assert(roles.deep_view() =~= before.push(items@[i as int]->0@));
                }
            },
            RoleEntry::NonText => {},
        }
        i += 1;
    }
    proof {
        assert(items@.take(n as int) =~= items@);
    }
    roles
}

impl User {
    /// Derives the identity from validated claims: the username is the
    /// subject string exactly, the role list is the extracted roles.  A
    /// subject that is absent or not a string after successful validation
    /// is a contract violation and fails fast with status 500.
    pub fn from_claims(claims: Claims) -> (r: Result<User, AuthError>)
        ensures
            match claims.subject {
                Some(s) => r matches Ok(u) && u.username == s && u.roles.deep_view()
                    == spec_roles_claim(claims.roles),
                None => r matches Err(e) && e.status_code == 500 && e.message@
                    == "'sub' claim missing or not a string"@,
            },
    {
        let username = match claims.subject {
            Some(s) => s,
            None => {
                return Err(AuthError::new(
                    500,
                    String::from_str("'sub' claim missing or not a string"),
                ));
            },
        };
        let roles = to_roles(&claims.roles);
        Ok(User { username, roles })
    }
}

/// Turns a validation outcome into the component's result: a validation
/// failure becomes the 401 error carrying the failure text, and validated
/// claims become the derived [`User`].
pub fn complete_validation(outcome: Result<Claims, String>) -> (r: Result<User, AuthError>)
    ensures
        match outcome {
            Err(d) => r matches Err(e) && e.status_code == 401 && e.message == d,
            Ok(c) => match c.subject {
                Some(s) => r matches Ok(u) && u.username == s && u.roles.deep_view()
                    == spec_roles_claim(c.roles),
                None => r matches Err(e) && e.status_code == 500 && e.message@
                    == "'sub' claim missing or not a string"@,
            },
        },
{
    match outcome {
        Ok(claims) => User::from_claims(claims),
        Err(detail) => Err(AuthError::new(401, detail)),
    }
}

} // verus!
