//! The key set: an ordered collection of public signing keys, each with an
//! optional key identifier (`kid`) and opaque key material.
//!
//! The set is built from the JSON Web Key Set document a trust authority
//! publishes.  Decoding the document is the JSON library's work, behind
//! one trusted parser whose outcome — the `kid` of each key, in document
//! order, or the failure text — is named and pinned; the lookup of a
//! token's `kid` in the set is this module's own, verified logic.

use vstd::prelude::*;
use vstd::string::StringExecFns;

use crate::errors::AuthError;

verus! {

#[verifier::external_type_specification]
#[verifier::external_body]
pub struct ExJwk(alcoholic_jwt::JWK);

#[verifier::external_type_specification]
#[verifier::external_body]
pub struct ExJsonValue(serde_json::Value);

/// One public signing key: its identifier, if it has one, and the key
/// material needed to verify a signature.
#[derive(Debug)]
pub struct KeyEntry {
    pub kid: Option<String>,
    pub key: alcoholic_jwt::JWK,
}

/// An ordered collection of public signing keys, immutable once built.
#[derive(Debug)]
pub struct KeySet {
    pub entries: Vec<KeyEntry>,
}

/// The identifier of a key, as text.
pub open spec fn spec_entry_kid(e: KeyEntry) -> Option<Seq<char>> {
    match e.kid {
        Some(s) => Some(s@),
        None => None,
    }
}

/// The identifiers of a sequence of keys, in order.
pub open spec fn kid_list(s: Seq<KeyEntry>) -> Seq<Option<Seq<char>>> {
    s.map_values(|e: KeyEntry| spec_entry_kid(e))
}

/// The first key in the sequence whose identifier matches exactly, if any.
/// A key without an identifier never matches.
pub open spec fn spec_find_key(s: Seq<KeyEntry>, kid: Seq<char>) -> Option<alcoholic_jwt::JWK>
    decreases s.len(),
{
    if s.len() == 0 {
        None
    } else if spec_entry_kid(s[0]) == Some(kid) {
        Some(s[0].key)
    } else {
        spec_find_key(s.skip(1), kid)
    }
}

/// Some key in the sequence carries the given identifier.
pub open spec fn has_kid(s: Seq<KeyEntry>, kid: Seq<char>) -> bool {
    spec_find_key(s, kid) is Some
}

/// A key with the given identifier exists exactly when the identifier
/// stands in the sequence's `kid` list.
pub proof fn lemma_has_kid_iff_listed(s: Seq<KeyEntry>, kid: Seq<char>)
    ensures
        has_kid(s, kid) <==> kid_list(s).contains(Some(kid)),
    decreases s.len(),
{
    if s.len() == 0 {
        assert(!kid_list(s).contains(Some(kid)));
    } else {
        lemma_has_kid_iff_listed(s.skip(1), kid);
        assert(kid_list(s.skip(1)) =~= kid_list(s).skip(1));
        assert(kid_list(s)[0] == spec_entry_kid(s[0]));
        if spec_entry_kid(s[0]) == Some(kid) {
            assert(kid_list(s).contains(Some(kid)));
        } else {
            if kid_list(s).contains(Some(kid)) {
                let i = choose|i: int| 0 <= i < kid_list(s).len() && kid_list(s)[i] == Some(kid);
                assert(kid_list(s).skip(1)[i - 1] == Some(kid));
                assert(kid_list(s.skip(1)).contains(Some(kid)));
            }
            if kid_list(s.skip(1)).contains(Some(kid)) {
                let i = choose|i: int|
                    0 <= i < kid_list(s.skip(1)).len() && kid_list(s.skip(1))[i] == Some(kid);
                assert(kid_list(s)[i + 1] == Some(kid));
            }
        }
    }
}

/// What reading the `kid` out of a token's header segment yields: the
/// identifier, `Ok(None)` when the header has none, or the failure text
/// for a token whose header cannot be decoded.  It depends on the token
/// string alone.
pub uninterp spec fn kid_of_token(token: Seq<char>) -> Result<Option<Seq<char>>, Seq<char>>;

/// The view of a `kid` lookup outcome.
pub open spec fn kid_result_view(r: Result<Option<String>, String>) -> Result<
    Option<Seq<char>>,
    Seq<char>,
> {
    match r {
        Ok(Some(s)) => Ok(Some(s@)),
        Ok(None) => Ok(None),
        Err(d) => Err(d@),
    }
}

/// Relies on `alcoholic_jwt::token_kid`: the `kid` claim is read from the
/// token's base64-decoded header segment, a function of the token string
/// alone; a failure is the error's debug rendering.
#[verifier::external_body]
fn token_kid_of(token: &str) -> (r: Result<Option<String>, String>)
    ensures
        kid_result_view(r) == kid_of_token(token@),
{
    match alcoholic_jwt::token_kid(token) {
        Ok(kid) => Ok(kid),
        Err(err) => Err(format!("{:?}", err)),
    }
}

/// What parsing a key-set document yields: the `kid` of each decoded key
/// in document order, or the failure text for a document that is not a
/// key set.  It depends on the document text alone.
pub uninterp spec fn jwks_kids_of(body: Seq<char>) -> Result<Seq<Option<Seq<char>>>, Seq<char>>;

/// Relies on `serde_json::from_str`, `Value::get`, `Value::as_array`,
/// `serde_json::from_value` with the token library's key decoding, and
/// `alcoholic_jwt::JWK::kid`: decodes a key-set document into its keys.
/// All of it is deterministic in the document text, so the outcome — each
/// key's identifier in document order, or the failure text — is exactly
/// the named parse result.
#[verifier::external_body]
fn parse_key_entries(body: &str) -> (r: Result<Vec<KeyEntry>, String>)
    ensures
        match jwks_kids_of(body@) {
            Ok(kids) => r matches Ok(entries) && kid_list(entries@) == kids,
            Err(d) => r matches Err(msg) && msg@ == d,
        },
{
    let value: serde_json::Value = serde_json::from_str(body).map_err(|e| format!("{}", e))?;
    let keys_value = value.get("keys").ok_or_else(|| "missing field 'keys'".to_string())?;
    let items = keys_value.as_array().ok_or_else(|| "'keys' is not an array".to_string())?;
    let mut entries = Vec::new();
    for item in items {
        let key: alcoholic_jwt::JWK =
            serde_json::from_value(item.clone()).map_err(|e| format!("{}", e))?;
        entries.push(KeyEntry { kid: key.kid().map(|kid| kid.to_string()), key });
    }
    Ok(entries)
}

/// Parses a JSON Web Key Set document into a [`KeySet`].
///
/// The document must be a JSON object with a `keys` array whose every
/// element decodes as a JSON Web Key.  On success the set holds exactly
/// the document's keys, in document order, as its `kid` list shows; any
/// other shape is a failure with status 500 and a message opening with
/// `unable to parse response: ` followed by the parse failure's text.
pub fn parse_key_set(body: &str) -> (r: Result<KeySet, AuthError>)
    ensures
        match jwks_kids_of(body@) {
            Ok(kids) => r matches Ok(ks) && kid_list(ks.entries@) == kids,
            Err(d) => r matches Err(e) && e.status_code == 500 && e.message@
                == "unable to parse response: "@ + d,
        },
{
    match parse_key_entries(body) {
        Ok(entries) => Ok(KeySet { entries }),
        Err(detail) => Err(
            AuthError::with_detail(500, "unable to parse response: ", detail.as_str()),
        ),
    }
}

impl KeySet {
    /// Resolves the signing key for a token: reads the token's `kid` and
    /// looks it up in the set by exact match, first match wins.
    ///
    /// An undecodable header, a header without `kid`, and an identifier no
    /// key carries are each a failure with status 500, in the stage's
    /// exact phrasing.
    pub fn resolve<'a>(&'a self, token: &str) -> (r: Result<&'a alcoholic_jwt::JWK, AuthError>)
        ensures
            match kid_of_token(token@) {
                Err(d) => r matches Err(e) && e.status_code == 500 && e.message@
                    == "unable to parse jwt: "@ + d,
                Ok(None) => r matches Err(e) && e.status_code == 500 && e.message@
                    == "unable to parse jwt"@,
                Ok(Some(k)) => match spec_find_key(self.entries@, k) {
                    Some(key) => r matches Ok(found) && *found == key,
                    None => r matches Err(e) && e.status_code == 500 && e.message@
                        == "Specified key not found in set"@,
                },
            },
    {
        let kid = match token_kid_of(token) {
            Err(d) => {
                return Err(AuthError::with_detail(500, "unable to parse jwt: ", d.as_str()));
            },
            Ok(None) => {
                return Err(AuthError::new(500, String::from_str("unable to parse jwt")));
            },
            Ok(Some(k)) => k,
        };
        let n = self.entries.len();
        let mut i: usize = 0;
        proof {
            assert(self.entries@.skip(0) =~= self.entries@);
        }
        while i < n
            invariant
                0 <= i <= n,
                n == self.entries@.len(),
                kid_of_token(token@) == Ok::<Option<Seq<char>>, Seq<char>>(Some(kid@)),
                spec_find_key(self.entries@, kid@) == spec_find_key(
                    self.entries@.skip(i as int),
                    kid@,
                ),
            decreases n - i,
        {
            proof {
                assert(self.entries@.skip(i as int)[0] == self.entries@[i as int]);
                assert(self.entries@.skip(i as int).skip(1) =~= self.entries@.skip(i + 1));
            }
            let entry = &self.entries[i];
            match &entry.kid {
                Some(entry_kid) => {
                    if *entry_kid == kid {
                        return Ok(&entry.key);
                    }
                },
                None => {},
            }
            i += 1;
        }
        proof {
            assert(self.entries@.skip(n as int).len() == 0);
        }
        Err(AuthError::new(500, String::from_str("Specified key not found in set")))
    }
}

} // verus!
