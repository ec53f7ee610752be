//! The inbound request as this component sees it: a header mapping, of
//! which exactly one header, `Authorization`, is ever read.
//!
//! A header value is a byte string; it only becomes text once every byte
//! has been checked to be visible ASCII (or horizontal tab), the same rule
//! HTTP header handling applies before exposing a value as a string.

use vstd::prelude::*;
use vstd::string::StringExecFns;

use crate::errors::AuthError;

verus! {

/// One request header: a name and a raw byte value.
pub struct Header {
    pub name: String,
    pub value: Vec<u8>,
}

/// The header mapping of an inbound request.  Order matters: a lookup
/// returns the value of the first header with a matching name.
pub struct Request {
    pub headers: Vec<Header>,
}

/// The value of the first header whose name matches exactly, if any.
pub open spec fn spec_header_lookup(headers: Seq<Header>, name: Seq<char>) -> Option<Seq<u8>>
    decreases headers.len(),
{
    if headers.len() == 0 {
        None
    } else if headers[0].name@ == name {
        Some(headers[0].value@)
    } else {
        spec_header_lookup(headers.skip(1), name)
    }
}

/// The raw bytes of the request's `Authorization` header, if present.
pub open spec fn spec_authorization(request: Request) -> Option<Seq<u8>> {
    spec_header_lookup(request.headers@, "Authorization"@)
}

/// A byte that may appear in a header value exposed as a string:
/// visible ASCII, space, or horizontal tab.
pub open spec fn is_visible_ascii(b: u8) -> bool {
    32 <= b < 127 || b == 9
}

/// Every byte of the value may appear in a string.
pub open spec fn all_visible_ascii(v: Seq<u8>) -> bool {
    forall|i: int| 0 <= i < v.len() ==> is_visible_ascii(v[i])
}

/// ASCII lower-casing of a single byte.
pub open spec fn lower_byte(b: u8) -> u8 {
    if 65 <= b <= 90 {
        (b + 32) as u8
    } else {
        b
    }
}

/// The bytes of `"bearer "`.
pub open spec fn bearer_bytes() -> Seq<u8> {
    seq![98u8, 101u8, 97u8, 114u8, 101u8, 114u8, 32u8]
}

/// The value starts, case-insensitively, with `"bearer "`.
pub open spec fn bearer_prefixed(v: Seq<u8>) -> bool {
    v.len() >= 7 && (forall|i: int| 0 <= i < 7 ==> lower_byte(v[i]) == bearer_bytes()[i])
}

/// The credential carried by the header value: the remainder after a
/// `"bearer "` scheme prefix, or the raw value when the scheme is absent.
pub open spec fn spec_token_bytes(v: Seq<u8>) -> Seq<u8> {
    if bearer_prefixed(v) {
        v.skip(7)
    } else {
        v
    }
}

/// ASCII bytes read as characters.
pub open spec fn bytes_as_chars(v: Seq<u8>) -> Seq<char> {
    v.map_values(|b: u8| b as char)
}

/// Relies on `String::from_utf8`: a byte sequence that is entirely ASCII
/// is valid UTF-8 and decodes to the characters with the same codes.
#[verifier::external_body]
fn ascii_bytes_to_string(bytes: Vec<u8>) -> (s: String)
    requires
        forall|i: int| 0 <= i < bytes@.len() ==> bytes@[i] < 128,
    ensures
        s@ == bytes_as_chars(bytes@),
{
    String::from_utf8(bytes).unwrap_or_default()
}

/// ASCII lower-casing of a single byte, executable form.
fn lower(b: u8) -> (r: u8)
    ensures
        r == lower_byte(b),
{
    if 65 <= b && b <= 90 {
        b + 32
    } else {
        b
    }
}

/// The value of the first header named `name`, searched in order.
fn header_value<'a>(headers: &'a Vec<Header>, name: &String) -> (r: Option<&'a Vec<u8>>)
    ensures
        match r {
            Some(v) => spec_header_lookup(headers@, name@) == Some(v@),
            None => spec_header_lookup(headers@, name@) is None,
        },
{
    let n = headers.len();
    let mut i: usize = 0;
    proof {
        assert(headers@.skip(0) =~= headers@);
    }
    while i < n
        invariant
            0 <= i <= n,
            n == headers@.len(),
            spec_header_lookup(headers@, name@) == spec_header_lookup(headers@.skip(i as int), name@),
        decreases n - i,
    {
        proof {
            assert(headers@.skip(i as int)[0] == headers@[i as int]);
            assert(headers@.skip(i as int).skip(1) =~= headers@.skip(i + 1));
        }
        if headers[i].name == *name {
            return Some(&headers[i].value);
        }
        i += 1;
    }
    proof {
        assert(headers@.skip(n as int).len() == 0);
    }
    None
}

/// Pulls the bearer credential out of the request's `Authorization` header.
///
/// A missing header and a value that is not representable as a string are
/// the two failures of this stage, both with status 401.  A present,
/// text-representable value yields the token: the remainder after a
/// case-insensitive `"bearer "` prefix, or the raw value unchanged.
pub fn extract_token(request: &Request) -> (r: Result<String, AuthError>)
    ensures
        match spec_authorization(*request) {
            None => r matches Err(e) && e.status_code == 401 && e.message@
                == "no 'Authorization' header present"@,
            Some(v) => if all_visible_ascii(v) {
                r matches Ok(t) && t@ == bytes_as_chars(spec_token_bytes(v))
            } else {
                r matches Err(e) && e.status_code == 401 && e.message@
                    == "unable to extract string from 'Authorization' header: failed to convert header to a str"@
            },
        },
{
    let name = String::from_str("Authorization");
    let value = match header_value(&request.headers, &name) {
        Some(v) => v,
        None => {
            return Err(AuthError::new(
                401,
                String::from_str("no 'Authorization' header present"),
            ));
        },
    };
    proof {
        assert(name@ == "Authorization"@);
        assert(spec_header_lookup(request.headers@, "Authorization"@) == Some(value@));
        assert(spec_authorization(*request) == Some(value@));
    }
    let n = value.len();
    let mut i: usize = 0;
    while i < n
        invariant
            0 <= i <= n,
            n == value@.len(),
            spec_authorization(*request) == Some(value@),
            forall|j: int| 0 <= j < i ==> is_visible_ascii(value@[j]),
        decreases n - i,
    {
        let b = value[i];
        if !(32 <= b && b < 127 || b == 9) {
            proof {
                assert(!is_visible_ascii(value@[i as int]));
                assert(!all_visible_ascii(value@));
            }
            return Err(AuthError::new(
                401,
                String::from_str(
                    "unable to extract string from 'Authorization' header: failed to convert header to a str",
                ),
            ));
        }
        i += 1;
    }
    let has_prefix = n >= 7 && lower(value[0]) == 98 && lower(value[1]) == 101
        && lower(value[2]) == 97 && lower(value[3]) == 114 && lower(value[4]) == 101
        && lower(value[5]) == 114 && lower(value[6]) == 32;
    proof {
        assert(has_prefix == bearer_prefixed(value@)) by {
            if has_prefix {
                assert forall|k: int| 0 <= k < 7 implies lower_byte(value@[k])
                    == bearer_bytes()[k] by {
                    assert(bearer_bytes()[k] == seq![98u8, 101u8, 97u8, 114u8, 101u8, 114u8, 32u8][k]);
                }
            }
            if bearer_prefixed(value@) {
                assert(lower_byte(value@[0]) == bearer_bytes()[0]);
                assert(lower_byte(value@[1]) == bearer_bytes()[1]);
                assert(lower_byte(value@[2]) == bearer_bytes()[2]);
                assert(lower_byte(value@[3]) == bearer_bytes()[3]);
                assert(lower_byte(value@[4]) == bearer_bytes()[4]);
                assert(lower_byte(value@[5]) == bearer_bytes()[5]);
                assert(lower_byte(value@[6]) == bearer_bytes()[6]);
            }
        }
    }
    let start: usize = if has_prefix {
        7
    } else {
        0
    };
    let mut token_bytes: Vec<u8> = Vec::new();
    let mut k: usize = start;
    while k < n
        invariant
            start <= k <= n,
            n == value@.len(),
            token_bytes@ =~= value@.subrange(start as int, k as int),
            forall|j: int| 0 <= j < value@.len() ==> is_visible_ascii(value@[j]),
        decreases n - k,
    {
        token_bytes.push(value[k]);
        k += 1;
    }
    proof {
        assert(token_bytes@ =~= spec_token_bytes(value@));
    }
    Ok(ascii_bytes_to_string(token_bytes))
}

} // verus!
