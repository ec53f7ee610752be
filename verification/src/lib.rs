//! Token-based authentication for HTTP endpoints.
//!
//! The crate validates a bearer token taken from a request's
//! `Authorization` header against a remote JSON Web Key Set, enforces the
//! claim policies (issuer match, subject present, not expired) and derives
//! a typed [`User`] from the verified claims.  Every failure surfaces as a
//! structured [`AuthError`] carrying an HTTP-style status code.
//!
//! Network transport is not performed here: the caller fetches the key-set
//! document and hands the outcome to [`authenticate`], which does all the
//! parsing, key resolution, validation and identity mapping.

mod claims;
mod common;
mod dto;
mod errors;
mod keys;
mod pipeline;
mod request;

pub use claims::Claims;
pub use claims::RoleEntry;
pub use claims::RolesClaim;
pub use claims::User;
pub use claims::complete_validation;
pub use claims::to_roles;
pub use common::LambdaError;
pub use dto::RequestDto;
pub use common::LambdaErrorPayload;
pub use common::LambdaResult;
pub use errors::AuthError;
pub use keys::KeyEntry;
pub use keys::KeySet;
pub use keys::parse_key_set;
pub use pipeline::authenticate;
pub use pipeline::authenticate_with_keys;
pub use pipeline::fetch_jwks;
pub use pipeline::jwks_uri;
pub use request::Header;
pub use request::Request;
pub use request::extract_token;
