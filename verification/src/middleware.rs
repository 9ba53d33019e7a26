//! The guard in front of the protected routes. Every request passes it; a
//! request for a public route goes through untouched, any other must carry a
//! bearer token that verifies.

use crate::errors::{Error, STATUS_UNAUTHORIZED};
use crate::text::{same_text, starts_with, strip_prefix};
use crate::token::TokenVerifier;
use vstd::prelude::*;
use vstd::string::*;

verus! {

/// The route that logs a user in.
pub const LOGIN_ROUTE: &'static str = "/login";

/// The route that registers a user.
pub const REGISTER_ROUTE: &'static str = "/register";

/// The root route.
pub const ROOT_ROUTE: &'static str = "/";

/// What precedes the token in an `Authorization` header.
pub const BEARER_SCHEME: &'static str = "Bearer ";

/// The routes that are served without authentication.
pub open spec fn spec_is_public_route(path: Seq<char>) -> bool {
    path == LOGIN_ROUTE@ || path == REGISTER_ROUTE@ || path == ROOT_ROUTE@
}

/// The token that an `Authorization` header carries: what follows the
/// bearer scheme, where the header is present and begins with it.
pub open spec fn spec_bearer_token(authorization: Option<Seq<char>>) -> Option<Seq<char>> {
    match authorization {
        Some(value) => if starts_with(value, BEARER_SCHEME@) {
            Some(value.subrange(BEARER_SCHEME@.len() as int, value.len() as int))
        } else {
            None
        },
        None => None,
    }
}

/// The view of an optional header value.
pub open spec fn spec_header(authorization: Option<&str>) -> Option<Seq<char>> {
    match authorization {
        Some(value) => Some(value@),
        None => None,
    }
}

/// What the guard does with a request before any token is verified.
#[derive(Debug, Clone, PartialEq, Eq)]
pub enum Screening {
    /// The route is public: the request goes through as it is.
    Public,
    /// The route is protected and the request carries this bearer token.
    Token(String),
    /// The route is protected and the request carries no bearer token.
    Rejected,
}

/// What the guard does with a request.
#[derive(Debug, Clone, PartialEq, Eq)]
pub enum Decision {
    /// The route is public: the request is forwarded as it is.
    Public,
    /// The token verified: the request is forwarded together with the
    /// local identifier of the caller.
    Authenticated(String),
    /// The request is answered with an authorization failure and is not
    /// forwarded.
    Unauthorized,
}

impl Decision {
    /// Whether the request reaches the route's handler.
    pub open spec fn spec_forwards(self) -> bool {
        !(self is Unauthorized)
    }

    /// Whether the request reaches the route's handler.
    pub fn forwards(&self) -> (forwarded: bool)
        ensures
            forwarded == self.spec_forwards(),
    {
        match self {
            Decision::Unauthorized => false,
            _ => true,
        }
    }

    /// The status with which the guard itself answers, where it does.
    pub fn rejection_status(&self) -> (status: Option<u16>)
        ensures
            status == if self is Unauthorized {
                Some(STATUS_UNAUTHORIZED)
            } else {
                None
            },
    {
        match self {
            Decision::Unauthorized => Some(STATUS_UNAUTHORIZED),
            _ => None,
        }
    }
}

/// Whether `path` is served without authentication.
pub fn is_public_route(path: &str) -> (public: bool)
    ensures
        public == spec_is_public_route(path@),
{
    same_text(path, LOGIN_ROUTE) || same_text(path, REGISTER_ROUTE) || same_text(path, ROOT_ROUTE)
}

/// The token that an `Authorization` header carries, if it carries one.
pub fn bearer_token(authorization: Option<&str>) -> (token: Option<String>)
    ensures
        token.is_some() == spec_bearer_token(spec_header(authorization)).is_some(),
        token.is_some() ==> token.unwrap()@ == spec_bearer_token(
            spec_header(authorization),
        ).unwrap(),
{
    match authorization {
        Some(value) => strip_prefix(value, BEARER_SCHEME),
        None => None,
    }
}

/// Screens a request: a public route passes, a protected one yields its
/// bearer token or is rejected for want of one.
pub fn screen(path: &str, authorization: Option<&str>) -> (screening: Screening)
    ensures
        spec_is_public_route(path@) ==> screening is Public,
        !spec_is_public_route(path@) ==> match spec_bearer_token(spec_header(authorization)) {
            Some(token) => screening matches Screening::Token(t) && t@ == token,
            None => screening is Rejected,
        },
{
    if is_public_route(path) {
        Screening::Public
    } else {
        match bearer_token(authorization) {
            Some(token) => Screening::Token(token),
            None => Screening::Rejected,
        }
    }
}

/// What the guard decides once the token of a protected request has been
/// put to verification: the request is forwarded with the caller's
/// identifier if the token verified, and refused otherwise.
pub fn conclude(verified: Result<String, Error>) -> (decision: Decision)
    ensures
        match verified {
            Ok(id) => decision == Decision::Authenticated(id),
            Err(_) => decision is Unauthorized,
        },
{
    match verified {
        Ok(id) => Decision::Authenticated(id),
        Err(_) => Decision::Unauthorized,
    }
}

/// The guard: a verifier and the decision procedure around it.
pub struct AuthMiddleware {
    verifier: TokenVerifier,
}

impl AuthMiddleware {
    /// A guard that verifies tokens with `verifier`.
    pub fn new(verifier: TokenVerifier) -> (guard: Self)
        ensures
            guard.spec_token_verifier() == verifier,
    {
        AuthMiddleware { verifier }
    }

    /// The verifier behind this guard.
    pub closed spec fn spec_token_verifier(&self) -> TokenVerifier {
        self.verifier
    }

    /// The verifier behind this guard.
    pub fn token_verifier(&self) -> (held: &TokenVerifier)
        ensures
            *held == self.spec_token_verifier(),
    {
        &self.verifier
    }

    /// Decides what happens to a request for `path` that carries
    /// `authorization` as its `Authorization` header. A public route is
    /// forwarded whatever it carries. A protected route without a bearer
    /// token is refused before anything else happens. With a token the
    /// outcome is the verifier's: forwarded with the caller's identifier, or
    /// refused.
    pub fn call(&self, path: &str, authorization: Option<&str>) -> (decision: Decision)
        ensures
            spec_is_public_route(path@) ==> decision is Public,
            !spec_is_public_route(path@) ==> !(decision is Public),
            !spec_is_public_route(path@) && spec_bearer_token(spec_header(authorization)).is_none()
                ==> decision is Unauthorized,
    {
        match screen(path, authorization) {
            Screening::Public => Decision::Public,
            Screening::Token(token) => conclude(self.verifier.extract_user_id(token.as_str())),
            Screening::Rejected => Decision::Unauthorized,
        }
    }
}

} // verus!
