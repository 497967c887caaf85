//! Admitting a caller to the stream of events: which credential of a
//! request counts, what a caller without a valid one is told, and the
//! subscription that a verified caller gets.

use vstd::prelude::*;

use crate::error::{STATUS_FORBIDDEN, STATUS_UNAUTHORIZED};
use crate::registry::{subscribed, Registry, Subscription};
use crate::text::join;

verus! {

/// What reading the bearer credential of a request's `Authorization` header
/// gave.
#[derive(Debug, Clone, PartialEq, Eq)]
pub enum BearerHeader {
    /// The header holds this token.
    Token(String),
    /// The request has no such header.
    Missing,
    /// The header is there but cannot be read, for this reason.
    Invalid(String),
}

/// The answer to a caller that is turned away.
#[derive(Debug, Clone, PartialEq, Eq)]
pub struct Rejection {
    pub status: u16,
    pub message: String,
}

/// What to do once the header of a request has been read.
#[derive(Debug, Clone, PartialEq, Eq)]
pub enum TokenStep {
    /// Verify this token.
    Found(String),
    /// Look for the token among the query parameters.
    AskQuery,
    /// Turn the caller away.
    Rejected(Rejection),
}

/// Whether `rejection` has the given status and says `prefix` followed by
/// `reason`.
pub open spec fn rejects_with(
    rejection: Rejection,
    status: u16,
    prefix: Seq<char>,
    reason: Seq<char>,
) -> bool {
    rejection.status == status && rejection.message@ == prefix + reason
}

/// Decides on the header of a request: a token in it is taken, a missing
/// header sends the search on to the query parameters, an unreadable one
/// turns the caller away as unauthorized.
pub fn token_from_header(header: BearerHeader) -> (step: TokenStep)
    ensures
        match header {
            BearerHeader::Token(token) => step == TokenStep::Found(token),
            BearerHeader::Missing => step == TokenStep::AskQuery,
            BearerHeader::Invalid(reason) => step matches TokenStep::Rejected(r) && rejects_with(
                r,
                STATUS_UNAUTHORIZED,
                "parse Authorization header failed: "@,
                reason@,
            ),
        },
{
    match header {
        BearerHeader::Token(token) => TokenStep::Found(token),
        BearerHeader::Missing => TokenStep::AskQuery,
        BearerHeader::Invalid(reason) => TokenStep::Rejected(
            Rejection {
                status: STATUS_UNAUTHORIZED,
                message: join("parse Authorization header failed: ", &reason),
            },
        ),
    }
}

/// Decides on the query parameters of a request without a header: the token
/// among them is taken; if they cannot be read, for the reason given, the
/// caller is turned away as unauthorized.
pub fn token_from_query(query: Result<String, String>) -> (token: Result<String, Rejection>)
    ensures
        match query {
            Ok(found) => token == Ok::<String, Rejection>(found),
            Err(reason) => token matches Err(r) && rejects_with(
                r,
                STATUS_UNAUTHORIZED,
                "parse query params failed: "@,
                reason@,
            ),
        },
{
    match query {
        Ok(found) => Ok(found),
        Err(reason) => Err(
            Rejection {
                status: STATUS_UNAUTHORIZED,
                message: join("parse query params failed: ", &reason),
            },
        ),
    }
}

/// The answer to a caller whose token the verifier refused, for the reason
/// given: the caller is forbidden.
pub fn token_refused(reason: &String) -> (rejection: Rejection)
    ensures
        rejects_with(rejection, STATUS_FORBIDDEN, "verify token failed: "@, reason@),
{
    Rejection { status: STATUS_FORBIDDEN, message: join("verify token failed: ", reason) }
}

/// Admits a caller to the stream of events, given what the verifier made of
/// the caller's token: the user's identity, or the reason why the token was
/// refused. A verified caller is subscribed on the channel of the user's
/// entry; a refused one is turned away and the registry stays as it was.
pub fn connect(registry: &mut Registry, verified: Result<u64, String>) -> (admitted: Result<
    Subscription,
    Rejection,
>)
    ensures
        match verified {
            Ok(user_id) => {
                &&& admitted matches Ok(subscription)
                &&& subscription.owner() == user_id
                &&& subscription.listens_on() == final(registry).endpoint_of(user_id)
                &&& subscribed(
                    old(registry).endpoints(),
                    final(registry).endpoints(),
                    user_id,
                    subscription.listens_on(),
                )
                &&& final(registry).users() == old(registry).users().insert(user_id)
            },
            Err(reason) => {
                &&& admitted matches Err(r)
                &&& rejects_with(r, STATUS_FORBIDDEN, "verify token failed: "@, reason@)
                &&& final(registry).endpoints() == old(registry).endpoints()
            },
        },
{
    match verified {
        Ok(user_id) => Ok(registry.get_or_create(user_id)),
        Err(reason) => Err(token_refused(&reason)),
    }
}

} // verus!
