//! The HTTP front: status codes and answer bodies.

use crate::backend::{outcome_view, AuthError, LoginResult, LoginResultView};
use crate::models::{Character, CharacterView, LoginHttpResponse, LoginHttpResponseView, WorldView};
use crate::rate_limit::RateLimited;
use crate::state::AppState;
use vstd::prelude::*;

verus! {

/// The status of a login that succeeded, and of every health check.
pub const STATUS_OK: u16 = 200;

/// The status of a login that the backend refused.
pub const STATUS_UNAUTHORIZED: u16 = 401;

/// The status of a request over its address's rate limit.
pub const STATUS_TOO_MANY_REQUESTS: u16 = 429;

/// The body of the answer to a health check.
pub fn health() -> (body: &'static str)
    ensures
        body@ == "ok"@,
{
    "ok"
}

/// The status that a rate-limited request gets; it gets no body.
pub fn rate_limited(rejection: RateLimited) -> (status: u16)
    ensures
        status == STATUS_TOO_MANY_REQUESTS,
{
    STATUS_TOO_MANY_REQUESTS
}

/// The status and body by which the HTTP front answers a login that ended with `outcome`.
pub open spec fn login_response_view(world: WorldView, outcome: Result<LoginResultView, AuthError>)
    -> (u16, LoginHttpResponseView) {
    match outcome {
        Ok(result) => (
            STATUS_OK,
            LoginHttpResponseView {
                ok: true,
                message: Seq::empty(),
                characters: result.characters,
                world: result.world,
            },
        ),
        Err(e) => (
            STATUS_UNAUTHORIZED,
            LoginHttpResponseView {
                ok: false,
                message: e.text(),
                characters: Seq::empty(),
                world,
            },
        ),
    }
}

/// The status and body by which the HTTP front answers a login that ended with
/// `outcome`. A success is 200 with the roster, the world and an empty
/// message; a failure is 401 with the error's text, no characters, and the
/// world that the deployment advertises.
pub fn login_response(state: &AppState, outcome: Result<LoginResult, AuthError>) -> (answer: (
    u16,
    LoginHttpResponse,
))
    ensures
        (answer.0, answer.1@) == login_response_view(state@.world, outcome_view(outcome)),
{
    match outcome {
        Ok(result) => (
            STATUS_OK,
            LoginHttpResponse {
                ok: true,
                message: String::new(),
                characters: result.characters,
                world: result.world,
            },
        ),
        Err(e) => {
            let characters: Vec<Character> = Vec::new();
            assert(characters.deep_view() =~= Seq::<CharacterView>::empty());
            (
                STATUS_UNAUTHORIZED,
                LoginHttpResponse {
                    ok: false,
                    message: e.message(),
                    characters,
                    world: state.cfg.world(),
                },
            )
        },
    }
}

} // verus!
