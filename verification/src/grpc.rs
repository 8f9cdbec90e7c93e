//! The RPC front: how the outcome of a login becomes a reply or a status.

use crate::backend::{outcome_view, AuthError, LoginResult, LoginResultView};
use crate::models::{Character, CharacterView, World, WorldView};
use crate::rate_limit::RateLimited;
use vstd::prelude::*;

pub mod pb;

verus! {

/// The kind of a refusal on the RPC front.
#[derive(Clone, Copy, Debug, PartialEq, Eq, Structural)]
pub enum Code {
    /// The login was refused.
    Unauthenticated,
    /// The client's address is over its rate limit.
    ResourceExhausted,
}

/// The status by which the RPC front refuses a request; `message` says why.
#[derive(Debug, PartialEq, Eq)]
pub struct Status {
    pub code: Code,
    pub message: String,
}

/// What a [`Status`] is, as mathematics.
pub struct StatusView {
    pub code: Code,
    pub message: Seq<char>,
}

impl View for Status {
    type V = StatusView;

    open spec fn view(&self) -> StatusView {
        StatusView { code: self.code, message: self.message@ }
    }
}

/// The status that a rate-limited request gets on the RPC front.
pub fn rate_limited(rejection: RateLimited) -> (status: Status)
    ensures
        status@ == (StatusView { code: Code::ResourceExhausted, message: "too many requests"@ }),
{
    Status { code: Code::ResourceExhausted, message: String::from_str("too many requests") }
}

/// A character as the wire has it: the same name, level and vocation.
pub fn to_pb_char(c: Character) -> (p: pb::Character)
    ensures
        p@ == c@,
{
    pb::Character { name: c.name, level: c.level, vocation: c.vocation }
}

/// A world as the wire has it.
pub open spec fn pb_world(w: WorldView) -> pb::WorldView {
    pb::WorldView { name: w.name, ip: w.ip, port: w.port as u32, location: w.location }
}

/// A world as the wire has it: the same name, address and location, and the
/// same port number in the wider type.
pub fn to_pb_world(w: World) -> (p: pb::World)
    ensures
        p@ == pb_world(w@),
{
    pb::World { name: w.name, ip: w.ip, port: w.port as u32, location: w.location }
}

/// A roster as the wire has it, character by character and in the same order.
pub fn to_pb_roster(roster: Vec<Character>) -> (wire: Vec<pb::Character>)
    ensures
        wire.deep_view() == roster.deep_view(),
{
    let mut wire: Vec<pb::Character> = Vec::new();
    let mut i: usize = 0;
    while i < roster.len()
        invariant
            i <= roster.len(),
            wire.deep_view() == roster.deep_view().subrange(0, i as int),
        decreases roster.len() - i,
    {
        let ghost sent = wire.deep_view();
        wire.push(to_pb_char(roster[i].clone()));
        assert(wire.deep_view() =~= sent.push(roster[i as int]@));
        i += 1;
    }
    wire
}

/// The message of a reply to a client that gave `ip` as its address.
pub open spec fn reply_message(ip: Seq<char>) -> Seq<char> {
    "ok (ip="@ + ip + ")"@
}

/// The answer of the RPC front to a login that ended with `outcome`.
pub open spec fn login_reply_view(ip: Seq<char>, outcome: Result<LoginResultView, AuthError>)
    -> Result<pb::LoginReplyView, StatusView> {
    match outcome {
        Ok(result) => Ok(
            pb::LoginReplyView {
                ok: true,
                message: reply_message(ip),
                characters: result.characters,
                world: Some(pb_world(result.world)),
            },
        ),
        Err(e) => Err(StatusView { code: Code::Unauthenticated, message: e.text() }),
    }
}

/// What the RPC front answered, with the reply and the status taken by their views.
pub open spec fn answer_view(answer: Result<pb::LoginReply, Status>) -> Result<
    pb::LoginReplyView,
    StatusView,
> {
    match answer {
        Ok(reply) => Ok(reply@),
        Err(status) => Err(status@),
    }
}

/// The answer of the RPC front to a login that ended with `outcome`. A success
/// becomes a reply with the roster and the world, and a message that echoes
/// `ip`; a failure becomes the unauthenticated status with the error's text.
pub fn login_reply(ip: &String, outcome: Result<LoginResult, AuthError>) -> (answer: Result<
    pb::LoginReply,
    Status,
>)
    ensures
        answer_view(answer) == login_reply_view(ip@, outcome_view(outcome)),
{
    match outcome {
        Ok(result) => {
            let mut message = String::from_str("ok (ip=");
            message.append(ip.as_str());
            message.append(")");
            Ok(
                pb::LoginReply {
                    ok: true,
                    message,
                    characters: to_pb_roster(result.characters),
                    world: Some(to_pb_world(result.world)),
                },
            )
        },
        Err(e) => Err(Status { code: Code::Unauthenticated, message: e.message() }),
    }
}

} // verus!
