//! The messages of the RPC front, as the wire schema has them.

use crate::models::CharacterView;
use vstd::prelude::*;

verus! {

/// A character on the wire.
#[derive(Debug, PartialEq, Eq)]
pub struct Character {
    pub name: String,
    pub level: i32,
    pub vocation: String,
}

impl View for Character {
    type V = CharacterView;

    open spec fn view(&self) -> CharacterView {
        CharacterView { name: self.name@, level: self.level, vocation: self.vocation@ }
    }
}

impl DeepView for Character {
    type V = CharacterView;

    open spec fn deep_view(&self) -> CharacterView {
        self@
    }
}

/// A world on the wire; the schema has no 16-bit integers, so the port is wider.
#[derive(Debug, PartialEq, Eq)]
pub struct World {
    pub name: String,
    pub ip: String,
    pub port: u32,
    pub location: String,
}

/// What a wire [`World`] is, as mathematics.
pub struct WorldView {
    pub name: Seq<char>,
    pub ip: Seq<char>,
    pub port: u32,
    pub location: Seq<char>,
}

impl View for World {
    type V = WorldView;

    open spec fn view(&self) -> WorldView {
        WorldView { name: self.name@, ip: self.ip@, port: self.port, location: self.location@ }
    }
}

/// The login request of the RPC front. `ip` is what the client says its
/// address is; it is echoed in the reply and decides nothing.
#[derive(Debug, PartialEq, Eq)]
pub struct LoginRequest {
    pub account: String,
    pub password: String,
    pub ip: String,
}

/// The reply to a login on the RPC front.
#[derive(Debug, PartialEq, Eq)]
pub struct LoginReply {
    pub ok: bool,
    pub message: String,
    pub characters: Vec<Character>,
    pub world: Option<World>,
}

/// What a [`LoginReply`] is, as mathematics.
pub struct LoginReplyView {
    pub ok: bool,
    pub message: Seq<char>,
    pub characters: Seq<CharacterView>,
    pub world: Option<WorldView>,
}

impl View for LoginReply {
    type V = LoginReplyView;

    open spec fn view(&self) -> LoginReplyView {
        LoginReplyView {
            ok: self.ok,
            message: self.message@,
            characters: self.characters.deep_view(),
            world: match self.world {
                Some(w) => Some(w@),
                None => None,
            },
        }
    }
}

} // verus!
