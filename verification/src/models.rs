//! The values that a login carries: characters, the world they play in, and
//! the envelopes of the HTTP front. Each has a view that holds its strings as
//! sequences of characters; contracts speak of the views.

use vstd::prelude::*;

verus! {

/// A playable character of an account.
#[derive(Debug, PartialEq, Eq)]
pub struct Character {
    pub name: String,
    pub level: i32,
    pub vocation: String,
}

/// What a [`Character`] is, as mathematics.
pub struct CharacterView {
    pub name: Seq<char>,
    pub level: i32,
    pub vocation: Seq<char>,
}

impl View for Character {
    type V = CharacterView;

    open spec fn view(&self) -> CharacterView {
        CharacterView { name: self.name@, level: self.level, vocation: self.vocation@ }
    }
}

impl DeepView for Character {
    type V = CharacterView;

    open spec fn deep_view(&self) -> CharacterView {
        self@
    }
}

impl Clone for Character {
    fn clone(&self) -> (c: Character)
        ensures
            c == *self,
    {
        Character { name: self.name.clone(), level: self.level, vocation: self.vocation.clone() }
    }
}

/// The world server that a client connects to after a login.
#[derive(Debug, PartialEq, Eq)]
pub struct World {
    pub name: String,
    pub ip: String,
    pub port: u16,
    pub location: String,
}

/// What a [`World`] is, as mathematics.
pub struct WorldView {
    pub name: Seq<char>,
    pub ip: Seq<char>,
    pub port: u16,
    pub location: Seq<char>,
}

impl View for World {
    type V = WorldView;

    open spec fn view(&self) -> WorldView {
        WorldView { name: self.name@, ip: self.ip@, port: self.port, location: self.location@ }
    }
}

impl DeepView for World {
    type V = WorldView;

    open spec fn deep_view(&self) -> WorldView {
        self@
    }
}

impl Clone for World {
    fn clone(&self) -> (w: World)
        ensures
            w == *self,
    {
        World {
            name: self.name.clone(),
            ip: self.ip.clone(),
            port: self.port,
            location: self.location.clone(),
        }
    }
}

/// The body of a login request on the HTTP front.
#[derive(Debug, PartialEq, Eq)]
pub struct LoginHttpRequest {
    pub account: String,
    pub password: String,
}

/// What a [`LoginHttpRequest`] is, as mathematics.
pub struct LoginHttpRequestView {
    pub account: Seq<char>,
    pub password: Seq<char>,
}

impl View for LoginHttpRequest {
    type V = LoginHttpRequestView;

    open spec fn view(&self) -> LoginHttpRequestView {
        LoginHttpRequestView { account: self.account@, password: self.password@ }
    }
}

impl Clone for LoginHttpRequest {
    fn clone(&self) -> (r: LoginHttpRequest)
        ensures
            r == *self,
    {
        LoginHttpRequest { account: self.account.clone(), password: self.password.clone() }
    }
}

/// The body of the answer to a login request on the HTTP front.
#[derive(Debug, PartialEq, Eq)]
pub struct LoginHttpResponse {
    pub ok: bool,
    pub message: String,
    pub characters: Vec<Character>,
    pub world: World,
}

/// What a [`LoginHttpResponse`] is, as mathematics.
pub struct LoginHttpResponseView {
    pub ok: bool,
    pub message: Seq<char>,
    pub characters: Seq<CharacterView>,
    pub world: WorldView,
}

impl View for LoginHttpResponse {
    type V = LoginHttpResponseView;

    open spec fn view(&self) -> LoginHttpResponseView {
        LoginHttpResponseView {
            ok: self.ok,
            message: self.message@,
            characters: self.characters.deep_view(),
            world: self.world@,
        }
    }
}

impl Clone for LoginHttpResponse {
    fn clone(&self) -> (r: LoginHttpResponse)
        ensures
            r@ == self@,
    {
        LoginHttpResponse {
            ok: self.ok,
            message: self.message.clone(),
            characters: clone_roster(&self.characters),
            world: self.world.clone(),
        }
    }
}

/// A copy of a roster, character by character and in the same order.
pub fn clone_roster(roster: &Vec<Character>) -> (copy: Vec<Character>)
    ensures
        copy@ == roster@,
        copy.deep_view() == roster.deep_view(),
{
    let mut copy: Vec<Character> = Vec::new();
    let mut i: usize = 0;
    while i < roster.len()
        invariant
            i <= roster.len(),
            copy@ == roster@.subrange(0, i as int),
        decreases roster.len() - i,
    {
        copy.push(roster[i].clone());
        i += 1;
    }
    copy
}

} // verus!
