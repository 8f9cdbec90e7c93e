//! The credential backends: what a login yields, how it can fail, and the
//! rules by which the mock and the relational backend decide.

use crate::models::{clone_roster, Character, CharacterView, World, WorldView};
use vstd::prelude::*;

verus! {

/// Why a login was refused.
#[derive(Clone, Copy, Debug, PartialEq, Eq, Structural)]
pub enum AuthError {
    /// The password is not the account's.
    InvalidCredentials,
    /// The relational store holds no such account.
    AccountNotFound,
    /// The relational store could not be reached, or its answer could not be read.
    BackendUnavailable,
    /// Mock mode is off and no relational store is configured.
    NoBackendConfigured,
}

impl AuthError {
    /// The text that a client is shown for this error.
    pub open spec fn text(self) -> Seq<char> {
        match self {
            AuthError::InvalidCredentials => "invalid credentials"@,
            AuthError::AccountNotFound => "account not found"@,
            AuthError::BackendUnavailable => "backend unavailable"@,
            AuthError::NoBackendConfigured => "no backend configured"@,
        }
    }

    /// The text that a client is shown for this error.
    pub fn message(&self) -> (m: String)
        ensures
            m@ == self.text(),
    {
        match self {
            AuthError::InvalidCredentials => String::from_str("invalid credentials"),
            AuthError::AccountNotFound => String::from_str("account not found"),
            AuthError::BackendUnavailable => String::from_str("backend unavailable"),
            AuthError::NoBackendConfigured => String::from_str("no backend configured"),
        }
    }
}

/// What a successful login yields, and what the cache keeps for an account: the
/// account's characters in the backend's order, and the world to connect to.
#[derive(Debug, PartialEq, Eq)]
pub struct LoginResult {
    pub characters: Vec<Character>,
    pub world: World,
}

/// What a [`LoginResult`] is, as mathematics.
pub struct LoginResultView {
    pub characters: Seq<CharacterView>,
    pub world: WorldView,
}

impl View for LoginResult {
    type V = LoginResultView;

    open spec fn view(&self) -> LoginResultView {
        LoginResultView { characters: self.characters.deep_view(), world: self.world@ }
    }
}

impl Clone for LoginResult {
    fn clone(&self) -> (r: LoginResult)
        ensures
            r@ == self@,
    {
        LoginResult { characters: clone_roster(&self.characters), world: self.world.clone() }
    }
}

/// How a login ended, with the result taken by its view.
pub open spec fn outcome_view(outcome: Result<LoginResult, AuthError>) -> Result<
    LoginResultView,
    AuthError,
> {
    match outcome {
        Ok(r) => Ok(r@),
        Err(e) => Err(e),
    }
}

/// The roster that the mock backend makes up for an account: a knight, a druid
/// and a sorcerer named after it.
pub open spec fn mock_roster(account: Seq<char>) -> Seq<CharacterView> {
    seq![
        CharacterView { name: account + "-Knight"@, level: 220, vocation: "Knight"@ },
        CharacterView { name: account + "-Druid"@, level: 180, vocation: "Druid"@ },
        CharacterView { name: account + "-Sorcerer"@, level: 150, vocation: "Sorcerer"@ },
    ]
}

/// How the mock backend answers: it accepts exactly the accounts whose password
/// is the account name.
pub open spec fn mock_outcome(account: Seq<char>, password: Seq<char>, world: WorldView) -> Result<
    LoginResultView,
    AuthError,
> {
    if account == password {
        Ok(LoginResultView { characters: mock_roster(account), world })
    } else {
        Err(AuthError::InvalidCredentials)
    }
}

/// One character of the mock roster: `account`, then `suffix`, as its name.
fn mock_character(account: &String, suffix: &str, level: i32, vocation: &str) -> (c: Character)
    ensures
        c@ == (CharacterView { name: account@ + suffix@, level, vocation: vocation@ }),
{
    let mut name = account.clone();
    name.append(suffix);
    Character { name, level, vocation: String::from_str(vocation) }
}

/// The mock backend: accepts an account whose password is its own name, and
/// answers with the three characters of [`mock_roster`] and the given world.
pub fn mock_login(account: &String, password: &String, world: World) -> (outcome: Result<
    LoginResult,
    AuthError,
>)
    ensures
        outcome_view(outcome) == mock_outcome(account@, password@, world@),
{
    if !(*account == *password) {
        return Err(AuthError::InvalidCredentials);
    }
    let mut characters: Vec<Character> = Vec::new();
    characters.push(mock_character(account, "-Knight", 220, "Knight"));
    characters.push(mock_character(account, "-Druid", 180, "Druid"));
    characters.push(mock_character(account, "-Sorcerer", 150, "Sorcerer"));
    assert(characters.deep_view() =~= mock_roster(account@));
    Ok(LoginResult { characters, world })
}

} // verus!
