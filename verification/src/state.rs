//! Login orchestration: cache-aside lookup in front of a credential backend.
//!
//! A login is a short conversation with the outside. The library decides; the
//! caller acts. [`AppState::login`] opens a session and names the first action,
//! the caller performs it and hands the answer to [`AppState::resume`], until
//! the action is [`LoginAction::Finish`]. The transition function is
//! [`begin`] and [`resume`] over views; [`login_outcome`] says what a login
//! returns as a function of what the stores answer.

use crate::backend::{
    mock_login, mock_outcome, outcome_view, AuthError, LoginResult, LoginResultView,
};
use crate::config::ServerConfig;
use crate::models::{Character, CharacterView, WorldView};
use vstd::prelude::*;

verus! {

/// Seconds for which the cache keeps a login result.
pub const CACHE_TTL_SECS: u64 = 300;

/// The gateway's state: its configuration and which stores it is connected to.
#[derive(Debug, PartialEq, Eq)]
pub struct AppState {
    pub cfg: ServerConfig,
    /// Whether a relational store is connected.
    pub mysql: bool,
    /// Whether a cache store is connected.
    pub redis: bool,
}

/// What the orchestration reads of an [`AppState`].
pub struct AppView {
    pub use_mock: bool,
    pub mysql: bool,
    pub redis: bool,
    pub world: WorldView,
}

impl View for AppState {
    type V = AppView;

    open spec fn view(&self) -> AppView {
        AppView {
            use_mock: self.cfg.use_mock,
            mysql: self.mysql,
            redis: self.redis,
            world: self.cfg.world_view(),
        }
    }
}

/// Where a login stands: which answer it is waiting for.
#[derive(Clone, Copy, Debug, PartialEq, Eq, Structural)]
pub enum LoginStage {
    /// The cache was asked for the account's entry.
    CacheLookup,
    /// The relational store was asked for the account's row.
    AccountLookup,
    /// The relational store was asked for the account's characters.
    RosterLookup,
    /// The login has been answered.
    Done,
}

/// A login in progress.
#[derive(Debug, PartialEq, Eq)]
pub struct LoginSession {
    pub account: String,
    pub password: String,
    pub stage: LoginStage,
}

/// Why the cache gave no answer. A login never fails for it and never shows it.
#[derive(Clone, Copy, Debug, PartialEq, Eq, Structural)]
pub enum CacheDegraded {
    /// The cache store could not be reached.
    Unreachable,
    /// The entry could not be decoded.
    Undecodable,
}

/// What the outside answered to the last action.
#[derive(Debug, PartialEq, Eq)]
pub enum LoginEvent {
    /// What the cache read gave: the entry of the account, `Ok(None)` where
    /// it has none, or why the cache gave no answer.
    CacheRead(Result<Option<LoginResult>, CacheDegraded>),
    /// The stored password of the account, or `None` where the store has no such account.
    AccountRow(Option<String>),
    /// All the characters of the account, in the store's order.
    CharacterRows(Vec<Character>),
    /// The relational store could not be reached, or a row could not be read.
    BackendFailed,
}

/// A [`LoginEvent`] with its values taken by their views.
pub enum LoginEventView {
    CacheRead(Result<Option<LoginResultView>, CacheDegraded>),
    AccountRow(Option<Seq<char>>),
    CharacterRows(Seq<CharacterView>),
    BackendFailed,
}

impl View for LoginEvent {
    type V = LoginEventView;

    open spec fn view(&self) -> LoginEventView {
        match self {
            LoginEvent::CacheRead(Ok(Some(r))) => LoginEventView::CacheRead(Ok(Some(r@))),
            LoginEvent::CacheRead(Ok(None)) => LoginEventView::CacheRead(Ok(None)),
            LoginEvent::CacheRead(Err(e)) => LoginEventView::CacheRead(Err(*e)),
            LoginEvent::AccountRow(Some(p)) => LoginEventView::AccountRow(Some(p@)),
            LoginEvent::AccountRow(None) => LoginEventView::AccountRow(None),
            LoginEvent::CharacterRows(rows) => LoginEventView::CharacterRows(rows.deep_view()),
            LoginEvent::BackendFailed => LoginEventView::BackendFailed,
        }
    }
}

/// A request to keep the result of a login in the cache.
#[derive(Debug, PartialEq, Eq)]
pub struct CacheWrite {
    pub key: String,
    pub ttl_secs: u64,
}

/// A [`CacheWrite`] with its key as a sequence of characters.
pub struct CacheWriteView {
    pub key: Seq<char>,
    pub ttl_secs: u64,
}

impl View for CacheWrite {
    type V = CacheWriteView;

    open spec fn view(&self) -> CacheWriteView {
        CacheWriteView { key: self.key@, ttl_secs: self.ttl_secs }
    }
}

/// What the caller is to do next.
#[derive(Debug, PartialEq, Eq)]
pub enum LoginAction {
    /// Read the cache entry under `key` and answer with [`LoginEvent::CacheRead`].
    ReadCache { key: String },
    /// Look up the row of `account` and answer with [`LoginEvent::AccountRow`],
    /// or with [`LoginEvent::BackendFailed`].
    FetchAccount { account: String },
    /// Read all the characters of `account` and answer with
    /// [`LoginEvent::CharacterRows`], or with [`LoginEvent::BackendFailed`] if
    /// any of them cannot be had.
    FetchCharacters { account: String },
    /// Answer the login with `outcome`. Where `store` is given, first try to
    /// write the result to the cache as it says; whether that write succeeds
    /// changes nothing.
    Finish { outcome: Result<LoginResult, AuthError>, store: Option<CacheWrite> },
}

/// A [`LoginAction`] with its values taken by their views.
pub enum LoginActionView {
    ReadCache { key: Seq<char> },
    FetchAccount { account: Seq<char> },
    FetchCharacters { account: Seq<char> },
    Finish { outcome: Result<LoginResultView, AuthError>, store: Option<CacheWriteView> },
}

impl View for LoginAction {
    type V = LoginActionView;

    open spec fn view(&self) -> LoginActionView {
        match self {
            LoginAction::ReadCache { key } => LoginActionView::ReadCache { key: key@ },
            LoginAction::FetchAccount { account } => LoginActionView::FetchAccount {
                account: account@,
            },
            LoginAction::FetchCharacters { account } => LoginActionView::FetchCharacters {
                account: account@,
            },
            LoginAction::Finish { outcome, store } => LoginActionView::Finish {
                outcome: outcome_view(*outcome),
                store: match store {
                    Some(w) => Some(w@),
                    None => None,
                },
            },
        }
    }
}

/// The cache key of an account.
pub open spec fn cache_key(account: Seq<char>) -> Seq<char> {
    "login:"@ + account
}

/// The end of a login with `outcome`. A success is written through to the cache
/// where one is connected; a failure never is.
pub open spec fn finish(
    app: AppView,
    account: Seq<char>,
    outcome: Result<LoginResultView, AuthError>,
) -> (LoginStage, LoginActionView) {
    (
        LoginStage::Done,
        LoginActionView::Finish {
            outcome,
            store: if app.redis && outcome is Ok {
                Some(CacheWriteView { key: cache_key(account), ttl_secs: CACHE_TTL_SECS })
            } else {
                None
            },
        },
    )
}

/// The step that turns to the credential backend. The mock backend answers on
/// the spot; the relational one is first asked for the account's row; without
/// either the login fails.
pub open spec fn query_backend(app: AppView, account: Seq<char>, password: Seq<char>) -> (
    LoginStage,
    LoginActionView,
) {
    if app.use_mock {
        finish(app, account, mock_outcome(account, password, app.world))
    } else if app.mysql {
        (LoginStage::AccountLookup, LoginActionView::FetchAccount { account })
    } else {
        finish(app, account, Err(AuthError::NoBackendConfigured))
    }
}

/// The first step of a login: the cache is consulted where one is connected,
/// else the backend.
pub open spec fn begin(app: AppView, account: Seq<char>, password: Seq<char>) -> (
    LoginStage,
    LoginActionView,
) {
    if app.redis {
        (LoginStage::CacheLookup, LoginActionView::ReadCache { key: cache_key(account) })
    } else {
        query_backend(app, account, password)
    }
}

/// The entry that a cache read found. A cache that gave no answer found none.
pub open spec fn cache_hit(read: Result<Option<LoginResultView>, CacheDegraded>) -> Option<
    LoginResultView,
> {
    match read {
        Ok(entry) => entry,
        Err(_) => None,
    }
}

/// The end of a login whose caller answered something that was not asked.
pub open spec fn refuse() -> (LoginStage, LoginActionView) {
    (
        LoginStage::Done,
        LoginActionView::Finish { outcome: Err(AuthError::BackendUnavailable), store: None },
    )
}

/// The step of a login at `stage` on the answer `event`.
///
/// A cache hit ends the login with the cached result as it is: the password is
/// not looked at. A miss turns to the backend, and so does a cache that gave
/// no answer: it is not told from a miss. The relational backend fails
/// with `AccountNotFound` without a row, with `InvalidCredentials` where the
/// stored password differs from the given one, with `BackendUnavailable` where
/// the store fails at either query; it never yields part of a roster. An
/// answer that does not fit the stage ends the login as [`refuse`] says.
pub open spec fn resume(
    app: AppView,
    account: Seq<char>,
    password: Seq<char>,
    stage: LoginStage,
    event: LoginEventView,
) -> (LoginStage, LoginActionView) {
    match (stage, event) {
        (LoginStage::CacheLookup, LoginEventView::CacheRead(read)) => match cache_hit(read) {
            Some(cached) => (
                LoginStage::Done,
                LoginActionView::Finish { outcome: Ok(cached), store: None },
            ),
            None => query_backend(app, account, password),
        },
        (LoginStage::AccountLookup, LoginEventView::AccountRow(None)) => finish(
            app,
            account,
            Err(AuthError::AccountNotFound),
        ),
        (LoginStage::AccountLookup, LoginEventView::AccountRow(Some(stored))) => if stored
            == password {
            (LoginStage::RosterLookup, LoginActionView::FetchCharacters { account })
        } else {
            finish(app, account, Err(AuthError::InvalidCredentials))
        },
        (LoginStage::AccountLookup, LoginEventView::BackendFailed) => finish(
            app,
            account,
            Err(AuthError::BackendUnavailable),
        ),
        (LoginStage::RosterLookup, LoginEventView::CharacterRows(rows)) => finish(
            app,
            account,
            Ok(LoginResultView { characters: rows, world: app.world }),
        ),
        (LoginStage::RosterLookup, LoginEventView::BackendFailed) => finish(
            app,
            account,
            Err(AuthError::BackendUnavailable),
        ),
        _ => refuse(),
    }
}

/// What the stores answer in the course of one login.
pub struct Answers {
    /// What a read of the account's cache entry gives.
    pub cached: Result<Option<LoginResultView>, CacheDegraded>,
    /// The account's stored password, `Ok(None)` where there is no such
    /// account, `Err` where the relational store fails.
    pub account: Result<Option<Seq<char>>, ()>,
    /// The account's characters, `Err` where the relational store fails.
    pub roster: Result<Seq<CharacterView>, ()>,
}

/// The event by which a caller answers `action` when the stores answer as `answers` says.
pub open spec fn answer(action: LoginActionView, answers: Answers) -> LoginEventView {
    match action {
        LoginActionView::ReadCache { .. } => LoginEventView::CacheRead(answers.cached),
        LoginActionView::FetchAccount { .. } => match answers.account {
            Ok(row) => LoginEventView::AccountRow(row),
            Err(_) => LoginEventView::BackendFailed,
        },
        LoginActionView::FetchCharacters { .. } => match answers.roster {
            Ok(rows) => LoginEventView::CharacterRows(rows),
            Err(_) => LoginEventView::BackendFailed,
        },
        LoginActionView::Finish { .. } => LoginEventView::BackendFailed,
    }
}

/// The action that a login arrives at from `action` at `stage` when each action
/// is answered as `answers` says, after at most `steps` answers.
pub open spec fn drive(
    app: AppView,
    account: Seq<char>,
    password: Seq<char>,
    stage: LoginStage,
    action: LoginActionView,
    answers: Answers,
    steps: nat,
) -> LoginActionView
    decreases steps,
{
    if steps == 0 || action is Finish {
        action
    } else {
        let next = resume(app, account, password, stage, answer(action, answers));
        drive(app, account, password, next.0, next.1, answers, (steps - 1) as nat)
    }
}

/// The last action of a whole login, from [`begin`] through every answer. No
/// login takes more than three answers.
pub open spec fn run(app: AppView, account: Seq<char>, password: Seq<char>, answers: Answers)
    -> LoginActionView {
    let first = begin(app, account, password);
    drive(app, account, password, first.0, first.1, answers, 3)
}

/// What the credential backend yields for an account and a password.
pub open spec fn backend_outcome(
    app: AppView,
    account: Seq<char>,
    password: Seq<char>,
    answers: Answers,
) -> Result<LoginResultView, AuthError> {
    if app.use_mock {
        mock_outcome(account, password, app.world)
    } else if !app.mysql {
        Err(AuthError::NoBackendConfigured)
    } else {
        match answers.account {
            Err(_) => Err(AuthError::BackendUnavailable),
            Ok(None) => Err(AuthError::AccountNotFound),
            Ok(Some(stored)) => if stored != password {
                Err(AuthError::InvalidCredentials)
            } else {
                match answers.roster {
                    Err(_) => Err(AuthError::BackendUnavailable),
                    Ok(rows) => Ok(LoginResultView { characters: rows, world: app.world }),
                }
            },
        }
    }
}

/// What a login returns: the cache's entry where a connected cache has one,
/// else what the backend yields.
pub open spec fn login_outcome(
    app: AppView,
    account: Seq<char>,
    password: Seq<char>,
    answers: Answers,
) -> Result<LoginResultView, AuthError> {
    match cache_hit(answers.cached) {
        Some(cached) if app.redis => Ok(cached),
        _ => backend_outcome(app, account, password, answers),
    }
}

/// Every login ends, within three answers, with the outcome that
/// [`login_outcome`] gives. It asks for a cache write exactly when a cache is
/// connected, the cache had no entry and the backend accepted the login; the
/// write is under the account's key, for [`CACHE_TTL_SECS`] seconds.
pub proof fn lemma_login_returns_outcome(
    app: AppView,
    account: Seq<char>,
    password: Seq<char>,
    answers: Answers,
)
    ensures
        run(app, account, password, answers) == (LoginActionView::Finish {
            outcome: login_outcome(app, account, password, answers),
            store: if app.redis && cache_hit(answers.cached) is None && backend_outcome(
                app,
                account,
                password,
                answers,
            ) is Ok {
                Some(CacheWriteView { key: cache_key(account), ttl_secs: CACHE_TTL_SECS })
            } else {
                None
            },
        }),
{
    reveal_with_fuel(drive, 4);
}

/// A cache that cannot be reached changes no outcome: where the read gives no
/// answer, as where it misses, a login returns what it returns with no cache
/// connected at all. What becomes of its writes is of no account: the outcome
/// is fixed before the write is asked for.
pub proof fn lemma_cache_outage_keeps_outcome(
    app: AppView,
    account: Seq<char>,
    password: Seq<char>,
    answers: Answers,
)
    requires
        cache_hit(answers.cached) is None,
    ensures
        ({
            let with_cache = AppView { redis: true, ..app };
            let without = AppView { redis: false, ..app };
            &&& login_outcome(with_cache, account, password, answers) == login_outcome(
                without,
                account,
                password,
                answers,
            )
            &&& run(with_cache, account, password, answers)->outcome == run(
                without,
                account,
                password,
                answers,
            )->outcome
            &&& run(without, account, password, answers)->store is None
        }),
{
    let with_cache = AppView { redis: true, ..app };
    let without = AppView { redis: false, ..app };
    lemma_login_returns_outcome(with_cache, account, password, answers);
    lemma_login_returns_outcome(without, account, password, answers);
}

/// The cache round trip. A login that misses the cache and succeeds with
/// `result` asks for `result` to be written under the account's key. While the
/// cache holds that entry, a login to the same account reads that key, ends on
/// the cache's answer with the same result, whatever password it was given and
/// whatever the backend would say, and asks the backend nothing. Once the entry
/// has expired, the read misses and the login turns to the backend again.
pub proof fn lemma_cache_round_trip(
    app: AppView,
    account: Seq<char>,
    password: Seq<char>,
    answers: Answers,
    later_password: Seq<char>,
    later_answers: Answers,
)
    requires
        app.redis,
        cache_hit(answers.cached) is None,
        run(app, account, password, answers) matches LoginActionView::Finish { outcome: Ok(_), .. },
    ensures
        ({
            let first = run(app, account, password, answers);
            let result = first->outcome->Ok_0;
            let hit = LoginEventView::CacheRead(Ok(Some(result)));
            let miss = LoginEventView::CacheRead(Ok(None));
            &&& first->store == Some(
                CacheWriteView { key: cache_key(account), ttl_secs: CACHE_TTL_SECS },
            )
            &&& begin(app, account, later_password) == (
                LoginStage::CacheLookup,
                LoginActionView::ReadCache { key: cache_key(account) },
            )
            &&& resume(app, account, later_password, LoginStage::CacheLookup, hit) == (
                LoginStage::Done,
                LoginActionView::Finish { outcome: Ok(result), store: None },
            )
            &&& cache_hit(later_answers.cached) == Some(result) ==> run(
                app,
                account,
                later_password,
                later_answers,
            ) == (LoginActionView::Finish { outcome: Ok(result), store: None })
            &&& resume(app, account, later_password, LoginStage::CacheLookup, miss)
                == query_backend(app, account, later_password)
            &&& cache_hit(later_answers.cached) is None ==> run(
                app,
                account,
                later_password,
                later_answers,
            )->outcome == backend_outcome(app, account, later_password, later_answers)
        }),
{
    lemma_login_returns_outcome(app, account, password, answers);
    lemma_login_returns_outcome(app, account, later_password, later_answers);
}

/// The cache key of an account: `login:` and the account's name.
pub fn login_key(account: &String) -> (key: String)
    ensures
        key@ == cache_key(account@),
{
    let mut key = String::from_str("login:");
    key.append(account.as_str());
    key
}

impl AppState {
    /// The state of a gateway with configuration `cfg`: a store counts as
    /// connected exactly where the configuration names one.
    pub fn new(cfg: ServerConfig) -> (state: AppState)
        ensures
            state.cfg == cfg,
            state.mysql == cfg.mysql_url.is_some(),
            state.redis == cfg.redis_url.is_some(),
    {
        let mysql = cfg.mysql_url.is_some();
        let redis = cfg.redis_url.is_some();
        AppState { cfg, mysql, redis }
    }

    /// Ends a login with `outcome`.
    fn finish(
        &self,
        account: &String,
        outcome: Result<LoginResult, AuthError>,
    ) -> (action: LoginAction)
        ensures
            (LoginStage::Done, action@) == finish(self@, account@, outcome_view(outcome)),
    {
        let store = if self.redis && outcome.is_ok() {
            Some(CacheWrite { key: login_key(account), ttl_secs: CACHE_TTL_SECS })
        } else {
            None
        };
        LoginAction::Finish { outcome, store }
    }

    /// Turns to the credential backend.
    fn login_db(&self, account: &String, password: &String) -> (step: (LoginStage, LoginAction))
        ensures
            (step.0, step.1@) == query_backend(self@, account@, password@),
    {
        if self.cfg.use_mock {
            let outcome = mock_login(account, password, self.cfg.world());
            (LoginStage::Done, self.finish(account, outcome))
        } else if self.mysql {
            (LoginStage::AccountLookup, LoginAction::FetchAccount { account: account.clone() })
        } else {
            (LoginStage::Done, self.finish(account, Err(AuthError::NoBackendConfigured)))
        }
    }

    /// Opens a login and names its first action, as [`begin`] says.
    pub fn login(&self, account: String, password: String) -> (step: (LoginSession, LoginAction))
        ensures
            step.0.account@ == account@,
            step.0.password@ == password@,
            (step.0.stage, step.1@) == begin(self@, account@, password@),
    {
        let (stage, action) = if self.redis {
            (LoginStage::CacheLookup, LoginAction::ReadCache { key: login_key(&account) })
        } else {
            self.login_db(&account, &password)
        };
        (LoginSession { account, password, stage }, action)
    }

    /// Takes the answer to the session's last action and names the next one, as
    /// [`resume`](fn@resume) says.
    pub fn resume(
        &self,
        session: LoginSession,
        event: LoginEvent,
    ) -> (step: (LoginSession, LoginAction))
        ensures
            step.0.account@ == session.account@,
            step.0.password@ == session.password@,
            (step.0.stage, step.1@) == resume(
                self@,
                session.account@,
                session.password@,
                session.stage,
                event@,
            ),
    {
        let LoginSession { account, password, stage } = session;
        let (next, action) = match stage {
            LoginStage::CacheLookup => match event {
                LoginEvent::CacheRead(Ok(Some(cached))) => (
                    LoginStage::Done,
                    LoginAction::Finish { outcome: Ok(cached), store: None },
                ),
                LoginEvent::CacheRead(_) => self.login_db(&account, &password),
                _ => Self::refuse(),
            },
            LoginStage::AccountLookup => match event {
                LoginEvent::AccountRow(None) => (
                    LoginStage::Done,
                    self.finish(&account, Err(AuthError::AccountNotFound)),
                ),
                LoginEvent::AccountRow(Some(stored)) => if stored == password {
                    (
                        LoginStage::RosterLookup,
                        LoginAction::FetchCharacters { account: account.clone() },
                    )
                } else {
                    (LoginStage::Done, self.finish(&account, Err(AuthError::InvalidCredentials)))
                },
                LoginEvent::BackendFailed => (
                    LoginStage::Done,
                    self.finish(&account, Err(AuthError::BackendUnavailable)),
                ),
                _ => Self::refuse(),
            },
            LoginStage::RosterLookup => match event {
                LoginEvent::CharacterRows(rows) => (
                    LoginStage::Done,
                    self.finish(
                        &account,
                        Ok(LoginResult { characters: rows, world: self.cfg.world() }),
                    ),
                ),
                LoginEvent::BackendFailed => (
                    LoginStage::Done,
                    self.finish(&account, Err(AuthError::BackendUnavailable)),
                ),
                _ => Self::refuse(),
            },
            LoginStage::Done => Self::refuse(),
        };
        (LoginSession { account, password, stage: next }, action)
    }

    /// Ends a login whose caller answered something that was not asked.
    fn refuse() -> (step: (LoginStage, LoginAction))
        ensures
            (step.0, step.1@) == refuse(),
    {
        (
            LoginStage::Done,
            LoginAction::Finish { outcome: Err(AuthError::BackendUnavailable), store: None },
        )
    }
}

} // verus!
