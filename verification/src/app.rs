//! Application services: registration and login rules, room creation and joining, and
//! the port records they exchange with storage.
use vstd::prelude::*;
use std::sync::Arc;
use rand::Rng;

use crate::auth::{auth_message, AuthError, PasswordService, TokenService, valid_password, valid_username, validate_password, validate_username};
use crate::engine::{StepOutcome, init, join_rejection, step, step_ready, step_spec};
use crate::error::{domain_message, DomainError};
use crate::history::{text_player_joined, text_room_created, texts};
use crate::ids::{MemberRole, RoomId, UserId};
use crate::lobby::RoomPhase;
use crate::protocol::{AuthRequest, AuthResponse, CreateRoomResponse};
use crate::room::{RoomState, token_index};
use crate::text::{contains_text, text_contains, trim, trimmed};
use crate::token::PlayerToken;
use crate::actions::Action;

verus! {

/// Why storage refused a request.
#[derive(Debug, Clone, PartialEq, Eq)]
pub enum PortError {
    NotFound,
    Conflict(&'static str),
    Storage(String),
}

#[derive(Debug, Clone, PartialEq, Eq)]
pub struct UserRecord {
    pub id: UserId,
    pub username: String,
    pub password_hash: String,
}

#[derive(Debug, Clone, PartialEq, Eq)]
pub struct RoomMember {
    pub user_id: UserId,
    pub role: MemberRole,
    pub display_name: String,
}

#[derive(Debug, Clone, PartialEq, Eq)]
pub enum AppError {
    Auth(AuthError),
    Port(PortError),
    Domain(DomainError),
    Message(&'static str),
}

/// The text a storage failure is shown with.
pub open spec fn port_message(e: PortError) -> Seq<char> {
    match e {
        PortError::NotFound => "not found"@,
        PortError::Conflict(what) => "conflict: "@ + what@,
        PortError::Storage(why) => "storage error: "@ + why@,
    }
}

/// The text of an application failure: that of the failure it wraps, or the message.
pub open spec fn app_message(e: AppError) -> Seq<char> {
    match e {
        AppError::Auth(a) => auth_message(a),
        AppError::Port(p) => port_message(p),
        AppError::Domain(d) => domain_message(d),
        AppError::Message(m) => m@,
    }
}

impl PortError {
    /// The failure as text.
    pub fn message(&self) -> (s: String)
        ensures
            s@ == port_message(*self),
    {
        match self {
            PortError::NotFound => String::from_str("not found"),
            PortError::Conflict(what) => {
                let mut s = String::from_str("conflict: ");
                s.append(what);
                s
            },
            PortError::Storage(why) => {
                let mut s = String::from_str("storage error: ");
                s.append(why.as_str());
                s
            },
        }
    }
}

impl AppError {
    /// The failure as text.
    pub fn message(&self) -> (s: String)
        ensures
            s@ == app_message(*self),
    {
        match self {
            AppError::Auth(a) => a.message(),
            AppError::Port(p) => p.message(),
            AppError::Domain(d) => d.message(),
            AppError::Message(m) => String::from_str(m),
        }
    }
}

/// How a database failure is reported: a unique-constraint violation (the database's
/// message names `UNIQUE`) is a conflict; any other failure a storage error with its text.
pub fn storage_error(database_message: Option<&str>, text: String) -> (e: PortError)
    ensures
        (database_message matches Some(m) && contains_text(m@, "UNIQUE"@)) ==> e == PortError::Conflict("unique constraint"),
        !(database_message matches Some(m) && contains_text(m@, "UNIQUE"@)) ==> e == PortError::Storage(text),
{
    match database_message {
        Some(m) => {
            if text_contains(m, "UNIQUE") {
                return PortError::Conflict("unique constraint");
            }
        },
        None => {},
    }
    PortError::Storage(text)
}

/// How a membership role is stored.
pub fn role_text(role: MemberRole) -> (s: &'static str)
    ensures
        s@ == (if role == MemberRole::Gm { "gm"@ } else { "player"@ }),
{
    match role {
        MemberRole::Gm => "gm",
        MemberRole::Player => "player",
    }
}

/// The role a stored text names: `gm` is the GM, anything else a player.
pub fn role_from_text(text: &str) -> (role: MemberRole)
    ensures
        role == (if text@ == "gm"@ { MemberRole::Gm } else { MemberRole::Player }),
{
    if crate::text::same_text(text, "gm") {
        MemberRole::Gm
    } else {
        MemberRole::Player
    }
}

/// The service's answer as the application answers it: success passes through, a
/// refusal becomes an authentication error.
pub open spec fn lift_auth(v: Result<(UserId, String), AuthError>) -> Result<(UserId, String), AppError> {
    match v {
        Ok(x) => Ok(x),
        Err(e) => Err(AppError::Auth(e)),
    }
}

/// Registration and login: password hashing, tokens, and the user store behind them.
pub struct AuthService<U, P, T> {
    users: Arc<U>,
    passwords: Arc<P>,
    tokens: Arc<T>,
}

impl<U, P: PasswordService, T: TokenService> AuthService<U, P, T> {
    pub fn new(users: Arc<U>, passwords: Arc<P>, tokens: Arc<T>) -> (s: Self)
        ensures
            s.user_store() == users,
            s.password_service() == passwords,
            s.token_service() == tokens,
    {
        AuthService { users, passwords, tokens }
    }

    pub closed spec fn user_store(&self) -> Arc<U> {
        self.users
    }

    pub closed spec fn password_service(&self) -> Arc<P> {
        self.passwords
    }

    pub closed spec fn token_service(&self) -> Arc<T> {
        self.tokens
    }

    pub fn users(&self) -> (u: &Arc<U>)
        ensures
            *u == self.user_store(),
    {
        &self.users
    }

    pub fn passwords(&self) -> (p: &Arc<P>)
        ensures
            *p == self.password_service(),
    {
        &self.passwords
    }

    pub fn tokens(&self) -> (t: &Arc<T>)
        ensures
            *t == self.token_service(),
    {
        &self.tokens
    }

    /// Login once the store has answered the lookup of the (trimmed) name.
    pub fn login_found(&self, password: &str, found: Option<UserRecord>) -> (r: Result<AuthResponse, AppError>)
        ensures
            login_answer(&*self.password_service(), &*self.token_service(), password, found, r),
    {
        match found {
            None => Err(AppError::Auth(AuthError::InvalidCredentials)),
            Some(user) => {
                let h = user.password_hash.as_str();
                let checked = self.passwords.verify(password, h);
                if let Err(e) = checked {
                    return Err(AppError::Auth(e));
                }
                let n = user.username.as_str();
                let issued = self.tokens.issue(user.id, n);
                match issued {
                    Err(e) => Err(AppError::Auth(e)),
                    Ok(tok) => Ok(auth_response(user.id, user.username, tok)),
                }
            },
        }
    }

    /// The identity a bearer token names, as the token service decides; its refusal
    /// comes back as an authentication error.
    pub fn verify_token(&self, token: &str) -> (r: Result<(UserId, String), AppError>)
        ensures
            r matches Err(e) ==> e is Auth,
            exists|v: Result<(UserId, String), AuthError>| #[trigger] call_ensures(T::verify, (&*self.token_service(), token), v)
                && r == lift_auth(v),
    {
        match self.tokens.verify(token) {
            Ok(v) => Ok(v),
            Err(e) => Err(AppError::Auth(e)),
        }
    }
}

/// What login answers once the store has looked the name up: an unknown user is
/// refused with invalid credentials; a known one must pass the password service's
/// check against its stored hash, and then gets the token the token service issues
/// for its id and stored name.
pub open spec fn login_answer<P: PasswordService, T: TokenService>(
    passwords: &P,
    tokens: &T,
    password: &str,
    found: Option<UserRecord>,
    r: Result<AuthResponse, AppError>,
) -> bool {
    match found {
        None => r == Err::<AuthResponse, AppError>(AppError::Auth(AuthError::InvalidCredentials)),
        Some(u) => exists|h: &str, c: Result<(), AuthError>|
            h@ == u.password_hash@ && #[trigger] call_ensures(P::verify, (passwords, password, h), c) && match c {
                Err(e) => r == Err::<AuthResponse, AppError>(AppError::Auth(e)),
                Ok(_) => exists|n: &str, t: Result<String, AuthError>|
                    n@ == u.username@ && #[trigger] call_ensures(T::issue, (tokens, u.id, n), t) && match t {
                        Err(e) => r == Err::<AuthResponse, AppError>(AppError::Auth(e)),
                        Ok(tok) => r matches Ok(resp) && resp.user_id == u.id.0 && resp.username == u.username
                            && resp.access_token == tok && resp.token_type@ == "Bearer"@,
                    },
            },
    }
}

/// The checks both registration and login run first: a valid username, then a long
/// enough password; the username is used trimmed.
pub open spec fn credential_rejection(username: Seq<char>, password: Seq<char>) -> Option<AppError> {
    if !valid_username(username) {
        Some(AppError::Auth(AuthError::InvalidUsername))
    } else if !valid_password(password) {
        Some(AppError::Auth(AuthError::WeakPassword))
    } else {
        None
    }
}

/// Checks the credentials of a request and returns the trimmed username.
pub fn checked_username(req: &AuthRequest) -> (r: Result<String, AppError>)
    ensures
        credential_rejection(req.username@, req.password@) matches Some(e) ==> r == Err::<String, AppError>(e),
        credential_rejection(req.username@, req.password@) is None ==> (r matches Ok(u) && u@ == trim(req.username@)),
{
    match validate_username(req.username.as_str()) {
        Ok(()) => {},
        Err(e) => {
            return Err(AppError::Auth(e));
        },
    }
    match validate_password(req.password.as_str()) {
        Ok(()) => {},
        Err(e) => {
            return Err(AppError::Auth(e));
        },
    }
    Ok(trimmed(req.username.as_str()))
}

/// A taken username surfaces as an invalid username; other storage errors pass through.
pub open spec fn creation_error(e: PortError) -> AppError {
    match e {
        PortError::Conflict(_) => AppError::Auth(AuthError::InvalidUsername),
        other => AppError::Port(other),
    }
}

pub fn map_create_user_error(e: PortError) -> (r: AppError)
    ensures
        r == creation_error(e),
{
    match e {
        PortError::Conflict(_) => AppError::Auth(AuthError::InvalidUsername),
        other => AppError::Port(other),
    }
}

/// The response to a successful registration or login: a bearer token.
pub fn auth_response(user_id: UserId, username: String, access_token: String) -> (r: AuthResponse)
    ensures
        r.user_id == user_id.0,
        r.username == username,
        r.access_token == access_token,
        r.token_type@ == "Bearer"@,
{
    AuthResponse { user_id: user_id.0, username, access_token, token_type: String::from_str("Bearer") }
}

/// Rooms: creation, joining and actions, over a room store.
pub struct RoomService<R> {
    rooms: Arc<R>,
}

/// The characters `str::to_uppercase` produces; on ASCII text it upper-cases the
/// letters one for one.
pub uninterp spec fn unicode_upper(s: Seq<char>) -> Seq<char>;

/// ASCII upper case of one character.
pub open spec fn ascii_upper(c: char) -> char {
    if 'a' <= c <= 'z' { ((c as u32) - 32) as char } else { c }
}

/// `str::to_uppercase`: named by the text; on all-ASCII text each lower-case letter
/// becomes its capital and every other character stays.
#[verifier::external_body]
pub(crate) fn to_upper(s: &str) -> (r: String)
    ensures
        r@ == unicode_upper(s@),
        (forall|i: int| 0 <= i < s@.len() ==> (s@[i] as u32) < 128) ==> (r@.len() == s@.len()
            && forall|i: int| 0 <= i < s@.len() ==> r@[i] == ascii_upper(s@[i])),
{
    s.to_uppercase()
}

/// A room code as rooms are keyed: upper-cased.
pub fn normalized_code(code: &str) -> (r: String)
    ensures
        r@ == unicode_upper(code@),
{
    to_upper(code)
}

/// The letters and digits room codes are made of (no I, O, 0 or 1).
pub open spec fn code_alphabet() -> Seq<char> {
    "ABCDEFGHJKLMNPQRSTUVWXYZ23456789"@
}

/// `Rng::gen_range(0..n)` on `rand::thread_rng()`: random, only the range is promised.
#[verifier::external_body]
fn random_below(n: usize) -> (r: usize)
    requires
        n > 0,
    ensures
        r < n,
{
    rand::thread_rng().gen_range(0..n)
}

/// `Rng::gen` of a `u64` on `rand::thread_rng()`: random, nothing is promised.
#[verifier::external_body]
fn random_seed() -> u64 {
    rand::thread_rng().gen()
}

/// A fresh six-character room code drawn from the code alphabet.
pub fn generate_code() -> (code: String)
    ensures
        exists|draws: Seq<usize>| #[trigger] draws.len() == 6 && code@ == code_of(draws),
        code@.len() == 6,
        forall|i: int| 0 <= i < 6 ==> code_alphabet().contains(#[trigger] code@[i]),
{
    let mut draws: Vec<usize> = Vec::new();
    while draws.len() < 6
        invariant
            draws@.len() <= 6,
            forall|i: int| 0 <= i < draws@.len() ==> #[trigger] draws@[i] < 32,
        decreases 6 - draws@.len(),
    {
        draws.push(random_below(32));
    }
    let code = code_from_draws(&draws);
    proof {
        reveal_strlit("ABCDEFGHJKLMNPQRSTUVWXYZ23456789");
        assert forall|i: int| 0 <= i < 6 implies code_alphabet().contains(#[trigger] code@[i]) by {
            let j = draws@[i] as int;
            assert(0 <= j < code_alphabet().len());
            assert(code@[i] == code_alphabet()[j]);
        }
    }
    code
}

/// The room code that six draws from the alphabet's 32 letters spell.
pub open spec fn code_of(draws: Seq<usize>) -> Seq<char> {
    Seq::new(draws.len(), |i: int| code_alphabet()[draws[i] as int])
}

/// Spells a room code from draws: each draw picks a letter of the alphabet.
pub fn code_from_draws(draws: &Vec<usize>) -> (code: String)
    requires
        forall|i: int| 0 <= i < draws@.len() ==> #[trigger] draws@[i] < 32,
    ensures
        code@ == code_of(draws@),
{
    let alphabet = "ABCDEFGHJKLMNPQRSTUVWXYZ23456789";
    proof {
        reveal_strlit("ABCDEFGHJKLMNPQRSTUVWXYZ23456789");
    }
    let mut code = String::new();
    let mut k: usize = 0;
    while k < draws.len()
        invariant
            k <= draws@.len(),
            alphabet@ == code_alphabet(),
            alphabet@.len() == 32,
            forall|i: int| 0 <= i < draws@.len() ==> #[trigger] draws@[i] < 32,
            code@ =~= code_of(draws@.take(k as int)),
        decreases draws@.len() - k,
    {
        let j = draws[k];
        let piece = alphabet.substring_char(j, j + 1);
        code.append(piece);
        assert(code@ =~= code_of(draws@.take(k as int + 1)));
        k = k + 1;
    }
    assert(draws@.take(draws@.len() as int) =~= draws@);
    code
}

/// A new room for the GM: `init` with the GM seated, and the response naming it.
pub fn open_room(room_id: RoomId, code: String, gm_id: UserId, gm_name: &str, seed: u64) -> (r: (CreateRoomResponse, RoomState))
    ensures
        r.1.room_id == room_id,
        r.1.code@ == code@,
        r.1.gm_user_id == gm_id,
        r.1.phase == RoomPhase::Lobby,
        r.1.tokens@.len() == 1,
        r.1.tokens@[0].user_id == gm_id,
        r.1.tokens@[0].display_name@ == gm_name@,
        r.1.rng_seed == seed,
        texts(r.1.history@) == seq![text_room_created()],
        r.0.room_id == room_id.0,
        r.0.code@ == code@,
        r.0.min_players == 4,
        r.0.max_players == 5,
{
    let code_copy = code.clone();
    let state = init(room_id, code, PlayerToken::new(gm_id, gm_name), seed);
    let response = CreateRoomResponse {
        room_id: room_id.0,
        code: code_copy,
        min_players: state.min_players,
        max_players: state.max_players,
    };
    (response, state)
}

/// The role a joining user holds: the room's GM is GM, everyone else a player.
pub open spec fn joining_role(s: RoomState, user: UserId) -> MemberRole {
    if s.gm_user_id == user { MemberRole::Gm } else { MemberRole::Player }
}

/// Why a join is refused: the room must be live in memory, then the lobby rules apply.
pub open spec fn live_join_rejection(live: Option<RoomState>, user: UserId) -> Option<AppError> {
    match live {
        None => Some(AppError::Message("room not in memory — create a new lobby after server restart")),
        Some(s) => match join_rejection(s, user) {
            Some(e) => Some(AppError::Domain(e)),
            None => None,
        },
    }
}

/// Seats the user in the live room (or lets a seated user back in) and returns the
/// room and the role the membership is stored with.
pub fn join_live(live: Option<RoomState>, user_id: UserId, username: &str) -> (r: Result<(RoomState, MemberRole), AppError>)
    ensures
        live_join_rejection(live, user_id) matches Some(e) ==> r == Err::<(RoomState, MemberRole), AppError>(e),
        live_join_rejection(live, user_id) is None ==> (r matches Ok((n, role)) && {
            let s = live->0;
            &&& role == joining_role(s, user_id)
            &&& (token_index(s.tokens@, user_id) >= 0 ==> n == s)
            &&& (token_index(s.tokens@, user_id) < 0 ==> {
                &&& n == (RoomState { tokens: n.tokens, history: n.history, ..s })
                &&& n.tokens@.len() == s.tokens@.len() + 1
                &&& n.tokens@.drop_last() == s.tokens@
                &&& n.tokens@.last().user_id == user_id
                &&& n.tokens@.last().display_name@ == username@
                &&& texts(n.history@) == texts(s.history@).push(text_player_joined(username@))
            })
        }),
{
    let state = match live {
        Some(s) => s,
        None => {
            return Err(AppError::Message("room not in memory — create a new lobby after server restart"));
        },
    };
    let token = PlayerToken::new(user_id, username);
    let ghost t = token;
    match crate::engine::try_add_player(state, token) {
        Ok(next) => {
            proof {
                if token_index(state.tokens@, user_id) < 0 {
                    assert(next.tokens@.drop_last() =~= state.tokens@);
                }
            }
            let role = if next.gm_user_id == user_id { MemberRole::Gm } else { MemberRole::Player };
            Ok((next, role))
        },
        Err(e) => Err(AppError::Domain(e)),
    }
}

impl<R> RoomService<R> {
    pub fn new(rooms: Arc<R>) -> (s: Self)
        ensures
            s.store() == rooms,
    {
        RoomService { rooms }
    }

    pub closed spec fn store(&self) -> Arc<R> {
        self.rooms
    }

    pub fn rooms(&self) -> (r: &Arc<R>)
        ensures
            *r == self.store(),
    {
        &self.rooms
    }

    /// A fresh room for the GM with a random code and dice seed.
    pub fn create_state(&self, room_id: RoomId, gm_id: UserId, gm_name: &str) -> (r: (CreateRoomResponse, RoomState))
        ensures
            r.1.room_id == room_id,
            r.1.gm_user_id == gm_id,
            r.1.phase == RoomPhase::Lobby,
            r.1.code@.len() == 6,
            r.0.code@ == r.1.code@,
            r.0.min_players == 4,
            r.0.max_players == 5,
    {
        let code = generate_code();
        let seed = random_seed();
        open_room(room_id, code, gm_id, gm_name, seed)
    }

    /// Applies an action through the rules engine; a refusal comes back as a domain error.
    pub fn apply(&self, state: RoomState, user_id: UserId, role: MemberRole, action: Action) -> (r: Result<StepOutcome, AppError>)
        requires
            step_ready(state, user_id, action),
        ensures
            exists|inner: Result<StepOutcome, DomainError>| step_spec(state, user_id, role, action, inner) && r == match inner {
                Ok(o) => Ok::<StepOutcome, AppError>(o),
                Err(e) => Err::<StepOutcome, AppError>(AppError::Domain(e)),
            },
    {
        let ghost s = state;
        let ghost a = action;
        let inner = step(state, user_id, role, action);
        match inner {
            Ok(o) => Ok(o),
            Err(e) => Err(AppError::Domain(e)),
        }
    }
}

} // verus!
