//! The server's rules around the engine: bearer authentication, how failures are
//! answered over HTTP, and which messages a room's socket sends.
use vstd::prelude::*;

use crate::actions::Action;
use crate::app::{lift_auth, AppError, AuthService, PortError};
use crate::auth::{issued_as, jwt_claims, read_as, AuthError, JwtTokenService, PasswordService, TokenService};
use crate::engine::{legal_fits, StepOutcome};
use crate::error::{domain_message, DomainError};
use crate::ids::{MemberRole, UserId};
use crate::protocol::{shows_room, ClientMsg, LobbyView, ServerMsg};
use crate::room::RoomState;
use crate::text::{decimal, push_decimal, same_text};

verus! {

/// An HTTP failure: the status and the text sent as `{"error": text}`.
#[derive(Debug, Clone, PartialEq, Eq)]
pub struct ErrorReply {
    pub status: u16,
    pub message: String,
}

/// The reply has this status and text.
pub open spec fn replies(r: ErrorReply, status: u16, message: Seq<char>) -> bool {
    r.status == status && r.message@ == message
}

fn error_reply(status: u16, message: &str) -> (r: ErrorReply)
    ensures
        replies(r, status, message@),
{
    ErrorReply { status, message: String::from_str(message) }
}

/// A caller whose bearer token verified.
#[derive(Debug, Clone, PartialEq, Eq)]
pub struct AuthUser {
    pub user_id: UserId,
    pub username: String,
}

/// The query of the socket route: the caller's token.
#[derive(Debug, Clone, PartialEq, Eq)]
pub struct WsQuery {
    pub token: String,
}

/// The token of an `Authorization` header value of the form `Bearer <token>`.
pub open spec fn bearer_of(header: Seq<char>) -> Option<Seq<char>> {
    if header.len() >= 7 && header.take(7) == "Bearer "@ {
        Some(header.skip(7))
    } else {
        None
    }
}

/// The bearer token of an `Authorization` header, or the refusal of a missing or
/// malformed header.
pub fn bearer_token(header: Option<&str>) -> (r: Result<String, ErrorReply>)
    ensures
        header is None ==> (r matches Err(e) && replies(e, 401, "missing Authorization"@)),
        header matches Some(h) ==> match bearer_of(h@) {
            Some(t) => r matches Ok(s) && s@ == t,
            None => r matches Err(e) && replies(e, 401, "expected Bearer token"@),
        },
{
    let h = match header {
        Some(h) => h,
        None => {
            return Err(error_reply(401, "missing Authorization"));
        },
    };
    let prefix = "Bearer ";
    proof {
        reveal_strlit("Bearer ");
    }
    let n = h.unicode_len();
    if n < 7 {
        return Err(error_reply(401, "expected Bearer token"));
    }
    let mut i: usize = 0;
    while i < 7
        invariant
            i <= 7,
            header == Some(h),
            n == h@.len(),
            n >= 7,
            prefix@ == "Bearer "@,
            prefix@.len() == 7,
            forall|j: int| 0 <= j < i ==> h@[j] == prefix@[j],
        decreases 7 - i,
    {
        if h.get_char(i) != prefix.get_char(i) {
            assert(h@.take(7)[i as int] != "Bearer "@[i as int]);
            return Err(error_reply(401, "expected Bearer token"));
        }
        i = i + 1;
    }
    assert(h@.take(7) =~= "Bearer "@);
    let token = h.substring_char(7, n);
    assert(token@ =~= h@.skip(7));
    Ok(String::from_str(token))
}

/// What the token service's answer makes of a caller: the user it names, or
/// `401 invalid token`.
pub open spec fn caller_from(v: Result<(UserId, String), AuthError>, r: Result<AuthUser, ErrorReply>) -> bool {
    match v {
        Ok((id, name)) => r matches Ok(u) && u.user_id == id && u.username == name,
        Err(_) => r matches Err(e) && replies(e, 401, "invalid token"@),
    }
}

/// Authenticates the caller of a protected route from its `Authorization` header: a
/// missing or non-bearer header is refused with its own text; the bearer token is
/// handed as it is to the token service, and the caller is the user the service
/// names, or the request gets `401 invalid token`.
pub fn authenticate<U, P: PasswordService, T: TokenService>(header: Option<&str>, auth: &AuthService<U, P, T>) -> (r: Result<AuthUser, ErrorReply>)
    ensures
        header is None ==> (r matches Err(e) && replies(e, 401, "missing Authorization"@)),
        header matches Some(h) && bearer_of(h@) is None ==> (r matches Err(e) && replies(e, 401, "expected Bearer token"@)),
        header is Some && bearer_of(header->0@) is Some ==> exists|t: &str, v: Result<(UserId, String), AuthError>|
            t@ == bearer_of(header->0@)->0 && #[trigger] call_ensures(T::verify, (&*auth.token_service(), t), v)
                && caller_from(v, r),
{
    match bearer_token(header) {
        Err(e) => {
            assert(!(header matches Some(h) && bearer_of(h@) is Some));
            Err(e)
        },
        Ok(token) => {
            let t = token.as_str();
            let answer = auth.verify_token(t);
            let ghost v = choose|v: Result<(UserId, String), AuthError>|
                call_ensures(T::verify, (&*auth.token_service(), t), v) && answer == lift_auth(v);
            let r = match answer {
                Ok((user_id, username)) => Ok(AuthUser { user_id, username }),
                Err(_) => Err(error_reply(401, "invalid token")),
            };
            assert(call_ensures(T::verify, (&*auth.token_service(), t), v) && caller_from(v, r));
            r
        },
    }
}

/// Must-auth, with the JWT service behind the route: a caller is admitted only with a
/// bearer token that reads, under the service's secret, as exactly the admitted user;
/// a token that carries no claims under that secret is refused; and a token the
/// service issued for a user admits that user and no other.
pub proof fn lemma_must_auth<U, P: PasswordService>(
    header: Option<&str>,
    auth: &AuthService<U, P, JwtTokenService>,
    r: Result<AuthUser, ErrorReply>,
)
    requires
        call_ensures(authenticate::<U, P, JwtTokenService>, (header, auth), r),
    ensures
        r matches Ok(u) ==> header is Some && bearer_of(header->0@) is Some
            && read_as(bearer_of(header->0@)->0, auth.token_service().secret_text(), u.user_id.0, u.username@),
        header is Some && bearer_of(header->0@) is Some
            && jwt_claims(bearer_of(header->0@)->0, auth.token_service().secret_text()) is None ==> r is Err,
        forall|bits: u128, name: Seq<char>|
            #[trigger] issued_as(bearer_of(header->0@)->0, auth.token_service().secret_text(), bits, name)
                && header is Some && bearer_of(header->0@) is Some
                ==> (r matches Ok(u) ==> u.user_id.0 == bits && u.username@ == name),
{
    if header is Some && bearer_of(header->0@) is Some {
        let (t, v) = choose|t: &str, v: Result<(UserId, String), AuthError>|
            t@ == bearer_of(header->0@)->0 && #[trigger] call_ensures(
                <JwtTokenService as TokenService>::verify,
                (&*auth.token_service(), t),
                v,
            ) && caller_from(v, r);
        assert(v matches Ok((id, name)) ==> read_as(t@, auth.token_service().secret_text(), id.0, name@));
    }
}

/// Why a socket upgrade is refused, in the order the checks run.
#[derive(Debug, Clone, Copy, PartialEq, Eq, Structural)]
pub enum SocketRefusal {
    /// The token service refuses the query's token.
    BadToken,
    /// The caller holds no membership of the room.
    NotMember,
    /// The room is not held in memory.
    NotLive,
}

/// The answer to a refused socket upgrade.
pub fn socket_refusal(why: SocketRefusal) -> (e: ErrorReply)
    ensures
        why is BadToken ==> replies(e, 401, "invalid token"@),
        why is NotMember ==> replies(e, 401, "not a room member — join via REST first"@),
        why is NotLive ==> replies(e, 400, "room not in memory"@),
{
    match why {
        SocketRefusal::BadToken => error_reply(401, "invalid token"),
        SocketRefusal::NotMember => error_reply(401, "not a room member — join via REST first"),
        SocketRefusal::NotLive => error_reply(400, "room not in memory"),
    }
}

/// How an application failure is answered over HTTP.
pub open spec fn app_reply(e: AppError) -> (u16, Seq<char>) {
    match e {
        AppError::Auth(AuthError::InvalidCredentials) => (401, "неверный логин или пароль"@),
        AppError::Auth(AuthError::WeakPassword) => (400, "пароль слишком короткий (минимум 8 символов)"@),
        AppError::Auth(AuthError::InvalidUsername) => (400, "логин: 3–32 символа, буквы/цифры/_/- (можно кириллицу)"@),
        AppError::Auth(AuthError::UsernameTaken) => (409, "такой логин уже занят — войдите или выберите другой"@),
        AppError::Auth(AuthError::InvalidToken) => (401, "сессия истекла — войдите снова"@),
        AppError::Auth(AuthError::Internal) => (500, "ошибка авторизации"@),
        AppError::Port(PortError::NotFound) => (404, "not found"@),
        AppError::Port(_) => (500, "internal error"@),
        AppError::Domain(DomainError::LobbyFull { max }) => (409, "lobby full (max "@ + decimal(max as nat) + " players)"@),
        AppError::Domain(DomainError::LobbyNotReady) => (409, "not all players are ready"@),
        AppError::Domain(DomainError::LobbySize { min, max, have }) => (409, "need "@ + decimal(min as nat) + "..="@
            + decimal(max as nat) + " players, have "@ + decimal(have as nat)),
        AppError::Domain(DomainError::AlreadyPlaying) => (409, "game already started"@),
        AppError::Domain(DomainError::StillInLobby) => (409, "still in lobby"@),
        AppError::Domain(other) => (400, domain_message(other)),
        AppError::Message(m) => if m@ == "room not found"@ { (404, "not found"@) } else { (400, m@) },
    }
}

fn lobby_size_text(min: u8, max: u8, have: u8) -> (s: String)
    ensures
        s@ == "need "@ + decimal(min as nat) + "..="@ + decimal(max as nat) + " players, have "@ + decimal(have as nat),
{
    let mut s = String::from_str("need ");
    push_decimal(&mut s, min as u64);
    s.append("..=");
    push_decimal(&mut s, max as u64);
    s.append(" players, have ");
    push_decimal(&mut s, have as u64);
    s
}

fn lobby_full_text(max: u8) -> (s: String)
    ensures
        s@ == "lobby full (max "@ + decimal(max as nat) + " players)"@,
{
    let mut s = String::from_str("lobby full (max ");
    push_decimal(&mut s, max as u64);
    s.append(" players)");
    s
}

/// The HTTP answer to an application failure.
pub fn error_response(e: &AppError) -> (r: ErrorReply)
    ensures
        replies(r, app_reply(*e).0, app_reply(*e).1),
{
    match e {
        AppError::Auth(AuthError::InvalidCredentials) => error_reply(401, "неверный логин или пароль"),
        AppError::Auth(AuthError::WeakPassword) => error_reply(400, "пароль слишком короткий (минимум 8 символов)"),
        AppError::Auth(AuthError::InvalidUsername) => error_reply(400, "логин: 3–32 символа, буквы/цифры/_/- (можно кириллицу)"),
        AppError::Auth(AuthError::UsernameTaken) => error_reply(409, "такой логин уже занят — войдите или выберите другой"),
        AppError::Auth(AuthError::InvalidToken) => error_reply(401, "сессия истекла — войдите снова"),
        AppError::Auth(AuthError::Internal) => error_reply(500, "ошибка авторизации"),
        AppError::Port(PortError::NotFound) => error_reply(404, "not found"),
        AppError::Port(_) => error_reply(500, "internal error"),
        AppError::Domain(DomainError::LobbyFull { max }) => ErrorReply { status: 409, message: lobby_full_text(*max) },
        AppError::Domain(DomainError::LobbyNotReady) => error_reply(409, "not all players are ready"),
        AppError::Domain(DomainError::LobbySize { min, max, have }) => ErrorReply {
            status: 409,
            message: lobby_size_text(*min, *max, *have),
        },
        AppError::Domain(DomainError::AlreadyPlaying) => error_reply(409, "game already started"),
        AppError::Domain(DomainError::StillInLobby) => error_reply(409, "still in lobby"),
        AppError::Domain(other) => ErrorReply { status: 400, message: other.message() },
        AppError::Message(m) => {
            if same_text(m, "room not found") {
                error_reply(404, "not found")
            } else {
                error_reply(400, m)
            }
        },
    }
}

/// Only the GM may start the game: the HTTP routes answer anyone else with `403`
/// before the rules are asked.
pub fn start_gate(action: &Action, role: MemberRole) -> (r: Option<ErrorReply>)
    ensures
        r is Some <==> (*action is StartGame && role != MemberRole::Gm),
        r matches Some(e) ==> replies(e, 403, "only GM can start the game"@),
{
    match action {
        Action::StartGame => {
            if role != MemberRole::Gm {
                Some(error_reply(403, "only GM can start the game"))
            } else {
                None
            }
        },
        _ => None,
    }
}

/// The action a posted message asks for; joining is not one.
pub fn posted_action(msg: ClientMsg) -> (r: Result<Action, ErrorReply>)
    ensures
        msg is JoinRoom ==> (r matches Err(e) && replies(e, 400, "join is not an action"@)),
        !(msg is JoinRoom) ==> r is Ok,
{
    let is_join = match &msg {
        ClientMsg::JoinRoom { .. } => true,
        _ => false,
    };
    match msg.into_action() {
        Some(a) => Ok(a),
        None => {
            assert(is_join);
            Err(error_reply(400, "join is not an action"))
        },
    }
}

/// What a socket sends when it opens: the welcome, the room as the member sees it
/// (with the member's legal actions), and the room itself.
pub fn greeting(room: RoomState, user_id: UserId, role: MemberRole) -> (v: Vec<ServerMsg>)
    requires
        legal_fits(room, user_id),
    ensures
        v@.len() == 3,
        v@[0] == (ServerMsg::Welcome { user_id, role }),
        v@[1] matches ServerMsg::Lobby(l) && shows_room(l, room, Some(user_id), role),
        v@[2] == ServerMsg::RoomState(room),
{
    let lobby = LobbyView::from_state_for(&room, Some(user_id), role);
    let mut v: Vec<ServerMsg> = Vec::new();
    v.push(ServerMsg::Welcome { user_id, role });
    v.push(ServerMsg::Lobby(lobby));
    v.push(ServerMsg::RoomState(room));
    v
}

/// What a member's socket forwards of a room broadcast. A bare lobby (which carries
/// nobody's legal actions) is dropped; a room is forwarded after the lobby as this
/// member sees it; anything else is forwarded as it is.
pub fn relay(msg: ServerMsg, user_id: UserId, role: MemberRole) -> (v: Vec<ServerMsg>)
    requires
        msg matches ServerMsg::RoomState(room) ==> legal_fits(room, user_id),
    ensures
        msg is Lobby ==> v@.len() == 0,
        msg matches ServerMsg::RoomState(room) ==> {
            &&& v@.len() == 2
            &&& v@[0] matches ServerMsg::Lobby(l) && shows_room(l, room, Some(user_id), role)
            &&& v@[1] == msg
        },
        !(msg is Lobby) && !(msg is RoomState) ==> v@ == seq![msg],
{
    let mut v: Vec<ServerMsg> = Vec::new();
    match msg {
        ServerMsg::Lobby(_) => {},
        ServerMsg::RoomState(room) => {
            let lobby = LobbyView::from_state_for(&room, Some(user_id), role);
            v.push(ServerMsg::Lobby(lobby));
            v.push(ServerMsg::RoomState(room));
        },
        other => {
            v.push(other);
        },
    }
    v
}

/// The reply to a socket message that is not a client message.
pub fn bad_json_reply() -> (m: ServerMsg)
    ensures
        m matches ServerMsg::Error { code, message } && code@ == "bad_json"@ && message@ == "cannot parse ClientMsg"@,
{
    ServerMsg::Error { code: String::from_str("bad_json"), message: String::from_str("cannot parse ClientMsg") }
}

/// What follows an action sent over a socket.
pub enum SocketStep {
    /// The room moved on: it is stored and broadcast to every member.
    Broadcast(RoomState),
    /// The action was refused: only the sender hears why.
    Reply(ServerMsg),
}

/// An accepted action's room is broadcast; a refusal is answered to the sender as a
/// `reject` error with the refusal's text.
pub fn after_action(r: Result<StepOutcome, AppError>) -> (s: SocketStep)
    ensures
        r matches Ok(o) ==> s == SocketStep::Broadcast(o.state),
        r matches Err(e) ==> (s matches SocketStep::Reply(ServerMsg::Error { code, message })
            && code@ == "reject"@ && message@ == crate::app::app_message(e)),
{
    match r {
        Ok(o) => SocketStep::Broadcast(o.state),
        Err(e) => SocketStep::Reply(ServerMsg::Error { code: String::from_str("reject"), message: e.message() }),
    }
}

} // verus!
