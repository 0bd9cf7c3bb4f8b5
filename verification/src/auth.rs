//! Credentials: username and password rules, bearer tokens (JWT) and password hashes
//! (Argon2).
use vstd::prelude::*;
use argon2::password_hash::{PasswordHash, PasswordHasher, PasswordVerifier, SaltString};

use crate::ids::{UserId, uuid_hyphenated, uuid_text};
use crate::text::{is_control_char, trim, trimmed};

verus! {

#[derive(Debug, Clone, PartialEq, Eq)]
pub enum AuthError {
    InvalidCredentials,
    InvalidToken,
    WeakPassword,
    InvalidUsername,
    UsernameTaken,
    Internal,
}

/// The text an authentication failure is shown with.
pub open spec fn auth_message(e: AuthError) -> Seq<char> {
    match e {
        AuthError::InvalidCredentials => "invalid credentials"@,
        AuthError::InvalidToken => "invalid token"@,
        AuthError::WeakPassword => "weak password"@,
        AuthError::InvalidUsername => "invalid username"@,
        AuthError::UsernameTaken => "username taken"@,
        AuthError::Internal => "internal auth error"@,
    }
}

impl AuthError {
    /// The failure as text.
    pub fn message(&self) -> (s: String)
        ensures
            s@ == auth_message(*self),
    {
        match self {
            AuthError::InvalidCredentials => String::from_str("invalid credentials"),
            AuthError::InvalidToken => String::from_str("invalid token"),
            AuthError::WeakPassword => String::from_str("weak password"),
            AuthError::InvalidUsername => String::from_str("invalid username"),
            AuthError::UsernameTaken => String::from_str("username taken"),
            AuthError::Internal => String::from_str("internal auth error"),
        }
    }
}

/// Unicode `Alphabetic` or `Numeric`, as `char::is_alphanumeric` decides.
pub uninterp spec fn unicode_alphanumeric(c: char) -> bool;

/// `char::is_alphanumeric`: named, it depends on the character alone; on ASCII it holds
/// exactly for letters and digits. It holds for the Russian letters `А`..`я`
/// (U+0410..U+044F), `Ё` and `ё`: they are upper- and lower-case letters, which the
/// Unicode `Alphabetic` property that `is_alphabetic` follows includes.
#[verifier::external_body]
fn char_is_alphanumeric(c: char) -> (b: bool)
    ensures
        b == unicode_alphanumeric(c),
        (c as u32) < 128 ==> (b <==> (('a' <= c && c <= 'z') || ('A' <= c && c <= 'Z') || ('0' <= c && c <= '9'))),
        (0x0410 <= (c as u32) <= 0x044F || c as u32 == 0x0401 || c as u32 == 0x0451) ==> b,
{
    c.is_alphanumeric()
}

/// An ASCII letter or digit.
pub open spec fn ascii_alnum(c: char) -> bool {
    ('a' <= c && c <= 'z') || ('A' <= c && c <= 'Z') || ('0' <= c && c <= '9')
}

/// A letter of the Russian alphabet: `А`..`я`, `Ё` or `ё`.
pub open spec fn russian_letter(c: char) -> bool {
    0x0410 <= (c as u32) <= 0x044F || c as u32 == 0x0401 || c as u32 == 0x0451
}

/// A character a username may hold: an ASCII letter or digit, a Russian letter, any
/// other non-ASCII character that Unicode counts as alphabetic or numeric, `_` or `-`.
pub open spec fn username_char(c: char) -> bool {
    ||| ascii_alnum(c)
    ||| russian_letter(c)
    ||| ((c as u32) >= 128 && unicode_alphanumeric(c))
    ||| c == '_'
    ||| c == '-'
}

/// A username, once trimmed, has 3..=32 characters, all of them username characters
/// and none a control character.
pub open spec fn valid_username(u: Seq<char>) -> bool {
    let t = trim(u);
    &&& 3 <= t.len() <= 32
    &&& forall|i: int| 0 <= i < t.len() ==> username_char(#[trigger] t[i])
    &&& forall|i: int| 0 <= i < t.len() ==> !is_control_char(#[trigger] t[i])
}

pub fn validate_username(username: &str) -> (r: Result<(), AuthError>)
    ensures
        valid_username(username@) ==> r is Ok,
        !valid_username(username@) ==> r == Err::<(), AuthError>(AuthError::InvalidUsername),
{
    let u = trimmed(username);
    let chars = crate::text::chars_of(u.as_str());
    let len = chars.len();
    if len < 3 || len > 32 {
        return Err(AuthError::InvalidUsername);
    }
    let mut i: usize = 0;
    while i < len
        invariant
            i <= len,
            len == chars@.len(),
            chars@ == trim(username@),
            forall|j: int| 0 <= j < i ==> username_char(#[trigger] chars@[j]),
        decreases len - i,
    {
        let c = chars[i];
        if !(char_is_alphanumeric(c) || c == '_' || c == '-') {
            return Err(AuthError::InvalidUsername);
        }
        i = i + 1;
    }
    let mut i: usize = 0;
    while i < len
        invariant
            i <= len,
            len == chars@.len(),
            chars@ == trim(username@),
            forall|j: int| 0 <= j < len ==> username_char(#[trigger] chars@[j]),
            forall|j: int| 0 <= j < i ==> !is_control_char(#[trigger] chars@[j]),
        decreases len - i,
    {
        if crate::text::char_is_control(chars[i]) {
            return Err(AuthError::InvalidUsername);
        }
        i = i + 1;
    }
    Ok(())
}

/// A password has at least eight bytes of UTF-8 (its byte length as `str::len` counts).
pub open spec fn valid_password(p: Seq<char>) -> bool {
    (vstd::utf8::encode_utf8(p).len() as usize) >= 8
}

pub fn validate_password(password: &str) -> (r: Result<(), AuthError>)
    ensures
        valid_password(password@) ==> r is Ok,
        !valid_password(password@) ==> r == Err::<(), AuthError>(AuthError::WeakPassword),
{
    if password.len() < 8 {
        Err(AuthError::WeakPassword)
    } else {
        Ok(())
    }
}

/// The claims a bearer token carries.
#[derive(Debug, Clone, PartialEq, Eq)]
pub struct Claims {
    pub sub: String,
    pub username: String,
    pub exp: i64,
    pub iat: i64,
}

/// Issues and checks bearer tokens.
pub trait TokenService {
    fn issue(&self, user_id: UserId, username: &str) -> Result<String, AuthError>;

    fn verify(&self, token: &str) -> Result<(UserId, String), AuthError>;
}

/// Hashes and checks passwords.
pub trait PasswordService {
    fn hash(&self, password: &str) -> Result<String, AuthError>;

    fn verify(&self, password: &str, hash: &str) -> Result<(), AuthError>;
}

/// HS256 JSON Web Tokens signed with a shared secret.
#[derive(Debug, Clone)]
pub struct JwtTokenService {
    secret: String,
    ttl_hours: i64,
}

/// The compact HS256 JWT that `jsonwebtoken::encode` builds with the default header for
/// these claims and this secret.
pub uninterp spec fn jwt_compact(sub: Seq<char>, username: Seq<char>, exp: i64, iat: i64, secret: Seq<char>) -> Seq<char>;

/// The claims `jsonwebtoken::decode` reads with this secret from a token whose form
/// and HS256 signature check out: `sub` and `username` where they are JSON strings,
/// `exp` and `iat` where they are integers. None when the token is malformed or its
/// signature does not verify with the secret. This part of decoding does not read the
/// clock; the expiry check that follows it does.
pub uninterp spec fn jwt_claims(token: Seq<char>, secret: Seq<char>) -> Option<(Option<Seq<char>>, Option<Seq<char>>, Option<i64>, Option<i64>)>;

/// The characters of an optional text.
pub open spec fn text_opt(t: Option<String>) -> Option<Seq<char>> {
    match t {
        Some(x) => Some(x@),
        None => None,
    }
}

/// The 128 bits `uuid::Uuid::parse_str` reads from the text, if it reads any.
pub uninterp spec fn uuid_parsed(text: Seq<char>) -> Option<u128>;

/// `chrono::Utc::now().timestamp()`: the current time in Unix seconds. `Utc::now`
/// panics on a clock before 1970 and builds a `DateTime` from the seconds since then,
/// which holds no year past chrono's `MAX_YEAR` (262142), so the result lies in
/// `0 .. 2^43`; which second it is, is not promised.
#[verifier::external_body]
fn now_unix() -> (r: i64)
    ensures
        0 <= r < 0x800_0000_0000,
{
    chrono::Utc::now().timestamp()
}

/// `jsonwebtoken::encode` with the default (HS256) header, the claims `sub`,
/// `username`, `exp`, `iat` as a JSON object, and the secret's bytes as key. It
/// succeeds: the key's family is HMAC as the HS256 header asks, a map of strings and
/// integers serialises, and HS256 signing does not fail. The token is named by these
/// values, and decoding it with the same secret reads these claims back.
#[verifier::external_body]
fn jwt_sign(sub: &str, username: &str, exp: i64, iat: i64, secret: &str) -> (r: Result<String, ()>)
    ensures
        r is Ok,
        r matches Ok(t) ==> t@ == jwt_compact(sub@, username@, exp, iat, secret@),
        r matches Ok(t) ==> jwt_claims(t@, secret@) == Some((Some(sub@), Some(username@), Some(exp), Some(iat))),
{
    let mut claims = serde_json::Map::new();
    claims.insert(String::from("sub"), serde_json::Value::from(sub));
    claims.insert(String::from("username"), serde_json::Value::from(username));
    claims.insert(String::from("exp"), serde_json::Value::from(exp));
    claims.insert(String::from("iat"), serde_json::Value::from(iat));
    let key = jsonwebtoken::EncodingKey::from_secret(secret.as_bytes());
    jsonwebtoken::encode(&jsonwebtoken::Header::default(), &claims, &key).map_err(|_| ())
}

/// `jsonwebtoken::decode` with the secret and the default validation (signature, then
/// expiry against the current time), handing back the `sub`, `username`, `exp` and
/// `iat` claims where they have the expected JSON types. Claims it hands back are the
/// ones the token carries under this secret; a token whose form or signature fails is
/// refused. Whether a well-signed token is accepted depends on the clock, which is
/// left unsaid.
#[verifier::external_body]
fn jwt_read(token: &str, secret: &str) -> (r: Result<(Option<String>, Option<String>, Option<i64>, Option<i64>), ()>)
    ensures
        r matches Ok((s, u, e, i)) ==> jwt_claims(token@, secret@) == Some((text_opt(s), text_opt(u), e, i)),
        jwt_claims(token@, secret@) is None ==> r is Err,
{
    let key = jsonwebtoken::DecodingKey::from_secret(secret.as_bytes());
    let data = jsonwebtoken::decode::<serde_json::Value>(token, &key, &jsonwebtoken::Validation::default()).map_err(|_| ())?;
    let c = data.claims;
    Ok((
        c.get("sub").and_then(|v| v.as_str()).map(String::from),
        c.get("username").and_then(|v| v.as_str()).map(String::from),
        c.get("exp").and_then(|v| v.as_i64()),
        c.get("iat").and_then(|v| v.as_i64()),
    ))
}

/// `uuid::Uuid::parse_str`, as 128 bits: named by the text; the hyphenated text of a
/// UUID parses back to it.
#[verifier::external_body]
fn parse_uuid(text: &str) -> (r: Option<u128>)
    ensures
        r == uuid_parsed(text@),
        forall|bits: u128| text@ == uuid_hyphenated(bits) ==> r == Some(bits),
{
    uuid::Uuid::parse_str(text).ok().map(|u| u.as_u128())
}

/// When a token issued now with this lifetime expires, in Unix seconds, if that fits.
pub open spec fn expiry(now: i64, ttl_hours: i64) -> Option<i64> {
    let e = now + ttl_hours * 3600;
    if i64::MIN <= ttl_hours * 3600 <= i64::MAX && i64::MIN <= e <= i64::MAX { Some(e as i64) } else { None }
}

fn expiry_of(now: i64, ttl_hours: i64) -> (r: Option<i64>)
    ensures
        r == expiry(now, ttl_hours),
{
    match ttl_hours.checked_mul(3600) {
        Some(secs) => now.checked_add(secs),
        None => None,
    }
}

/// The identity a token's claims name: the subject must be a UUID and every claim
/// must be present with its type.
pub open spec fn claims_identity(sub: Option<Seq<char>>, username: Option<Seq<char>>, exp: Option<i64>, iat: Option<i64>) -> Option<(u128, Seq<char>)> {
    match (sub, username, exp, iat) {
        (Some(s), Some(u), Some(_e), Some(_i)) => match uuid_parsed(s) {
            Some(bits) => Some((bits, u)),
            None => None,
        },
        _ => None,
    }
}

/// Reads the identity out of decoded claims.
pub fn identity_from_claims(sub: Option<String>, username: Option<String>, exp: Option<i64>, iat: Option<i64>) -> (r: Result<(UserId, String), AuthError>)
    ensures
        ({
            let view = claims_identity(
                match sub { Some(s) => Some(s@), None => None },
                match username { Some(u) => Some(u@), None => None },
                exp,
                iat,
            );
            &&& view is None ==> r == Err::<(UserId, String), AuthError>(AuthError::InvalidToken)
            &&& view matches Some((bits, name)) ==> (r matches Ok((id, n)) && id == UserId(bits) && n@ == name)
        }),
        r matches Ok((id, _n)) ==> forall|b: u128| text_opt(sub) == Some(uuid_hyphenated(b)) ==> b == id.0,
{
    match (sub, username, exp, iat) {
        (Some(s), Some(u), Some(_e), Some(_i)) => match parse_uuid(s.as_str()) {
            Some(bits) => Ok((UserId(bits), u)),
            None => Err(AuthError::InvalidToken),
        },
        _ => Err(AuthError::InvalidToken),
    }
}

/// The token carries, under the secret, the claims of a token issued for this user:
/// the user's UUID text as subject, the name, and some expiry and issue time.
pub open spec fn issued_as(token: Seq<char>, secret: Seq<char>, bits: u128, name: Seq<char>) -> bool {
    exists|exp: i64, iat: i64|
        #[trigger] jwt_claims(token, secret) == Some((Some(uuid_hyphenated(bits)), Some(name), Some(exp), Some(iat)))
}

/// The identity read from the claims the token carries under the secret: the subject
/// parses to the id (and is the text of no other UUID), with the name and every other
/// claim present.
pub open spec fn read_as(token: Seq<char>, secret: Seq<char>, bits: u128, name: Seq<char>) -> bool {
    &&& jwt_claims(token, secret) matches Some(c)
    &&& claims_identity(c.0, c.1, c.2, c.3) == Some((bits, name))
    &&& forall|b: u128| c.0 == Some(uuid_hyphenated(b)) ==> b == bits
}

/// A token issued for a user reads back as that user: whatever identity the service
/// reads from a token it issued is the identity it issued it for.
pub proof fn lemma_token_round_trip(token: Seq<char>, secret: Seq<char>, bits: u128, name: Seq<char>, id: u128, got: Seq<char>)
    requires
        issued_as(token, secret, bits, name),
        read_as(token, secret, id, got),
    ensures
        id == bits,
        got == name,
{
}

/// A token issue at time `now`: an expiry that does not fit is an internal error;
/// otherwise the token is the compact JWT of the user's UUID text, the name, the
/// expiry and `now`, signed with the secret, and it carries exactly those claims.
pub open spec fn issued_at(svc: JwtTokenService, user_id: UserId, name: Seq<char>, now: i64, r: Result<String, AuthError>) -> bool {
    match expiry(now, svc.lifetime_hours()) {
        None => r == Err::<String, AuthError>(AuthError::Internal),
        Some(exp) => r matches Ok(t) && t@ == jwt_compact(uuid_hyphenated(user_id.0), name, exp, now, svc.secret_text())
            && jwt_claims(t@, svc.secret_text()) == Some((Some(uuid_hyphenated(user_id.0)), Some(name), Some(exp), Some(now))),
    }
}

impl JwtTokenService {
    pub fn new(secret: &str, ttl_hours: i64) -> (s: JwtTokenService)
        ensures
            s.secret_text() == secret@,
            s.lifetime_hours() == ttl_hours,
    {
        JwtTokenService { secret: String::from_str(secret), ttl_hours }
    }

    pub closed spec fn secret_text(&self) -> Seq<char> {
        self.secret@
    }

    pub closed spec fn lifetime_hours(&self) -> i64 {
        self.ttl_hours
    }

    /// Issues a token for the user at the time `now` (Unix seconds): subject is the
    /// user's UUID, expiry `ttl_hours` after `now`. An expiry past the range of `i64`
    /// is an internal error.
    pub fn issue_token_at(&self, user_id: UserId, username: &str, now: i64) -> (r: Result<String, AuthError>)
        ensures
            issued_at(*self, user_id, username@, now, r),
            r matches Ok(t) ==> issued_as(t@, self.secret_text(), user_id.0, username@),
    {
        let exp = match expiry_of(now, self.ttl_hours) {
            Some(e) => e,
            None => {
                return Err(AuthError::Internal);
            },
        };
        let sub = uuid_text(user_id.0);
        let r = match jwt_sign(sub.as_str(), username, exp, now, self.secret.as_str()) {
            Ok(t) => Ok(t),
            Err(_) => Err(AuthError::Internal),
        };
        assert(issued_at(*self, user_id, username@, now, r));
        r
    }

    /// Issues a token for the user now: subject is the user's UUID, expiry `ttl_hours`
    /// after now. A lifetime too large for the clock is an internal error; one of at
    /// most 2^40 hours either way always fits.
    pub fn issue_token(&self, user_id: UserId, username: &str) -> (r: Result<String, AuthError>)
        ensures
            exists|now: i64|
                #![trigger expiry(now, self.lifetime_hours())]
                0 <= now < 0x800_0000_0000 && issued_at(*self, user_id, username@, now, r),
            r matches Ok(t) ==> issued_as(t@, self.secret_text(), user_id.0, username@),
            r matches Err(e) ==> e == AuthError::Internal,
            -0x100_0000_0000 <= self.lifetime_hours() <= 0x100_0000_0000 ==> r is Ok,
    {
        let now = now_unix();
        self.issue_token_at(user_id, username, now)
    }

    /// Checks a token and returns the identity it names; any failure is `InvalidToken`.
    pub fn verify_token(&self, token: &str) -> (r: Result<(UserId, String), AuthError>)
        ensures
            r matches Err(e) ==> e == AuthError::InvalidToken,
            r matches Ok((id, name)) ==> read_as(token@, self.secret_text(), id.0, name@),
            jwt_claims(token@, self.secret_text()) is None ==> r is Err,
    {
        match jwt_read(token, self.secret.as_str()) {
            Ok((sub, username, exp, iat)) => {
                let r = identity_from_claims(sub, username, exp, iat);
                r
            },
            Err(_) => Err(AuthError::InvalidToken),
        }
    }
}

impl TokenService for JwtTokenService {
    fn issue(&self, user_id: UserId, username: &str) -> (r: Result<String, AuthError>)
        ensures
            exists|now: i64|
                #![trigger expiry(now, self.lifetime_hours())]
                0 <= now < 0x800_0000_0000 && issued_at(*self, user_id, username@, now, r),
            r matches Ok(t) ==> issued_as(t@, self.secret_text(), user_id.0, username@),
            r matches Err(e) ==> e == AuthError::Internal,
            -0x100_0000_0000 <= self.lifetime_hours() <= 0x100_0000_0000 ==> r is Ok,
    {
        self.issue_token(user_id, username)
    }

    fn verify(&self, token: &str) -> (r: Result<(UserId, String), AuthError>)
        ensures
            r matches Err(e) ==> e == AuthError::InvalidToken,
            r matches Ok((id, name)) ==> read_as(token@, self.secret_text(), id.0, name@),
            jwt_claims(token@, self.secret_text()) is None ==> r is Err,
    {
        self.verify_token(token)
    }
}

/// Argon2 (default parameters) password hashing.
#[derive(Debug, Default)]
pub struct Argon2PasswordService;

/// Whether `password_hash::PasswordHash::new` parses the PHC string.
pub uninterp spec fn phc_parses(hash: Seq<char>) -> bool;

/// Whether `Argon2::default().verify_password` accepts the password against the parsed hash.
pub uninterp spec fn argon2_accepts(password: Seq<char>, hash: Seq<char>) -> bool;

/// The stored hash parses and the password verifies against it.
pub open spec fn password_matches(password: Seq<char>, hash: Seq<char>) -> bool {
    phc_parses(hash) && argon2_accepts(password, hash)
}

/// Why a password check failed.
pub enum HashCheck {
    Malformed,
    Mismatch,
}

/// `Argon2::default().hash_password` with a fresh random salt from the OS (`OsRng`),
/// as PHC text. The salt is random, so the text itself is not named; what is claimed
/// is that the text parses back and that `verify_password` (which recomputes the hash
/// from the password with the salt, algorithm, version and parameters the text holds)
/// accepts the same password against it. With a generated salt and the default
/// parameters the only refusal is a password longer than `MAX_PWD_LEN` (2^32 - 1)
/// bytes, which no text of at most 2^30 - 1 characters (four bytes each at most) is.
#[verifier::external_body]
fn argon2_hash(password: &str) -> (r: Result<String, ()>)
    ensures
        r matches Ok(h) ==> password_matches(password@, h@),
        password@.len() <= 0x3FFF_FFFF ==> r is Ok,
{
    let salt = SaltString::generate(&mut rand::rngs::OsRng);
    argon2::Argon2::default().hash_password(password.as_bytes(), &salt).map(|h| h.to_string()).map_err(|_| ())
}

/// `PasswordHash::new` on the stored hash, then `Argon2::default().verify_password`;
/// both outcomes are named by the password and the hash.
#[verifier::external_body]
fn argon2_check(password: &str, hash: &str) -> (r: Result<(), HashCheck>)
    ensures
        !phc_parses(hash@) ==> r matches Err(HashCheck::Malformed),
        phc_parses(hash@) && argon2_accepts(password@, hash@) ==> r is Ok,
        phc_parses(hash@) && !argon2_accepts(password@, hash@) ==> r matches Err(HashCheck::Mismatch),
{
    let parsed = PasswordHash::new(hash).map_err(|_| HashCheck::Malformed)?;
    argon2::Argon2::default().verify_password(password.as_bytes(), &parsed).map_err(|_| HashCheck::Mismatch)
}

impl Argon2PasswordService {
    pub fn hash_password(&self, password: &str) -> (r: Result<String, AuthError>)
        ensures
            r matches Err(e) ==> e == AuthError::Internal,
            r matches Ok(h) ==> password_matches(password@, h@),
            password@.len() <= 0x3FFF_FFFF ==> r is Ok,
    {
        match argon2_hash(password) {
            Ok(h) => Ok(h),
            Err(_) => Err(AuthError::Internal),
        }
    }

    /// A malformed stored hash is an internal error; a wrong password is
    /// `InvalidCredentials`.
    pub fn verify_password(&self, password: &str, hash: &str) -> (r: Result<(), AuthError>)
        ensures
            !phc_parses(hash@) ==> r == Err::<(), AuthError>(AuthError::Internal),
            phc_parses(hash@) && argon2_accepts(password@, hash@) ==> r is Ok,
            phc_parses(hash@) && !argon2_accepts(password@, hash@) ==> r == Err::<(), AuthError>(AuthError::InvalidCredentials),
            r is Ok <==> password_matches(password@, hash@),
    {
        match argon2_check(password, hash) {
            Ok(()) => Ok(()),
            Err(HashCheck::Malformed) => Err(AuthError::Internal),
            Err(HashCheck::Mismatch) => Err(AuthError::InvalidCredentials),
        }
    }
}

impl PasswordService for Argon2PasswordService {
    fn hash(&self, password: &str) -> (r: Result<String, AuthError>)
        ensures
            r matches Err(e) ==> e == AuthError::Internal,
            r matches Ok(h) ==> password_matches(password@, h@),
            password@.len() <= 0x3FFF_FFFF ==> r is Ok,
    {
        self.hash_password(password)
    }

    fn verify(&self, password: &str, hash: &str) -> (r: Result<(), AuthError>)
        ensures
            !phc_parses(hash@) ==> r == Err::<(), AuthError>(AuthError::Internal),
            phc_parses(hash@) && argon2_accepts(password@, hash@) ==> r is Ok,
            phc_parses(hash@) && !argon2_accepts(password@, hash@) ==> r == Err::<(), AuthError>(AuthError::InvalidCredentials),
    {
        self.verify_password(password, hash)
    }
}

} // verus!
