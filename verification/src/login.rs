//! The decisions of a login: whom to refuse, with which message, and what
//! to record of it. A login begins with `begin_login`, which refuses or
//! asks for the user to be looked up; the caller looks the user up and
//! hands what it found to `finish_login`, which refuses or gives the
//! claims to sign; `token_issued` makes the response from the token.

use crate::audit::{log_login_failed, log_login_success, AuditLogBuilder};
use crate::jwt::{Claims, LoginResponse, DEFAULT_LIFETIME_SECS};
use crate::passwords::{bcrypt_verifies, verify_password};
use crate::rate_limiter::{
    after_failure, entry_block_remaining, entry_is_blocked, entry_is_kept, entry_of, RateLimiter,
    CLEANUP_THRESHOLD,
};
use crate::text::{decimal_text, push_decimal, push_decimal_u64};
use crate::validation::{is_valid_username, username_is_valid};
use vstd::prelude::*;

verus! {

/// The client of a request: its address as a number and as text.
#[derive(Clone, Debug)]
pub struct Client {
    pub address: u128,
    pub text: String,
}

/// A login that is refused: the response, and what to record of it.
#[derive(Clone, Debug)]
pub struct Refused {
    pub response: LoginResponse,
    pub audit: Option<AuditLogBuilder>,
}

/// Message to a blocked client when the remaining time is not known.
pub const BLOCKED_LATER: &'static str = "Demasiados intentos fallidos. Intente más tarde.";

/// Message to a client that was blocked by its last attempt.
pub const BLOCKED_NOW: &'static str =
    "Demasiados intentos fallidos. Cuenta bloqueada temporalmente.";

/// Message for wrong credentials.
pub const INVALID_CREDENTIALS: &'static str = "Credenciales inválidas";

/// Message for a malformed user name.
pub const INVALID_USER: &'static str = "Usuario inválido";

/// Message when the user could not be looked up.
pub const SERVER_ERROR: &'static str = "Error del servidor";

/// Message when no token could be issued.
pub const TOKEN_ERROR: &'static str = "Error al generar el token";

/// What is recorded of a login with a malformed user name.
pub const REASON_INVALID_USER: &'static str = "Usuario inválido";

/// What is recorded of a login of an unknown user.
pub const REASON_UNKNOWN_USER: &'static str = "Usuario no encontrado";

/// What is recorded of a login with a wrong password.
pub const REASON_WRONG_PASSWORD: &'static str = "Contraseña incorrecta";

/// The message to a blocked client: with the seconds to wait where they
/// are known.
pub open spec fn blocked_message_text(remaining: Option<u64>) -> Seq<char> {
    match remaining {
        Some(secs) => "Demasiados intentos fallidos. Intente de nuevo en "@ + decimal_text(
            secs as nat,
        ) + " segundos."@,
        None => BLOCKED_LATER@,
    }
}

/// The message after a wrong password: that the client is blocked now,
/// or how many attempts remain when they are two or fewer, or only that
/// the credentials are invalid.
pub open spec fn wrong_password_text(blocked: bool, remaining: u32) -> Seq<char> {
    if blocked {
        BLOCKED_NOW@
    } else if remaining <= 2 {
        "Credenciales inválidas. "@ + decimal_text(remaining as nat) + " intentos restantes."@
    } else {
        INVALID_CREDENTIALS@
    }
}

/// The message to a blocked client.
pub fn blocked_message(remaining: Option<u64>) -> (message: String)
    ensures
        message@ == blocked_message_text(remaining),
{
    match remaining {
        Some(secs) => {
            let mut message = String::from_str("Demasiados intentos fallidos. Intente de nuevo en ");
            push_decimal_u64(&mut message, secs);
            message.append(" segundos.");
            message
        },
        None => String::from_str(BLOCKED_LATER),
    }
}

/// The message after a wrong password.
pub fn wrong_password_message(blocked: bool, remaining: u32) -> (message: String)
    ensures
        message@ == wrong_password_text(blocked, remaining),
{
    if blocked {
        String::from_str(BLOCKED_NOW)
    } else if remaining <= 2 {
        let mut message = String::from_str("Credenciales inválidas. ");
        push_decimal(&mut message, remaining);
        message.append(" intentos restantes.");
        message
    } else {
        String::from_str(INVALID_CREDENTIALS)
    }
}

/// Refuses a client that is blocked, before anything else is looked at.
/// Requests without a known client are never blocked.
pub fn refuse_blocked(limiter: &RateLimiter, client: &Option<Client>, now: u64) -> (refusal: Option<
    LoginResponse,
>)
    ensures
        match *client {
            Some(known) => if limiter.records().contains_key(known.address) && entry_is_blocked(
                limiter.records()[known.address],
                now,
            ) {
                &&& refusal is Some
                &&& !refusal->0.success
                &&& refusal->0.message@ == blocked_message_text(
                    entry_block_remaining(limiter.records()[known.address], now),
                )
                &&& refusal->0.token is None
                &&& refusal->0.user is None
            } else {
                refusal is None
            },
            None => refusal is None,
        },
{
    match client {
        Some(known) => {
            let status = limiter.check_block_status(known.address, now);
            if status.0 {
                Some(LoginResponse::error(blocked_message(status.1)))
            } else {
                None
            }
        },
        None => None,
    }
}

/// The limiter has counted one failed attempt of the client, if the
/// client is known, and is unchanged otherwise.
pub open spec fn counted_failure(
    before: RateLimiter,
    after: RateLimiter,
    client: Option<Client>,
    now: u64,
) -> bool {
    &&& after.parameters() == before.parameters()
    &&& after.records() == match client {
        Some(known) => before.records().insert(
            known.address,
            after_failure(entry_of(before.records(), known.address, now), now, before.parameters()),
        ),
        None => before.records(),
    }
}

/// What is recorded of a failed login of a known client.
pub open spec fn records_failure(
    audit: Option<AuditLogBuilder>,
    client: Option<Client>,
    username: Seq<char>,
    reason: Seq<char>,
) -> bool {
    match client {
        Some(known) => audit is Some && audit->0@ == (crate::audit::AuditEvent {
            user_agent: Some(username),
            ip_address: Some(known.text@),
            success: false,
            error_message: Some(reason),
            ..crate::audit::plain_event(
                crate::audit::EventType::LoginFailed,
                crate::audit::AuditCategory::Security,
                crate::audit::about_one(
                    "Intento de inicio de sesión fallido para usuario "@,
                    username,
                    ""@,
                ),
            )
        }),
        None => audit is None,
    }
}

fn fail(
    limiter: &mut RateLimiter,
    client: &Option<Client>,
    username: &str,
    reason: &str,
    now: u64,
) -> (outcome: (bool, Option<AuditLogBuilder>))
    ensures
        counted_failure(*old(limiter), *final(limiter), *client, now),
        records_failure(outcome.1, *client, username@, reason@),
        outcome.0 == match *client {
            Some(known) => after_failure(
                entry_of(old(limiter).records(), known.address, now),
                now,
                old(limiter).parameters(),
            ).blocked_until is Some,
            None => false,
        },
{
    match client {
        Some(known) => {
            let blocked = limiter.record_failed_attempt(known.address, now);
            (blocked, Some(log_login_failed(username, known.text.as_str(), reason)))
        },
        None => (false, None),
    }
}

/// Refuses a login whose user name is malformed: the attempt is counted
/// and recorded.
pub fn refuse_invalid_username(
    limiter: &mut RateLimiter,
    client: &Option<Client>,
    username: &str,
    now: u64,
) -> (refusal: Option<Refused>)
    ensures
        if username_is_valid(username@) {
            &&& refusal is None
            &&& *final(limiter) == *old(limiter)
        } else {
            &&& refusal is Some
            &&& !refusal->0.response.success
            &&& refusal->0.response.message@ == INVALID_USER@
            &&& refusal->0.response.token is None
            &&& refusal->0.response.user is None
            &&& counted_failure(*old(limiter), *final(limiter), *client, now)
            &&& records_failure(refusal->0.audit, *client, username@, REASON_INVALID_USER@)
        },
{
    if is_valid_username(username) {
        None
    } else {
        let outcome = fail(limiter, client, username, REASON_INVALID_USER, now);
        Some(
            Refused {
                response: LoginResponse::error(String::from_str(INVALID_USER)),
                audit: outcome.1,
            },
        )
    }
}

/// Refuses the login of a user that does not exist: the attempt is
/// counted and recorded, and the response does not tell that the user is
/// unknown.
pub fn refuse_unknown_user(
    limiter: &mut RateLimiter,
    client: &Option<Client>,
    username: &str,
    now: u64,
) -> (refusal: Refused)
    ensures
        !refusal.response.success,
        refusal.response.message@ == INVALID_CREDENTIALS@,
        refusal.response.token is None,
        refusal.response.user is None,
        counted_failure(*old(limiter), *final(limiter), *client, now),
        records_failure(refusal.audit, *client, username@, REASON_UNKNOWN_USER@),
{
    let outcome = fail(limiter, client, username, REASON_UNKNOWN_USER, now);
    Refused {
        response: LoginResponse::error(String::from_str(INVALID_CREDENTIALS)),
        audit: outcome.1,
    }
}

/// The response when the user could not be looked up.
pub fn lookup_failed() -> (response: LoginResponse)
    ensures
        !response.success,
        response.message@ == SERVER_ERROR@,
        response.token is None,
        response.user is None,
{
    LoginResponse::error(String::from_str(SERVER_ERROR))
}

/// The limiter after a right password: the record of a known client is
/// dropped; then, when more than a thousand addresses still have a
/// record, the records that are no longer needed are dropped too.
pub open spec fn cleared_success(
    before: RateLimiter,
    after: RateLimiter,
    client: Option<Client>,
    now: u64,
) -> bool {
    &&& after.parameters() == before.parameters()
    &&& match client {
        Some(known) => {
            let cleared = before.records().remove(known.address);
            if cleared.len() > CLEANUP_THRESHOLD {
                &&& forall|ip: u128| #[trigger]
                    after.records().contains_key(ip) <==> cleared.contains_key(ip)
                        && entry_is_kept(cleared[ip], now, before.parameters())
                &&& forall|ip: u128| #[trigger]
                    after.records().contains_key(ip) ==> after.records()[ip] == cleared[ip]
            } else {
                after.records() == cleared
            }
        },
        None => after.records() == before.records(),
    }
}

/// Decides on a login once the password was checked against the stored
/// hash. A right password clears the client's record (and cleans the
/// limiter up when it has grown); a wrong one is counted and recorded,
/// and the message tells a known client how it stands.
pub fn password_checked(
    limiter: &mut RateLimiter,
    client: &Option<Client>,
    username: &str,
    verified: bool,
    now: u64,
) -> (refusal: Option<Refused>)
    ensures
        final(limiter).parameters() == old(limiter).parameters(),
        verified ==> refusal is None && cleared_success(
            *old(limiter),
            *final(limiter),
            *client,
            now,
        ),
        !verified ==> {
            &&& refusal is Some
            &&& !refusal->0.response.success
            &&& refusal->0.response.token is None
            &&& refusal->0.response.user is None
            &&& records_failure(refusal->0.audit, *client, username@, REASON_WRONG_PASSWORD@)
            &&& counted_failure(*old(limiter), *final(limiter), *client, now)
            &&& refusal->0.response.message@ == match *client {
                Some(known) => wrong_password_text(
                    final(limiter).records()[known.address].blocked_until is Some,
                    crate::rate_limiter::entry_remaining_attempts(
                        final(limiter).records()[known.address],
                        final(limiter).parameters(),
                    ),
                ),
                None => INVALID_CREDENTIALS@,
            }
        },
{
    if verified {
        match client {
            Some(known) => {
                limiter.record_success(known.address);
                limiter.maybe_cleanup(now);
            },
            None => {},
        }
        None
    } else {
        let outcome = fail(limiter, client, username, REASON_WRONG_PASSWORD, now);
        let message: String = match client {
            Some(known) => {
                let remaining: u32 = if outcome.0 {
                    0
                } else {
                    limiter.get_remaining_attempts(known.address)
                };
                wrong_password_message(outcome.0, remaining)
            },
            None => String::from_str(INVALID_CREDENTIALS),
        };
        Some(Refused { response: LoginResponse::error(message), audit: outcome.1 })
    }
}

/// Checks a password against the stored hash and decides on the login.
pub fn check_password(
    limiter: &mut RateLimiter,
    client: &Option<Client>,
    username: &str,
    password: &str,
    stored_hash: &str,
    now: u64,
) -> (refusal: Option<Refused>)
    ensures
        final(limiter).parameters() == old(limiter).parameters(),
        refusal is None <==> bcrypt_verifies(password@, stored_hash@) == Some(true),
        refusal is None ==> cleared_success(*old(limiter), *final(limiter), *client, now),
        refusal is Some ==> {
            &&& !refusal->0.response.success
            &&& refusal->0.response.token is None
            &&& refusal->0.response.user is None
            &&& counted_failure(*old(limiter), *final(limiter), *client, now)
            &&& records_failure(refusal->0.audit, *client, username@, REASON_WRONG_PASSWORD@)
            &&& refusal->0.response.message@ == match *client {
                Some(known) => wrong_password_text(
                    final(limiter).records()[known.address].blocked_until is Some,
                    crate::rate_limiter::entry_remaining_attempts(
                        final(limiter).records()[known.address],
                        final(limiter).parameters(),
                    ),
                ),
                None => INVALID_CREDENTIALS@,
            }
        },
{
    let verified = verify_password(password, stored_hash);
    password_checked(limiter, client, username, verified, now)
}

/// Whether a client is blocked: it is known, and its record holds a block
/// that has not run out.
pub open spec fn client_is_blocked(limiter: RateLimiter, client: Option<Client>, now: u64) -> bool {
    match client {
        Some(known) => limiter.records().contains_key(known.address) && entry_is_blocked(
            limiter.records()[known.address],
            now,
        ),
        None => false,
    }
}

/// How a login goes on after its first checks.
#[derive(Clone, Debug)]
pub enum LoginStart {
    /// The user is to be looked up by the user name.
    LookUp,
    /// The login is refused, and no user is looked up.
    Refuse(Refused),
}

/// Begins a login. A blocked client is refused before anything else is
/// looked at, and nothing is counted or recorded of it; a malformed user
/// name is refused, counted and recorded; in every other case the user is
/// to be looked up, and the limiter is as it was.
pub fn begin_login(
    limiter: &mut RateLimiter,
    client: &Option<Client>,
    username: &str,
    now: u64,
) -> (start: LoginStart)
    ensures
        start is LookUp <==> !client_is_blocked(*old(limiter), *client, now) && username_is_valid(
            username@,
        ),
        start is LookUp ==> *final(limiter) == *old(limiter),
        start matches LoginStart::Refuse(refusal) ==> {
            &&& !refusal.response.success
            &&& refusal.response.token is None
            &&& refusal.response.user is None
            &&& if client_is_blocked(*old(limiter), *client, now) {
                &&& refusal.response.message@ == blocked_message_text(
                    entry_block_remaining(old(limiter).records()[client->0.address], now),
                )
                &&& refusal.audit is None
                &&& *final(limiter) == *old(limiter)
            } else {
                &&& refusal.response.message@ == INVALID_USER@
                &&& counted_failure(*old(limiter), *final(limiter), *client, now)
                &&& records_failure(refusal.audit, *client, username@, REASON_INVALID_USER@)
            }
        },
{
    match refuse_blocked(limiter, client, now) {
        Some(response) => {
            return LoginStart::Refuse(Refused { response, audit: None });
        },
        None => {},
    }
    match refuse_invalid_username(limiter, client, username, now) {
        Some(refusal) => LoginStart::Refuse(refusal),
        None => LoginStart::LookUp,
    }
}

/// A user as the store holds it: what a login reads of it.
#[derive(Clone, Debug)]
pub struct StoredUser {
    pub id: i32,
    pub name: String,
    pub email: String,
    pub role: Option<String>,
    /// The hash of the password.
    pub password_hash: String,
}

/// What looking a user up gave.
#[derive(Clone, Debug)]
pub enum UserLookup {
    Found(StoredUser),
    /// No user has the name.
    Missing,
    /// The store could not be asked.
    Failed,
}

/// How a login goes on once the user was looked up.
#[derive(Clone, Debug)]
pub enum LoginVerdict {
    /// The password is right: a token with these claims is to be signed.
    Sign(Claims),
    /// The login is refused.
    Refuse(Refused),
}

/// The role in the claims of a user: its role, or none.
pub open spec fn role_text(role: Option<String>) -> Seq<char> {
    match role {
        Some(text) => text@,
        None => Seq::empty(),
    }
}

/// Finishes a login with what looking the user up gave. An unknown user
/// is refused, counted and recorded; a lookup that failed is answered
/// with a server error, and nothing is counted; a user that was found is
/// refused on a wrong password, and gets its claims, issued now for 24
/// hours, on the right one.
pub fn finish_login(
    limiter: &mut RateLimiter,
    client: &Option<Client>,
    username: &str,
    password: &str,
    lookup: &UserLookup,
    now: u64,
) -> (verdict: LoginVerdict)
    ensures
        final(limiter).parameters() == old(limiter).parameters(),
        verdict is Sign <==> lookup is Found && bcrypt_verifies(
            password@,
            lookup->Found_0.password_hash@,
        ) == Some(true),
        verdict matches LoginVerdict::Sign(claims) ==> {
            &&& claims.describes(
                lookup->Found_0.id as int,
                lookup->Found_0.email@,
                lookup->Found_0.name@,
                role_text(lookup->Found_0.role),
                claims.iat as int,
                DEFAULT_LIFETIME_SECS as int,
            )
            &&& cleared_success(*old(limiter), *final(limiter), *client, now)
        },
        verdict matches LoginVerdict::Refuse(refusal) ==> {
            &&& !refusal.response.success
            &&& refusal.response.token is None
            &&& refusal.response.user is None
            &&& match *lookup {
                UserLookup::Missing => {
                    &&& refusal.response.message@ == INVALID_CREDENTIALS@
                    &&& counted_failure(*old(limiter), *final(limiter), *client, now)
                    &&& records_failure(refusal.audit, *client, username@, REASON_UNKNOWN_USER@)
                },
                UserLookup::Failed => {
                    &&& refusal.response.message@ == SERVER_ERROR@
                    &&& refusal.audit is None
                    &&& *final(limiter) == *old(limiter)
                },
                UserLookup::Found(_) => {
                    &&& counted_failure(*old(limiter), *final(limiter), *client, now)
                    &&& records_failure(
                        refusal.audit,
                        *client,
                        username@,
                        REASON_WRONG_PASSWORD@,
                    )
                    &&& refusal.response.message@ == match *client {
                        Some(known) => wrong_password_text(
                            final(limiter).records()[known.address].blocked_until is Some,
                            crate::rate_limiter::entry_remaining_attempts(
                                final(limiter).records()[known.address],
                                final(limiter).parameters(),
                            ),
                        ),
                        None => INVALID_CREDENTIALS@,
                    }
                },
            }
        },
{
    match lookup {
        UserLookup::Missing => LoginVerdict::Refuse(
            refuse_unknown_user(limiter, client, username, now),
        ),
        UserLookup::Failed => LoginVerdict::Refuse(
            Refused { response: lookup_failed(), audit: None },
        ),
        UserLookup::Found(user) => {
            match check_password(
                limiter,
                client,
                username,
                password,
                user.password_hash.as_str(),
                now,
            ) {
                Some(refusal) => LoginVerdict::Refuse(refusal),
                None => {
                    let role = match &user.role {
                        Some(text) => text.clone(),
                        None => String::new(),
                    };
                    LoginVerdict::Sign(
                        Claims::new(user.id, user.name.clone(), user.email.clone(), role),
                    )
                },
            }
        },
    }
}

/// The address under which events of unknown clients are recorded.
pub const UNKNOWN_ADDRESS: &'static str = "unknown";

/// The response to a login that succeeded, once a token was issued (or
/// could not be), and what to record of it.
pub fn token_issued(
    token: Option<String>,
    claims: &Claims,
    user_id: i32,
    client: &Option<Client>,
) -> (outcome: (LoginResponse, Option<AuditLogBuilder>))
    ensures
        match token {
            Some(issued) => {
                &&& outcome.0.success
                &&& outcome.0.token == Some(issued)
                &&& outcome.0.user is Some
                &&& outcome.0.user->0.id@ == claims.sub@
                &&& outcome.0.user->0.name@ == claims.name@
                &&& outcome.0.user->0.email@ == claims.email@
                &&& outcome.0.user->0.role@ == claims.role@
                &&& outcome.1 is Some
                &&& outcome.1->0@.user_id == Some(user_id)
                &&& outcome.1->0@.user_name == Some(claims.name@)
                &&& outcome.1->0@.event_type == crate::audit::EventType::Login
                &&& outcome.1->0@.ip_address == Some(
                    match *client {
                        Some(known) => known.text@,
                        None => UNKNOWN_ADDRESS@,
                    },
                )
            },
            None => {
                &&& !outcome.0.success
                &&& outcome.0.message@ == TOKEN_ERROR@
                &&& outcome.0.token is None
                &&& outcome.0.user is None
                &&& outcome.1 is None
            },
        },
{
    match token {
        Some(issued) => {
            let audit = match client {
                Some(known) => log_login_success(
                    user_id,
                    claims.name.as_str(),
                    known.text.as_str(),
                ),
                None => log_login_success(user_id, claims.name.as_str(), UNKNOWN_ADDRESS),
            };
            (LoginResponse::success(issued, claims), Some(audit))
        },
        None => (LoginResponse::error(String::from_str(TOKEN_ERROR)), None),
    }
}

} // verus!
