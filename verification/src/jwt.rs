//! The claims of a session token, the roles they carry, and the response
//! to a login.

use crate::clock::unix_time_now;
use crate::text::{i32_to_string, signed_decimal_text};
use vstd::prelude::*;

verus! {

/// Seconds that a token lives by default: 24 hours.
pub const DEFAULT_LIFETIME_SECS: usize = 86400;

/// Claims of the JWT.
#[derive(Clone, Debug)]
pub struct Claims {
    /// Subject (user ID).
    pub sub: String,
    /// E-mail address of the user.
    pub email: String,
    /// Name of the user.
    pub name: String,
    /// Role of the user.
    pub role: String,
    /// Expiration time (timestamp).
    pub exp: usize,
    /// Issued at (timestamp).
    pub iat: usize,
}

/// The time at which a token issued at `issued` expires: `lifetime`
/// seconds later, or at the largest timestamp if that would be exceeded.
pub open spec fn expiry(issued: int, lifetime: int) -> int {
    if issued + lifetime > usize::MAX {
        usize::MAX as int
    } else {
        issued + lifetime
    }
}

/// The timestamp that stands for a clock reading: the seconds since the
/// epoch, limited to the largest timestamp, and 0 for a clock that stands
/// before the epoch.
pub open spec fn timestamp_of(reading: Option<u64>) -> int {
    match reading {
        Some(seconds) => if seconds > usize::MAX {
            usize::MAX as int
        } else {
            seconds as int
        },
        None => 0,
    }
}

impl Claims {
    /// The claims of user `user_id` issued at `issued`, expiring
    /// `lifetime` seconds later.
    pub open spec fn describes(
        self,
        user_id: int,
        email: Seq<char>,
        name: Seq<char>,
        role: Seq<char>,
        issued: int,
        lifetime: int,
    ) -> bool {
        &&& self.sub@ == signed_decimal_text(user_id)
        &&& self.email@ == email
        &&& self.name@ == name
        &&& self.role@ == role
        &&& self.iat == issued
        &&& self.exp == expiry(issued, lifetime)
    }

    /// Creates the claims of a token issued at the given time.
    pub fn issued_at(
        user_id: i32,
        email: String,
        name: String,
        role: String,
        issued: usize,
        lifetime: usize,
    ) -> (claims: Claims)
        ensures
            claims.describes(
                user_id as int,
                email@,
                name@,
                role@,
                issued as int,
                lifetime as int,
            ),
    {
        let exp: usize = if issued > usize::MAX - lifetime {
            usize::MAX
        } else {
            issued + lifetime
        };
        Claims { sub: i32_to_string(user_id), email, name, role, exp, iat: issued }
    }

    /// The timestamp of a clock reading.
    pub fn timestamp(reading: Option<u64>) -> (issued: usize)
        ensures
            issued == timestamp_of(reading),
    {
        match reading {
            Some(seconds) => {
                if seconds > usize::MAX as u64 {
                    usize::MAX
                } else {
                    seconds as usize
                }
            },
            None => 0,
        }
    }

    /// Creates new claims that expire after 24 hours, issued now.
    pub fn new(user_id: i32, name: String, email: String, role: String) -> (claims: Claims)
        ensures
            claims.describes(
                user_id as int,
                email@,
                name@,
                role@,
                claims.iat as int,
                DEFAULT_LIFETIME_SECS as int,
            ),
    {
        let now: usize = Claims::timestamp(unix_time_now());
        Claims::issued_at(user_id, email, name, role, now, DEFAULT_LIFETIME_SECS)
    }

    /// Creates claims with a custom expiration in seconds, issued now.
    pub fn with_expiration(
        user_id: i32,
        email: String,
        name: String,
        role: String,
        expiration_secs: usize,
    ) -> (claims: Claims)
        ensures
            claims.describes(
                user_id as int,
                email@,
                name@,
                role@,
                claims.iat as int,
                expiration_secs as int,
            ),
    {
        let now: usize = Claims::timestamp(unix_time_now());
        Claims::issued_at(user_id, email, name, role, now, expiration_secs)
    }
}

/// What a login response tells about the user.
#[derive(Clone, Debug)]
pub struct UserInfo {
    pub id: String,
    pub name: String,
    pub email: String,
    pub role: String,
}

/// JSON response to a login.
#[derive(Clone, Debug)]
pub struct LoginResponse {
    pub success: bool,
    pub message: String,
    pub token: Option<String>,
    pub user: Option<UserInfo>,
}

/// Message of a successful login.
pub const LOGIN_SUCCEEDED: &'static str = "Login exitoso";

impl LoginResponse {
    pub fn success(token: String, claims: &Claims) -> (response: LoginResponse)
        ensures
            response.success,
            response.message@ == LOGIN_SUCCEEDED@,
            response.token == Some(token),
            response.user is Some,
            response.user->0.id@ == claims.sub@,
            response.user->0.name@ == claims.name@,
            response.user->0.email@ == claims.email@,
            response.user->0.role@ == claims.role@,
    {
        LoginResponse {
            success: true,
            message: String::from_str(LOGIN_SUCCEEDED),
            token: Some(token),
            user: Some(
                UserInfo {
                    id: claims.sub.clone(),
                    name: claims.name.clone(),
                    email: claims.email.clone(),
                    role: claims.role.clone(),
                },
            ),
        }
    }

    pub fn error(message: String) -> (response: LoginResponse)
        ensures
            !response.success,
            response.message == message,
            response.token is None,
            response.user is None,
    {
        LoginResponse { success: false, message, token: None, user: None }
    }
}

} // verus!
