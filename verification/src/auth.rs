//! Who may do what: roles, the check of a role against an allow-list, and
//! the replies to requests that are not authenticated or not allowed.

use crate::jwt::{Claims, UserInfo};
use crate::text::{has_prefix, text_equals};
use vstd::prelude::*;

verus! {

/// The roles of the system.
#[derive(Clone, Copy, Debug, PartialEq, Eq, Structural)]
pub enum Role {
    Admin,
    Leader,
    SubjectLeader,
    User,
}

/// How the claims name the administrator role.
pub const ROLE_ADMIN: &'static str = "admin";

/// How the claims name the leader role.
pub const ROLE_LEADER: &'static str = "leader";

/// How the claims name the subject-leader role.
pub const ROLE_SUBJECT_LEADER: &'static str = "subjectLeader";

/// How the claims name the plain user role.
pub const ROLE_USER: &'static str = "user";

/// The name of a role.
pub open spec fn role_name(role: Role) -> Seq<char> {
    match role {
        Role::Admin => ROLE_ADMIN@,
        Role::Leader => ROLE_LEADER@,
        Role::SubjectLeader => ROLE_SUBJECT_LEADER@,
        Role::User => ROLE_USER@,
    }
}

/// Whether the name of a role in the claims names one of the roles of an
/// allow-list.
pub open spec fn names_allowed_role(name: Seq<char>, allowed: Seq<Role>) -> bool {
    exists|i: int| 0 <= i < allowed.len() && name == role_name(#[trigger] allowed[i])
}

impl Role {
    /// The name of the role as the claims carry it.
    pub fn as_str(&self) -> (name: &'static str)
        ensures
            name@ == role_name(*self),
    {
        match self {
            Role::Admin => ROLE_ADMIN,
            Role::Leader => ROLE_LEADER,
            Role::SubjectLeader => ROLE_SUBJECT_LEADER,
            Role::User => ROLE_USER,
        }
    }
}

/// Whether a user with the given role name may do what the roles of the
/// allow-list may do.
pub fn role_allowed(role: &str, allowed: &[Role]) -> (granted: bool)
    ensures
        granted == names_allowed_role(role@, allowed@),
{
    let mut i: usize = 0;
    while i < allowed.len()
        invariant
            i <= allowed.len(),
            forall|j: int| 0 <= j < i ==> role@ != role_name(#[trigger] allowed[j]),
        decreases allowed.len() - i,
    {
        if text_equals(role, allowed[i].as_str()) {
            return true;
        }
        i += 1;
    }
    false
}

/// Whether the claims carry one of the roles of an allow-list.
pub fn authorize(claims: &Claims, allowed: &[Role]) -> (granted: bool)
    ensures
        granted == names_allowed_role(claims.role@, allowed@),
{
    role_allowed(claims.role.as_str(), allowed)
}

/// Response to the verification of a session.
#[derive(Clone, Debug)]
pub struct VerifyResponse {
    pub success: bool,
    pub authenticated: bool,
    pub user: Option<UserInfo>,
}

/// Tells an authenticated user who they are, from the claims of their
/// token.
pub fn verify_auth(claims: &Claims) -> (response: VerifyResponse)
    ensures
        response.success,
        response.authenticated,
        response.user is Some,
        response.user->0.id@ == claims.sub@,
        response.user->0.name@ == claims.name@,
        response.user->0.email@ == claims.email@,
        response.user->0.role@ == claims.role@,
{
    VerifyResponse {
        success: true,
        authenticated: true,
        user: Some(
            UserInfo {
                id: claims.sub.clone(),
                name: claims.name.clone(),
                email: claims.email.clone(),
                role: claims.role.clone(),
            },
        ),
    }
}

/// Body of the reply to an API request that is refused.
#[derive(Clone, Debug)]
pub struct UnauthorizedResponse {
    pub success: bool,
    pub message: String,
    pub alert: String,
}

/// Body of the reply to a refused request: an error for API requests, a
/// redirection for pages.
#[derive(Clone, Debug)]
pub enum RefusalBody {
    Api(UnauthorizedResponse),
    Page { redirect: String, message: String },
}

/// Reply to a refused request: the HTTP status and the body.
#[derive(Clone, Debug)]
pub struct Refusal {
    pub status: u16,
    pub body: RefusalBody,
}

/// The prefix of the paths of the API.
pub const API_PREFIX: &'static str = "/api/";

/// Message to an API client that is not authenticated.
pub const UNAUTHORIZED_API: &'static str = "No autorizado. Por favor, inicie sesión.";

/// Message to a visitor of a page who is not authenticated.
pub const UNAUTHORIZED_PAGE: &'static str = "Por favor, inicie sesión para acceder a esta página.";

/// Message to an API client that lacks the permission.
pub const FORBIDDEN_API: &'static str = "Acceso denegado. No tiene permisos para esta operación.";

/// Message to a visitor of a page who lacks the permission.
pub const FORBIDDEN_PAGE: &'static str = "No tiene permisos para acceder a esta página.";

/// Where a visitor who is not authenticated is sent.
pub const LOGIN_PAGE: &'static str = "/login";

/// Where a visitor who lacks the permission is sent.
pub const HOME_PAGE: &'static str = "/";

impl Refusal {
    /// The reply has the given status and, for a path of the API, an error
    /// body with `api_message`; for any other path it redirects to
    /// `redirect` with `page_message`.
    pub open spec fn answers(
        self,
        path: Seq<char>,
        status: int,
        api_message: Seq<char>,
        redirect: Seq<char>,
        page_message: Seq<char>,
    ) -> bool {
        &&& self.status == status
        &&& if API_PREFIX@.is_prefix_of(path) {
            &&& self.body is Api
            &&& !self.body->Api_0.success
            &&& self.body->Api_0.message@ == api_message
            &&& self.body->Api_0.alert@ == "error"@
        } else {
            &&& self.body is Page
            &&& self.body->redirect@ == redirect
            &&& self.body->message@ == page_message
        }
    }
}

fn refuse(path: &str, status: u16, api_message: &str, redirect: &str, page_message: &str) -> (reply:
    Refusal)
    ensures
        reply.answers(path@, status as int, api_message@, redirect@, page_message@),
{
    if has_prefix(path, API_PREFIX) {
        Refusal {
            status,
            body: RefusalBody::Api(
                UnauthorizedResponse {
                    success: false,
                    message: String::from_str(api_message),
                    alert: String::from_str("error"),
                },
            ),
        }
    } else {
        Refusal {
            status,
            body: RefusalBody::Page {
                redirect: String::from_str(redirect),
                message: String::from_str(page_message),
            },
        }
    }
}

/// Reply to error 401 (not authenticated): JSON for API requests, a
/// redirection to the login page for direct navigation.
pub fn unauthorized(path: &str) -> (reply: Refusal)
    ensures
        reply.answers(path@, 401, UNAUTHORIZED_API@, LOGIN_PAGE@, UNAUTHORIZED_PAGE@),
{
    refuse(path, 401, UNAUTHORIZED_API, LOGIN_PAGE, UNAUTHORIZED_PAGE)
}

/// Reply to error 403 (forbidden): JSON for API requests, a redirection
/// to the home page for direct navigation.
pub fn forbidden(path: &str) -> (reply: Refusal)
    ensures
        reply.answers(path@, 403, FORBIDDEN_API@, HOME_PAGE@, FORBIDDEN_PAGE@),
{
    refuse(path, 403, FORBIDDEN_API, HOME_PAGE, FORBIDDEN_PAGE)
}

} // verus!
