//! The requests that manage users, subjects and balances: what is checked
//! before they are carried out, and what is answered afterwards.

use crate::auth::{ROLE_LEADER, ROLE_SUBJECT_LEADER};
use crate::dates::{parsed_day_number, CalendarDate, ISO_DATE_FORMAT};
use crate::jwt::Claims;
use crate::text::{parse_i32, parsed_i32, text_equals, trim_text, trimmed};
use crate::types::{ApiResponse, ApiResponseWithData, ALERT_ERROR, ALERT_SUCCESS};
use crate::validation::{
    default_policy, is_valid_password, new_user_error, password_meets, profile_error,
    subject_error, validate_new_user, validate_profile, validate_subject, ValidationResult,
};
use vstd::prelude::*;

verus! {

/// Credentials of a login.
#[derive(Clone, Debug)]
pub struct LoginJson {
    pub username: String,
    pub password: String,
}

impl LoginJson {
    /// The user name to log in with: the one given, trimmed.
    pub fn user_name(&self) -> (name: &str)
        ensures
            name@ == trimmed(self.username@),
    {
        trim_text(self.username.as_str())
    }
}

/// Data of a user to create.
#[derive(Clone, Debug)]
pub struct NewUser {
    pub user_name: String,
    pub name: String,
    pub email: String,
    pub password: String,
    pub role: String,
}

/// New name and e-mail address of a profile.
#[derive(Clone, Debug)]
pub struct UpdateProfileRequest {
    pub name: String,
    pub email: String,
}

/// New password of a user.
#[derive(Clone, Debug)]
pub struct ChangePasswordRequest {
    pub new_password: String,
}

/// Data of a subject to create.
#[derive(Clone, Debug)]
pub struct CreateAsignaturaRequest {
    /// User name of the subject leader.
    pub leader_user_name: String,
    pub name: String,
    pub year: String,
    pub semester: String,
}

/// Message for invalid data where the validation gives none.
pub const INVALID_DATA: &'static str = "Datos inválidos";

/// Message for a new password that is invalid.
pub const INVALID_NEW_PASSWORD: &'static str = "Contraseña inválida (mínimo 8 caracteres)";

/// Message for a subject of another leader.
pub const NOT_THE_OWNER: &'static str = "No tienes permisos para editar esta asignatura";

impl ApiResponse {
    /// The response is an error with the given message.
    pub open spec fn is_error(self, message: Seq<char>) -> bool {
        self.message@ == message && self.alert@ == ALERT_ERROR@
    }

    /// The response is a success with the given message.
    pub open spec fn is_success(self, message: Seq<char>) -> bool {
        self.message@ == message && self.alert@ == ALERT_SUCCESS@
    }
}

/// The response that refuses a request whose validation failed; none
/// where the validation succeeded. A failed validation without a message
/// is answered with `fallback`.
pub fn rejection(validation: &ValidationResult, fallback: &str) -> (response: Option<ApiResponse>)
    ensures
        match response {
            Some(refused) => !validation.valid && refused.is_error(
                match validation.error {
                    Some(message) => message@,
                    None => fallback@,
                },
            ),
            None => validation.valid,
        },
{
    if validation.valid {
        None
    } else {
        let message: String = match &validation.error {
            Some(message) => message.clone(),
            None => String::from_str(fallback),
        };
        Some(ApiResponse::error(message))
    }
}

impl NewUser {
    /// Checks the data of a new user, with user name, name and e-mail
    /// address trimmed; an error response where they are invalid.
    pub fn check(&self) -> (response: Option<ApiResponse>)
        ensures
            match new_user_error(
                trimmed(self.user_name@),
                trimmed(self.name@),
                trimmed(self.email@),
                self.password@,
            ) {
                Some(message) => response is Some && response->0.is_error(message),
                None => response is None,
            },
    {
        let validation = validate_new_user(
            trim_text(self.user_name.as_str()),
            trim_text(self.name.as_str()),
            trim_text(self.email.as_str()),
            self.password.as_str(),
        );
        rejection(&validation, INVALID_DATA)
    }
}

impl UpdateProfileRequest {
    /// Checks the data of a profile, trimmed; an error response where
    /// they are invalid.
    pub fn check(&self) -> (response: Option<ApiResponse>)
        ensures
            match profile_error(trimmed(self.name@), trimmed(self.email@)) {
                Some(message) => response is Some && response->0.is_error(message),
                None => response is None,
            },
    {
        let validation = validate_profile(
            trim_text(self.name.as_str()),
            trim_text(self.email.as_str()),
        );
        rejection(&validation, INVALID_DATA)
    }
}

impl ChangePasswordRequest {
    /// Checks the new password; an error response where it is invalid.
    pub fn check(&self) -> (response: Option<ApiResponse>)
        ensures
            if password_meets(self.new_password@, default_policy()) {
                response is None
            } else {
                response is Some && response->0.is_error(INVALID_NEW_PASSWORD@)
            },
    {
        if is_valid_password(self.new_password.as_str()) {
            None
        } else {
            Some(ApiResponse::error(String::from_str(INVALID_NEW_PASSWORD)))
        }
    }
}

impl CreateAsignaturaRequest {
    /// Checks the name of the subject; an error response where it is
    /// invalid.
    pub fn check(&self) -> (response: Option<ApiResponse>)
        ensures
            match subject_error(self.name@) {
                Some(message) => response is Some && response->0.is_error(message),
                None => response is None,
            },
    {
        let validation = validate_subject(self.name.as_str());
        rejection(&validation, crate::validation::INVALID_SUBJECT_NAME)
    }
}

/// `context`, a colon, and the text of an error.
pub open spec fn failure_text(context: Seq<char>, error: Seq<char>) -> Seq<char> {
    context + ": "@ + error
}

/// The message of a failure: what was attempted, and the error.
pub fn failure_message(context: &str, error: &str) -> (message: String)
    ensures
        message@ == failure_text(context@, error@),
{
    let mut message = String::from_str(context);
    message.append(": ");
    message.append(error);
    message
}

/// The response to a request that was carried out: success with `done`,
/// or an error that names what failed and why.
pub fn outcome_response(outcome: &Result<(), String>, done: &str, failed: &str) -> (response:
    ApiResponse)
    ensures
        match *outcome {
            Ok(_) => response.is_success(done@),
            Err(error) => response.is_error(failure_text(failed@, error@)),
        },
{
    match outcome {
        Ok(_) => ApiResponse::success(String::from_str(done)),
        Err(error) => ApiResponse::error(failure_message(failed, error.as_str())),
    }
}

/// The response to a request for data: the data with `done`, or an error
/// that names what failed and why.
pub fn data_response<T>(outcome: Result<T, String>, done: &str, failed: &str) -> (response:
    ApiResponseWithData<T>)
    ensures
        match outcome {
            Ok(data) => response.message@ == done@ && response.alert@ == ALERT_SUCCESS@
                && response.data == Some(data),
            Err(error) => response.message@ == failure_text(failed@, error@) && response.alert@
                == ALERT_ERROR@ && response.data is None,
        },
{
    match outcome {
        Ok(data) => ApiResponseWithData::success(String::from_str(done), data),
        Err(error) => ApiResponseWithData::error(failure_message(failed, error.as_str())),
    }
}

/// The identifier of the user of a token: the number that its subject
/// holds, 0 where it holds none.
pub fn user_id_of(claims: &Claims) -> (id: i32)
    ensures
        id == match parsed_i32(claims.sub@) {
            Some(n) => n,
            None => 0,
        },
{
    match parse_i32(claims.sub.as_str()) {
        Some(n) => n,
        None => 0,
    }
}

/// Which subjects a user may list.
#[derive(Clone, Copy, Debug, PartialEq, Eq, Structural)]
pub enum SubjectScope {
    /// All subjects.
    All,
    /// The subjects that the user leads.
    Own,
    /// No subjects.
    Nothing,
}

/// Leaders list all subjects, subject leaders their own, others none.
pub fn subject_scope(role: &str) -> (scope: SubjectScope)
    ensures
        scope == if role@ == ROLE_LEADER@ {
            SubjectScope::All
        } else if role@ == ROLE_SUBJECT_LEADER@ {
            SubjectScope::Own
        } else {
            SubjectScope::Nothing
        },
{
    if text_equals(role, ROLE_LEADER) {
        SubjectScope::All
    } else if text_equals(role, ROLE_SUBJECT_LEADER) {
        SubjectScope::Own
    } else {
        SubjectScope::Nothing
    }
}

/// Whether a user may edit a subject: only its leader may.
pub fn may_edit_subject(leader_id: i32, user_id: i32) -> (response: Option<&'static str>)
    ensures
        match response {
            Some(message) => leader_id != user_id && message@ == NOT_THE_OWNER@,
            None => leader_id == user_id,
        },
{
    if leader_id != user_id {
        Some(NOT_THE_OWNER)
    } else {
        None
    }
}

/// Data of a balance to create or update.
#[derive(Debug)]
pub struct BalanceRequest {
    /// "1ro", "2do", "3ro", "4to".
    pub academic_year: String,
    /// "1ero", "2do".
    pub period: String,
    /// "2025-2026".
    pub academic_year_text: String,
    /// "YYYY-MM-DD".
    pub start_date: String,
    /// Number of weeks.
    pub weeks: i32,
    /// JSON array of subjects.
    pub subjects: serde_json::Value,
}

/// Message for a start date that is no ISO calendar date.
pub const INVALID_DATE_FORMAT: &'static str = "Formato de fecha inválido. Use YYYY-MM-DD";

/// The name of a balance: "<year> Año - Período <period> (<year text>)".
pub open spec fn balance_name_text(
    academic_year: Seq<char>,
    period: Seq<char>,
    academic_year_text: Seq<char>,
) -> Seq<char> {
    academic_year + " Año - Período "@ + period + " ("@ + academic_year_text + ")"@
}

/// Generates the name of a balance.
pub fn generate_balance_name(academic_year: &str, period: &str, academic_year_text: &str) -> (name:
    String)
    ensures
        name@ == balance_name_text(academic_year@, period@, academic_year_text@),
{
    let mut name = String::from_str(academic_year);
    name.append(" Año - Período ");
    name.append(period);
    name.append(" (");
    name.append(academic_year_text);
    name.append(")");
    name
}

impl BalanceRequest {
    /// The name under which the balance is stored.
    pub fn name(&self) -> (name: String)
        ensures
            name@ == balance_name_text(
                self.academic_year@,
                self.period@,
                self.academic_year_text@,
            ),
    {
        generate_balance_name(
            self.academic_year.as_str(),
            self.period.as_str(),
            self.academic_year_text.as_str(),
        )
    }

    /// The start date of the balance, or the message that refuses a start
    /// date that is no ISO calendar date.
    pub fn start(&self) -> (start: Result<CalendarDate, &'static str>)
        ensures
            match start {
                Ok(date) => parsed_day_number(self.start_date@, ISO_DATE_FORMAT@) == Some(date@),
                Err(message) => parsed_day_number(self.start_date@, ISO_DATE_FORMAT@) is None
                    && message@ == INVALID_DATE_FORMAT@,
            },
    {
        match CalendarDate::parse_iso(self.start_date.as_str()) {
            Some(date) => Ok(date),
            None => Err(INVALID_DATE_FORMAT),
        }
    }
}

/// Statistics of the audit trail.
#[derive(Clone, Copy, Debug, PartialEq, Eq)]
pub struct AuditStats {
    pub total_logs: u64,
    pub recent_logins: u64,
    pub recent_errors: u64,
}

impl AuditStats {
    /// The statistics from the counts that could be obtained; a count
    /// that could not is taken as 0.
    pub fn from_counts(total: Option<u64>, logins: Option<usize>, errors: Option<usize>) -> (stats:
        AuditStats)
        ensures
            stats.total_logs == match total {
                Some(n) => n,
                None => 0,
            },
            stats.recent_logins == match logins {
                Some(n) => n as u64,
                None => 0,
            },
            stats.recent_errors == match errors {
                Some(n) => n as u64,
                None => 0,
            },
    {
        AuditStats {
            total_logs: match total {
                Some(n) => n,
                None => 0,
            },
            recent_logins: match logins {
                Some(n) => n as u64,
                None => 0,
            },
            recent_errors: match errors {
                Some(n) => n as u64,
                None => 0,
            },
        }
    }
}

} // verus!
