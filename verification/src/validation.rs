//! Validation of user input, against injection and malformed data.

use crate::patterns::{regex_is_match, regex_search};
use crate::text::{
    char_is_alphanumeric, char_is_lowercase, char_is_numeric, char_is_uppercase, is_alphanumeric,
    is_lowercase, is_numeric, is_uppercase, push_char, trim_text, trimmed,
};
use vstd::prelude::*;
use vstd::utf8::encode_utf8;

verus! {

/// User names: letters, digits and underscores.
pub const USERNAME_PATTERN: &'static str = "^[a-zA-Z0-9_]+$";

/// Names of persons: letters, Spanish accented letters and white space.
pub const NAME_PATTERN: &'static str = "^[a-zA-ZáéíóúÁÉÍÓÚüÜñÑ\\s]+$";

/// E-mail addresses.
pub const EMAIL_PATTERN: &'static str = "^[a-zA-Z0-9._%+-]+@[a-zA-Z0-9.-]+\\.[a-zA-Z]{2,}$";

/// Names of subjects: letters, digits, white space, hyphens, dots and
/// parentheses.
pub const SUBJECT_NAME_PATTERN: &'static str = "^[a-zA-Z0-9áéíóúÁÉÍÓÚüÜñÑ\\s\\-\\.\\(\\)]+$";

/// Length of a text in bytes of its UTF-8 encoding.
pub open spec fn utf8_len(text: Seq<char>) -> nat {
    encode_utf8(text).len()
}

/// The rule common to the pattern checks: the length lies within the
/// bounds and the pattern was found to match.
pub open spec fn accepted(length: int, min: int, max: int, found: Option<bool>) -> bool {
    min <= length <= max && found == Some(true)
}

/// A user name is valid when it has 3 to 50 bytes and matches the pattern
/// of user names.
pub open spec fn username_is_valid(username: Seq<char>) -> bool {
    accepted(utf8_len(username) as int, 3, 50, regex_search(USERNAME_PATTERN@, username))
}

/// A name is valid when, trimmed, it has 2 to 100 bytes and matches the
/// pattern of names.
pub open spec fn name_is_valid(name: Seq<char>) -> bool {
    accepted(utf8_len(trimmed(name)) as int, 2, 100, regex_search(NAME_PATTERN@, trimmed(name)))
}

/// An e-mail address is valid when, trimmed, it has at most 254 bytes and
/// matches the pattern of addresses.
pub open spec fn email_is_valid(email: Seq<char>) -> bool {
    accepted(utf8_len(trimmed(email)) as int, 0, 254, regex_search(EMAIL_PATTERN@, trimmed(email)))
}

/// A subject name is valid when, trimmed, it has 2 to 200 bytes and
/// matches the pattern of subject names.
pub open spec fn subject_name_is_valid(name: Seq<char>) -> bool {
    accepted(
        utf8_len(trimmed(name)) as int,
        2,
        200,
        regex_search(SUBJECT_NAME_PATTERN@, trimmed(name)),
    )
}

/// The length of a text in bytes.
pub fn byte_len(text: &str) -> (length: usize)
    ensures
        length == utf8_len(text@),
{
    text.as_bytes().len()
}

/// Decides a pattern check from the length of the text and the outcome of
/// the match.
pub fn accepts(length: usize, min: usize, max: usize, found: Option<bool>) -> (valid: bool)
    ensures
        valid == accepted(length as int, min as int, max as int, found),
{
    if length < min || length > max {
        return false;
    }
    match found {
        Some(matched) => matched,
        None => false,
    }
}

/// Validates that a user name only holds the characters allowed
/// (alphanumeric and `_`) and has 3 to 50 bytes.
pub fn is_valid_username(username: &str) -> (valid: bool)
    ensures
        valid == username_is_valid(username@),
{
    accepts(byte_len(username), 3, 50, regex_is_match(USERNAME_PATTERN, username))
}

/// Validates that a name only holds letters and spaces.
pub fn is_valid_name(name: &str) -> (valid: bool)
    ensures
        valid == name_is_valid(name@),
{
    let inner = trim_text(name);
    accepts(byte_len(inner), 2, 100, regex_is_match(NAME_PATTERN, inner))
}

/// Validates the format of an e-mail address.
pub fn is_valid_email(email: &str) -> (valid: bool)
    ensures
        valid == email_is_valid(email@),
{
    let inner = trim_text(email);
    accepts(byte_len(inner), 0, 254, regex_is_match(EMAIL_PATTERN, inner))
}

/// Validates the name of a subject.
pub fn is_valid_subject_name(name: &str) -> (valid: bool)
    ensures
        valid == subject_name_is_valid(name@),
{
    let inner = trim_text(name);
    accepts(byte_len(inner), 2, 200, regex_is_match(SUBJECT_NAME_PATTERN, inner))
}

/// What is asked of a password: bounds on its length in bytes, and which
/// kinds of characters it must hold.
#[derive(Clone, Copy, Debug, PartialEq, Eq)]
pub struct PasswordPolicy {
    pub min_length: usize,
    pub max_length: usize,
    pub require_uppercase: bool,
    pub require_lowercase: bool,
    /// Asks for a character that is a letter or a number.
    pub require_special: bool,
}

/// 8 to 128 bytes, with every kind of character asked for.
pub open spec fn default_policy() -> PasswordPolicy {
    PasswordPolicy {
        min_length: 8,
        max_length: 128,
        require_uppercase: true,
        require_lowercase: true,
        require_special: true,
    }
}

impl Default for PasswordPolicy {
    fn default() -> (policy: PasswordPolicy)
        ensures
            policy == default_policy(),
    {
        PasswordPolicy {
            min_length: 8,
            max_length: 128,
            require_uppercase: true,
            require_lowercase: true,
            require_special: true,
        }
    }
}

/// Whether some character of the text is of a kind.
pub open spec fn has_char(text: Seq<char>, kind: spec_fn(char) -> bool) -> bool {
    exists|i: int| 0 <= i < text.len() && kind(#[trigger] text[i])
}

/// Whether some character of the text is an upper-case letter.
pub open spec fn has_uppercase(text: Seq<char>) -> bool {
    has_char(text, |c: char| char_is_uppercase(c))
}

/// Whether some character of the text is a lower-case letter.
pub open spec fn has_lowercase(text: Seq<char>) -> bool {
    has_char(text, |c: char| char_is_lowercase(c))
}

/// Whether some character of the text is a letter or a number.
pub open spec fn has_alphanumeric(text: Seq<char>) -> bool {
    has_char(text, |c: char| char_is_alphanumeric(c))
}

/// Whether some character of the text is a number.
pub open spec fn has_number(text: Seq<char>) -> bool {
    has_char(text, |c: char| char_is_numeric(c))
}

/// A password meets a policy when its length lies within the policy's
/// bounds and it holds a number and each kind of character that the
/// policy asks for.
pub open spec fn password_meets(password: Seq<char>, policy: PasswordPolicy) -> bool {
    &&& policy.min_length <= utf8_len(password) <= policy.max_length
    &&& policy.require_lowercase ==> has_lowercase(password)
    &&& policy.require_uppercase ==> has_uppercase(password)
    &&& policy.require_special ==> has_alphanumeric(password)
    &&& has_number(password)
}

/// Validates a password against a policy: too short or too long a
/// password is rejected, and so is one without the required kinds of
/// characters.
pub fn is_valid_password_with(password: &str, policy: &PasswordPolicy) -> (valid: bool)
    ensures
        valid == password_meets(password@, *policy),
{
    let length: usize = byte_len(password);
    if length < policy.min_length || length > policy.max_length {
        return false;
    }
    let n: usize = password.unicode_len();
    let mut upper: bool = false;
    let mut lower: bool = false;
    let mut alphanumeric: bool = false;
    let mut number: bool = false;
    let mut i: usize = 0;
    while i < n
        invariant
            n == password@.len(),
            i <= n,
            upper == has_uppercase(password@.take(i as int)),
            lower == has_lowercase(password@.take(i as int)),
            alphanumeric == has_alphanumeric(password@.take(i as int)),
            number == has_number(password@.take(i as int)),
        decreases n - i,
    {
        let c: char = password.get_char(i);
        let ghost before = password@.take(i as int);
        let ghost after = password@.take(i as int + 1);
        proof {
            assert(after =~= before.push(c));
            lemma_has_char_push(before, c, |c: char| char_is_uppercase(c));
            lemma_has_char_push(before, c, |c: char| char_is_lowercase(c));
            lemma_has_char_push(before, c, |c: char| char_is_alphanumeric(c));
            lemma_has_char_push(before, c, |c: char| char_is_numeric(c));
        }
        upper = upper || is_uppercase(c);
        lower = lower || is_lowercase(c);
        alphanumeric = alphanumeric || is_alphanumeric(c);
        number = number || is_numeric(c);
        i += 1;
    }
    assert(password@.take(n as int) =~= password@);
    (lower || !policy.require_lowercase) && (upper || !policy.require_uppercase) && (alphanumeric
        || !policy.require_special) && number
}

proof fn lemma_has_char_push(text: Seq<char>, c: char, kind: spec_fn(char) -> bool)
    ensures
        has_char(text.push(c), kind) == (has_char(text, kind) || kind(c)),
{
    let longer = text.push(c);
    if has_char(text, kind) {
        let i = choose|i: int| 0 <= i < text.len() && kind(#[trigger] text[i]);
        assert(kind(longer[i]));
    }
    if kind(c) {
        assert(kind(longer[text.len() as int]));
    }
    if has_char(longer, kind) {
        let i = choose|i: int| 0 <= i < longer.len() && kind(#[trigger] longer[i]);
        if i < text.len() {
            assert(kind(text[i]));
        }
    }
}

/// Validates a password against the default policy: 8 to 128 bytes.
pub fn is_valid_password(password: &str) -> (valid: bool)
    ensures
        valid == password_meets(password@, default_policy()),
{
    let policy = PasswordPolicy::default();
    is_valid_password_with(password, &policy)
}

/// Whether a character is dropped from sanitized text: the characters
/// that are dangerous in SQL or HTML.
pub open spec fn is_dangerous_char(c: char) -> bool {
    ||| c == '<'
    ||| c == '>'
    ||| c == '\''
    ||| c == '"'
    ||| c == '`'
    ||| c == ';'
    ||| c == '\\'
    ||| c == '{'
    ||| c == '}'
    ||| c == '['
    ||| c == ']'
    ||| c == '|'
    ||| c == '&'
    ||| c == '$'
}

/// The text with its dangerous characters dropped and then trimmed.
pub open spec fn sanitized(input: Seq<char>) -> Seq<char> {
    trimmed(input.filter(|c: char| !is_dangerous_char(c)))
}

fn is_dangerous(c: char) -> (dangerous: bool)
    ensures
        dangerous == is_dangerous_char(c),
{
    c == '<' || c == '>' || c == '\'' || c == '"' || c == '`' || c == ';' || c == '\\' || c == '{'
        || c == '}' || c == '[' || c == ']' || c == '|' || c == '&' || c == '$'
}

/// Sanitizes text by removing the characters that are dangerous in SQL or
/// HTML, and trims the result.
pub fn sanitize_text(input: &str) -> (clean: String)
    ensures
        clean@ == sanitized(input@),
{
    let ghost keep = |c: char| !is_dangerous_char(c);
    let n: usize = input.unicode_len();
    let mut kept = String::new();
    let mut i: usize = 0;
    while i < n
        invariant
            n == input@.len(),
            i <= n,
            keep == (|c: char| !is_dangerous_char(c)),
            kept@ == input@.take(i as int).filter(keep),
        decreases n - i,
    {
        let c: char = input.get_char(i);
        proof {
            assert(input@.take(i as int + 1) =~= input@.take(i as int).push(c));
            lemma_filter_push(input@.take(i as int), c, keep);
        }
        if !is_dangerous(c) {
            push_char(&mut kept, c);
        }
        i += 1;
    }
    assert(input@.take(n as int) =~= input@);
    String::from_str(trim_text(kept.as_str()))
}

proof fn lemma_filter_push(text: Seq<char>, c: char, keep: spec_fn(char) -> bool)
    ensures
        text.push(c).filter(keep) == if keep(c) {
            text.filter(keep).push(c)
        } else {
            text.filter(keep)
        },
{
    reveal(Seq::filter);
    assert(text.push(c).drop_last() =~= text);
}

/// Result of a validation, with the message of the error if any.
#[derive(Clone, Debug)]
pub struct ValidationResult {
    pub valid: bool,
    pub error: Option<String>,
}

impl ValidationResult {
    /// The result reports the given error, or success where there is
    /// none.
    pub open spec fn reports(self, error: Option<Seq<char>>) -> bool {
        match error {
            Some(message) => !self.valid && self.error is Some && self.error->0@ == message,
            None => self.valid && self.error is None,
        }
    }

    pub fn ok() -> (result: ValidationResult)
        ensures
            result.reports(None),
    {
        ValidationResult { valid: true, error: None }
    }

    pub fn error(msg: &str) -> (result: ValidationResult)
        ensures
            result.reports(Some(msg@)),
    {
        ValidationResult { valid: false, error: Some(String::from_str(msg)) }
    }
}

/// Message for an invalid user name.
pub const INVALID_USERNAME: &'static str = "Nombre de usuario inválido";

/// Message for an invalid name.
pub const INVALID_NAME: &'static str = "Nombre inválido";

/// Message for an invalid e-mail address.
pub const INVALID_EMAIL: &'static str = "Email inválido";

/// Message for an invalid password.
pub const INVALID_PASSWORD: &'static str =
    "Contraseña inválida (mínimo 8 caracteres, mayúsculas, minúsculas y caracteres especiales)";

/// Message for an invalid subject name.
pub const INVALID_SUBJECT_NAME: &'static str = "Nombre de asignatura inválido";

/// The error in the data of a new user, if any: the first of user name,
/// name, e-mail address and password that is invalid gives the message.
pub open spec fn new_user_error(
    username: Seq<char>,
    name: Seq<char>,
    email: Seq<char>,
    password: Seq<char>,
) -> Option<Seq<char>> {
    if !username_is_valid(username) {
        Some(INVALID_USERNAME@)
    } else if !name_is_valid(name) {
        Some(INVALID_NAME@)
    } else if !email_is_valid(email) {
        Some(INVALID_EMAIL@)
    } else if !password_meets(password, default_policy()) {
        Some(INVALID_PASSWORD@)
    } else {
        None
    }
}

/// The error in the data of a profile, if any: name, then e-mail address.
pub open spec fn profile_error(name: Seq<char>, email: Seq<char>) -> Option<Seq<char>> {
    if !name_is_valid(name) {
        Some(INVALID_NAME@)
    } else if !email_is_valid(email) {
        Some(INVALID_EMAIL@)
    } else {
        None
    }
}

/// The error in the name of a subject, if any.
pub open spec fn subject_error(name: Seq<char>) -> Option<Seq<char>> {
    if !subject_name_is_valid(name) {
        Some(INVALID_SUBJECT_NAME@)
    } else {
        None
    }
}

/// Validates the data of a new user.
pub fn validate_new_user(username: &str, name: &str, email: &str, password: &str) -> (result:
    ValidationResult)
    ensures
        result.reports(new_user_error(username@, name@, email@, password@)),
{
    if !is_valid_username(username) {
        return ValidationResult::error(INVALID_USERNAME);
    }
    if !is_valid_name(name) {
        return ValidationResult::error(INVALID_NAME);
    }
    if !is_valid_email(email) {
        return ValidationResult::error(INVALID_EMAIL);
    }
    if !is_valid_password(password) {
        return ValidationResult::error(INVALID_PASSWORD);
    }
    ValidationResult::ok()
}

/// Validates the data of a profile.
pub fn validate_profile(name: &str, email: &str) -> (result: ValidationResult)
    ensures
        result.reports(profile_error(name@, email@)),
{
    if !is_valid_name(name) {
        return ValidationResult::error(INVALID_NAME);
    }
    if !is_valid_email(email) {
        return ValidationResult::error(INVALID_EMAIL);
    }
    ValidationResult::ok()
}

/// Validates the name of a subject.
pub fn validate_subject(name: &str) -> (result: ValidationResult)
    ensures
        result.reports(subject_error(name@)),
{
    if !is_valid_subject_name(name) {
        return ValidationResult::error(INVALID_SUBJECT_NAME);
    }
    ValidationResult::ok()
}

} // verus!
