//! The settings of the system: how stored values are read, how they are
//! grouped for display, and what has to be reloaded after a change.

use crate::rate_limiter::RateLimiterConfig;
use crate::text::{
    lowercased, parse_i32, parse_u64, parsed_i32, parsed_u64, text_equals, to_lowercase,
};
use crate::validation::PasswordPolicy;
use vstd::prelude::*;

verus! {

/// A single setting.
#[derive(Clone, Debug)]
pub struct SettingResponse {
    pub key: String,
    pub value: String,
    pub description: Option<String>,
    pub category: String,
}

/// Settings grouped by category.
#[derive(Clone, Debug)]
pub struct SettingsGrouped {
    pub security: Vec<SettingResponse>,
    pub session: Vec<SettingResponse>,
    pub password: Vec<SettingResponse>,
    pub audit: Vec<SettingResponse>,
}

/// Request to update settings: pairs of key and new value.
#[derive(Clone, Debug)]
pub struct UpdateSettingsRequest {
    pub settings: Vec<(String, String)>,
}

impl UpdateSettingsRequest {
    /// The keys of the settings to update, in the order given.
    pub fn updated_keys(&self) -> (keys: Vec<String>)
        ensures
            keys.len() == self.settings.len(),
            forall|i: int| 0 <= i < keys.len() ==> #[trigger] keys[i] == self.settings[i].0,
    {
        let mut keys: Vec<String> = Vec::new();
        let mut i: usize = 0;
        while i < self.settings.len()
            invariant
                i <= self.settings.len(),
                keys.len() == i,
                forall|j: int| 0 <= j < i ==> #[trigger] keys[j] == self.settings[j].0,
            decreases self.settings.len() - i,
        {
            keys.push(self.settings[i].0.clone());
            i += 1;
        }
        keys
    }

    /// What has to be reloaded once the request is carried out.
    pub fn reload(&self) -> (reload: SettingsReload)
        ensures
            reload == reload_for(self.updated_keys_view()),
    {
        let keys = self.updated_keys();
        assert(keys@ =~= self.updated_keys_view());
        settings_to_reload(&keys)
    }

    /// The keys of the settings to update.
    pub open spec fn updated_keys_view(self) -> Seq<String> {
        Seq::new(self.settings.len() as nat, |i: int| self.settings[i].0)
    }
}

/// The settings that every authenticated user may read.
#[derive(Clone, Copy, Debug, PartialEq, Eq)]
pub struct PublicSettingsResponse {
    pub session_timeout_minutes: i32,
}

/// The settings of one category, in the order given.
pub open spec fn of_category(settings: Seq<SettingResponse>, category: Seq<char>) -> Seq<
    SettingResponse,
> {
    settings.filter(|setting: SettingResponse| setting.category@ == category)
}

proof fn lemma_of_category_push(
    settings: Seq<SettingResponse>,
    setting: SettingResponse,
    category: Seq<char>,
)
    ensures
        of_category(settings.push(setting), category) == if setting.category@ == category {
            of_category(settings, category).push(setting)
        } else {
            of_category(settings, category)
        },
{
    reveal(Seq::filter);
    assert(settings.push(setting).drop_last() =~= settings);
}

proof fn lemma_categories_differ()
    ensures
        "security"@ != "session"@,
        "security"@ != "password"@,
        "security"@ != "audit"@,
        "session"@ != "password"@,
        "session"@ != "audit"@,
        "password"@ != "audit"@,
{
    reveal_strlit("security");
    reveal_strlit("session");
    reveal_strlit("password");
    reveal_strlit("audit");
    assert("security"@.len() == 8 && "session"@.len() == 7 && "password"@.len() == 8
        && "audit"@.len() == 5);
    assert("security"@[0] == 's' && "password"@[0] == 'p');
}

fn copy_of(setting: &SettingResponse) -> (copy: SettingResponse)
    ensures
        copy == *setting,
{
    SettingResponse {
        key: setting.key.clone(),
        value: setting.value.clone(),
        description: match &setting.description {
            Some(text) => Some(text.clone()),
            None => None,
        },
        category: setting.category.clone(),
    }
}

/// Groups settings by category, keeping their order. Settings of unknown
/// categories are left out.
pub fn group_settings(settings: &Vec<SettingResponse>) -> (grouped: SettingsGrouped)
    ensures
        grouped.security@ == of_category(settings@, "security"@),
        grouped.session@ == of_category(settings@, "session"@),
        grouped.password@ == of_category(settings@, "password"@),
        grouped.audit@ == of_category(settings@, "audit"@),
{
    let mut grouped = SettingsGrouped {
        security: Vec::new(),
        session: Vec::new(),
        password: Vec::new(),
        audit: Vec::new(),
    };
    let mut i: usize = 0;
    while i < settings.len()
        invariant
            i <= settings.len(),
            grouped.security@ == of_category(settings@.take(i as int), "security"@),
            grouped.session@ == of_category(settings@.take(i as int), "session"@),
            grouped.password@ == of_category(settings@.take(i as int), "password"@),
            grouped.audit@ == of_category(settings@.take(i as int), "audit"@),
        decreases settings.len() - i,
    {
        let setting = copy_of(&settings[i]);
        proof {
            let seen = settings@.take(i as int);
            assert(settings@.take(i as int + 1) =~= seen.push(setting));
            lemma_of_category_push(seen, setting, "security"@);
            lemma_of_category_push(seen, setting, "session"@);
            lemma_of_category_push(seen, setting, "password"@);
            lemma_of_category_push(seen, setting, "audit"@);
            lemma_categories_differ();
        }
        if text_equals(setting.category.as_str(), "security") {
            grouped.security.push(setting);
        } else if text_equals(setting.category.as_str(), "session") {
            grouped.session.push(setting);
        } else if text_equals(setting.category.as_str(), "password") {
            grouped.password.push(setting);
        } else if text_equals(setting.category.as_str(), "audit") {
            grouped.audit.push(setting);
        }
        i += 1;
    }
    assert(settings@.take(i as int) =~= settings@);
    grouped
}

/// What a stored text says as a truth value: true for "1" and for every
/// spelling of "true" in upper or lower case.
pub open spec fn says_true(value: Seq<char>) -> bool {
    lowercased(value) == "true"@ || value == "1"@
}

/// Reads a truth value from a stored setting; the default where the
/// setting is not stored.
pub fn setting_bool(stored: Option<&str>, default: bool) -> (value: bool)
    ensures
        value == match stored {
            Some(text) => says_true(text@),
            None => default,
        },
{
    match stored {
        Some(text) => {
            let lower = to_lowercase(text);
            text_equals(lower.as_str(), "true") || text_equals(text, "1")
        },
        None => default,
    }
}

/// Reads a number from a stored setting; the default where the setting is
/// not stored or is no number.
pub fn setting_i32(stored: Option<&str>, default: i32) -> (value: i32)
    ensures
        value == match stored {
            Some(text) => match parsed_i32(text@) {
                Some(n) => n,
                None => default as int,
            },
            None => default as int,
        },
{
    match stored {
        Some(text) => match parse_i32(text) {
            Some(n) => n,
            None => default,
        },
        None => default,
    }
}

/// Reads an unsigned number from a stored setting; the default where the
/// setting is not stored or is no number.
pub fn setting_u64(stored: Option<&str>, default: u64) -> (value: u64)
    ensures
        value == match stored {
            Some(text) => match parsed_u64(text@) {
                Some(n) => n,
                None => default as int,
            },
            None => default as int,
        },
{
    match stored {
        Some(text) => match parse_u64(text) {
            Some(n) => n,
            None => default,
        },
        None => default,
    }
}

/// Session timeout where none is stored, in minutes.
pub const DEFAULT_SESSION_TIMEOUT_MINUTES: i32 = 30;

/// The public settings, from the stored session timeout.
pub fn public_settings(stored_timeout: Option<&str>) -> (settings: PublicSettingsResponse)
    ensures
        settings.session_timeout_minutes == match stored_timeout {
            Some(text) => match parsed_i32(text@) {
                Some(n) => n,
                None => DEFAULT_SESSION_TIMEOUT_MINUTES as int,
            },
            None => DEFAULT_SESSION_TIMEOUT_MINUTES as int,
        },
{
    PublicSettingsResponse {
        session_timeout_minutes: setting_i32(stored_timeout, DEFAULT_SESSION_TIMEOUT_MINUTES),
    }
}

/// What has to be reloaded after settings were updated.
#[derive(Clone, Copy, Debug, PartialEq, Eq)]
pub struct SettingsReload {
    pub ip_validation: bool,
    pub rate_limiter: bool,
    pub password_policy: bool,
    pub audit_log_ip: bool,
}

/// Whether some key of the list is `key`.
pub open spec fn has_key(keys: Seq<String>, key: Seq<char>) -> bool {
    exists|i: int| 0 <= i < keys.len() && (#[trigger] keys[i])@ == key
}

/// What the updated keys ask to reload: the validation of addresses and
/// the recording of addresses for their own keys, the rate limiter and the
/// password policy for any of theirs.
pub open spec fn reload_for(keys: Seq<String>) -> SettingsReload {
    SettingsReload {
        ip_validation: has_key(keys, "require_ip_validation"@),
        rate_limiter: has_key(keys, "max_login_attempts"@) || has_key(
            keys,
            "block_duration_minutes"@,
        ) || has_key(keys, "attempt_window_minutes"@),
        password_policy: has_key(keys, "password_min_length"@) || has_key(
            keys,
            "password_require_uppercase"@,
        ) || has_key(keys, "password_require_lowercase"@) || has_key(
            keys,
            "password_require_special"@,
        ),
        audit_log_ip: has_key(keys, "audit_log_ip"@),
    }
}

/// Whether a list of keys holds a key.
pub fn contains_key(keys: &Vec<String>, key: &str) -> (found: bool)
    ensures
        found == has_key(keys@, key@),
{
    let mut i: usize = 0;
    while i < keys.len()
        invariant
            i <= keys.len(),
            forall|j: int| 0 <= j < i ==> (#[trigger] keys[j])@ != key@,
        decreases keys.len() - i,
    {
        if text_equals(keys[i].as_str(), key) {
            return true;
        }
        i += 1;
    }
    false
}

/// Decides what to reload after the settings with the given keys were
/// updated.
pub fn settings_to_reload(updated_keys: &Vec<String>) -> (reload: SettingsReload)
    ensures
        reload == reload_for(updated_keys@),
{
    SettingsReload {
        ip_validation: contains_key(updated_keys, "require_ip_validation"),
        rate_limiter: contains_key(updated_keys, "max_login_attempts") || contains_key(
            updated_keys,
            "block_duration_minutes",
        ) || contains_key(updated_keys, "attempt_window_minutes"),
        password_policy: contains_key(updated_keys, "password_min_length") || contains_key(
            updated_keys,
            "password_require_uppercase",
        ) || contains_key(updated_keys, "password_require_lowercase") || contains_key(
            updated_keys,
            "password_require_special",
        ),
        audit_log_ip: contains_key(updated_keys, "audit_log_ip"),
    }
}

/// A signed number read as an unsigned one of `bits` bits: negative
/// numbers wrap around.
pub open spec fn wrapped(n: int, bits: nat) -> int {
    if n < 0 {
        n + vstd::arithmetic::power2::pow2(bits)
    } else {
        n
    }
}

/// The parameters of the rate limiter from the stored settings: the
/// maximum of attempts, and the durations of the block and of the window
/// in minutes. Negative numbers wrap around when read as unsigned.
pub fn rate_limiter_config(max_attempts: i32, block_minutes: i32, window_minutes: i32) -> (config:
    RateLimiterConfig)
    requires
        i32::MIN <= block_minutes * 60 <= i32::MAX,
        i32::MIN <= window_minutes * 60 <= i32::MAX,
    ensures
        config.max_attempts == wrapped(max_attempts as int, 32),
        config.block_duration_secs == wrapped(block_minutes * 60, 64),
        config.attempt_window_secs == wrapped(window_minutes * 60, 64),
{
    proof {
        vstd::arithmetic::power2::lemma2_to64();
    }
    RateLimiterConfig {
        max_attempts: wrap_u32(max_attempts),
        block_duration_secs: wrap_u64(block_minutes * 60),
        attempt_window_secs: wrap_u64(window_minutes * 60),
    }
}

fn wrap_u32(n: i32) -> (wrapped: u32)
    ensures
        wrapped == if n < 0 {
            n + 0x1_0000_0000
        } else {
            n as int
        },
{
    if n < 0 {
        (n as i64 + 0x1_0000_0000) as u32
    } else {
        n as u32
    }
}

fn wrap_u64(n: i32) -> (wrapped: u64)
    ensures
        wrapped == if n < 0 {
            n + 0x1_0000_0000_0000_0000
        } else {
            n as int
        },
{
    if n < 0 {
        (n as i128 + 0x1_0000_0000_0000_0000) as u64
    } else {
        n as u64
    }
}

/// The password policy from the stored settings. A negative minimum
/// length wraps around when read as unsigned, so that no password meets
/// it.
pub fn password_policy(
    min_length: i32,
    require_uppercase: bool,
    require_lowercase: bool,
    require_special: bool,
) -> (policy: PasswordPolicy)
    ensures
        policy.min_length == if min_length < 0 {
            min_length + usize::MAX + 1
        } else {
            min_length as int
        },
        policy.max_length == 128,
        policy.require_uppercase == require_uppercase,
        policy.require_lowercase == require_lowercase,
        policy.require_special == require_special,
{
    let min: usize = if min_length < 0 {
        usize::MAX - ((-(min_length as i64) - 1) as usize)
    } else {
        min_length as usize
    };
    PasswordPolicy {
        min_length: min,
        max_length: 128,
        require_uppercase,
        require_lowercase,
        require_special,
    }
}

} // verus!
