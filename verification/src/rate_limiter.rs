//! Limiting failed login attempts per client address.
//!
//! Addresses are given as integers and times as milliseconds on a clock
//! that never runs backwards; the caller reads both.

use std::collections::HashMap;
use vstd::prelude::*;

verus! {

broadcast use vstd::std_specs::hash::group_hash_axioms;

/// Failed attempts after which an address is blocked, by default.
pub const DEFAULT_MAX_ATTEMPTS: u32 = 5;

/// How long an address stays blocked, by default: 5 minutes.
pub const DEFAULT_BLOCK_DURATION_SECS: u64 = 300;

/// The window in which failed attempts are counted, by default: 1 minute.
pub const DEFAULT_ATTEMPT_WINDOW_SECS: u64 = 60;

/// The parameters of the rate limiter.
#[derive(Clone, Copy, Debug, PartialEq, Eq)]
pub struct RateLimiterConfig {
    /// Failed attempts after which an address is blocked.
    pub max_attempts: u32,
    /// How long an address stays blocked, in seconds.
    pub block_duration_secs: u64,
    /// The window in which failed attempts are counted, in seconds.
    pub attempt_window_secs: u64,
}

impl Default for RateLimiterConfig {
    fn default() -> (config: RateLimiterConfig)
        ensures
            config == default_config(),
    {
        RateLimiterConfig {
            max_attempts: DEFAULT_MAX_ATTEMPTS,
            block_duration_secs: DEFAULT_BLOCK_DURATION_SECS,
            attempt_window_secs: DEFAULT_ATTEMPT_WINDOW_SECS,
        }
    }
}

/// Five attempts in a minute block an address for five minutes.
pub open spec fn default_config() -> RateLimiterConfig {
    RateLimiterConfig {
        max_attempts: DEFAULT_MAX_ATTEMPTS,
        block_duration_secs: DEFAULT_BLOCK_DURATION_SECS,
        attempt_window_secs: DEFAULT_ATTEMPT_WINDOW_SECS,
    }
}

/// A number of seconds in milliseconds.
pub open spec fn millis(secs: u64) -> int {
    secs * 1000
}

/// Entries above which `maybe_cleanup` cleans up.
pub const CLEANUP_THRESHOLD: usize = 1000;

/// The login attempts of one address.
#[derive(Clone, Copy, Debug, PartialEq, Eq)]
pub struct LoginAttempt {
    pub attempts: u32,
    pub first_attempt: u64,
    pub blocked_until: Option<u64>,
}

/// The record of an address that has not failed yet.
pub open spec fn fresh_attempt(now: u64) -> LoginAttempt {
    LoginAttempt { attempts: 0, first_attempt: now, blocked_until: None }
}

/// Whether the record says that its address is blocked at `now`.
pub open spec fn entry_is_blocked(entry: LoginAttempt, now: u64) -> bool {
    entry.blocked_until is Some && now < entry.blocked_until->0
}

/// Whole seconds for which a record still blocks its address, if it does.
pub open spec fn entry_block_remaining(entry: LoginAttempt, now: u64) -> Option<u64> {
    if entry_is_blocked(entry, now) {
        Some(((entry.blocked_until->0 - now) / 1000) as u64)
    } else {
        None
    }
}

/// The time that has passed since `earlier`, none if `earlier` lies ahead.
pub open spec fn elapsed(now: u64, earlier: u64) -> int {
    if now >= earlier {
        now - earlier
    } else {
        0
    }
}

/// The end of a block that starts at `now`.
pub open spec fn block_end(now: u64, config: RateLimiterConfig) -> u64 {
    if now + millis(config.block_duration_secs) > u64::MAX {
        u64::MAX
    } else {
        (now + millis(config.block_duration_secs)) as u64
    }
}

/// A record after one more failed attempt at `now`. A block that still
/// holds stays as it is. Otherwise an expired block is lifted, the attempt
/// is counted (anew if the window has passed), and the attempt that
/// reaches the maximum blocks the address.
pub open spec fn after_failure(
    entry: LoginAttempt,
    now: u64,
    config: RateLimiterConfig,
) -> LoginAttempt {
    if entry_is_blocked(entry, now) {
        entry
    } else {
        let counted: u32 = if entry.blocked_until is Some {
            0
        } else {
            entry.attempts
        };
        let attempts: u32 = if elapsed(now, entry.first_attempt) > millis(config.attempt_window_secs) {
            1
        } else if counted < u32::MAX {
            (counted + 1) as u32
        } else {
            counted
        };
        let first_attempt = if elapsed(now, entry.first_attempt) > millis(config.attempt_window_secs) {
            now
        } else {
            entry.first_attempt
        };
        LoginAttempt {
            attempts,
            first_attempt,
            blocked_until: if attempts >= config.max_attempts {
                Some(block_end(now, config))
            } else {
                None
            },
        }
    }
}

/// Whether a cleanup at `now` keeps a record: while its block holds, or,
/// if it does not block, for twice the duration of a block after its
/// first attempt.
pub open spec fn entry_is_kept(entry: LoginAttempt, now: u64, config: RateLimiterConfig) -> bool {
    if entry.blocked_until is Some {
        now < entry.blocked_until->0
    } else {
        elapsed(now, entry.first_attempt) < 2 * millis(config.block_duration_secs)
    }
}

/// Attempts that a record leaves before its address is blocked.
pub open spec fn entry_remaining_attempts(entry: LoginAttempt, config: RateLimiterConfig) -> u32 {
    if entry.blocked_until is Some {
        0
    } else if entry.attempts >= config.max_attempts {
        0
    } else {
        (config.max_attempts - entry.attempts) as u32
    }
}

/// Decides whether a cleanup at `now` keeps a record.
pub fn keeps_entry(entry: &LoginAttempt, now: u64, config: &RateLimiterConfig) -> (kept: bool)
    ensures
        kept == entry_is_kept(*entry, now, *config),
{
    match entry.blocked_until {
        Some(until) => now < until,
        None => {
            let passed: u64 = if now >= entry.first_attempt {
                now - entry.first_attempt
            } else {
                0
            };
            (passed as u128) < 2 * (config.block_duration_secs as u128 * 1000)
        },
    }
}

/// Calls `HashMap::retain` with `keeps_entry` as the predicate.
///
/// Trusted: exactly the entries for which the predicate holds stay, with
/// their values unchanged.
#[verifier::external_body]
fn retain_kept(
    attempts: &mut HashMap<u128, LoginAttempt>,
    now: u64,
    config: &RateLimiterConfig,
)
    ensures
        forall|ip: u128| #[trigger]
            final(attempts)@.contains_key(ip) <==> old(attempts)@.contains_key(ip)
                && entry_is_kept(old(attempts)@[ip], now, *config),
        forall|ip: u128| #[trigger]
            final(attempts)@.contains_key(ip) ==> final(attempts)@[ip] == old(attempts)@[ip],
{
    attempts.retain(|_, attempt| keeps_entry(attempt, now, config));
}

/// Rate limiter for login attempts.
pub struct RateLimiter {
    config: RateLimiterConfig,
    attempts: HashMap<u128, LoginAttempt>,
}

/// What a rate limiter holds: the parameters in force and the record of
/// each address that has one.
pub struct LimiterView {
    pub config: RateLimiterConfig,
    pub records: Map<u128, LoginAttempt>,
}

impl View for RateLimiter {
    type V = LimiterView;

    closed spec fn view(&self) -> LimiterView {
        LimiterView { config: self.config, records: self.attempts@ }
    }
}

/// The record of an address, or that of an address without failures.
pub open spec fn entry_of(records: Map<u128, LoginAttempt>, ip: u128, now: u64) -> LoginAttempt {
    if records.contains_key(ip) {
        records[ip]
    } else {
        fresh_attempt(now)
    }
}

impl Default for RateLimiter {
    fn default() -> (limiter: RateLimiter)
        ensures
            limiter.records() == Map::<u128, LoginAttempt>::empty(),
            limiter.parameters() == default_config(),
    {
        RateLimiter::new()
    }
}

impl RateLimiter {
    /// The parameters in force.
    pub open spec fn parameters(&self) -> RateLimiterConfig {
        self@.config
    }

    /// The record of each address that has one.
    pub open spec fn records(&self) -> Map<u128, LoginAttempt> {
        self@.records
    }

    /// A limiter without records, with the default parameters.
    pub fn new() -> (limiter: RateLimiter)
        ensures
            limiter.records() == Map::<u128, LoginAttempt>::empty(),
            limiter.parameters() == default_config(),
    {
        RateLimiter { config: RateLimiterConfig::default(), attempts: HashMap::new() }
    }

    /// The parameters in force.
    pub fn config(&self) -> (config: RateLimiterConfig)
        ensures
            config == self.parameters(),
    {
        self.config
    }

    /// Puts new parameters in force; the records stay.
    pub fn update_config(&mut self, config: RateLimiterConfig)
        ensures
            final(self).parameters() == config,
            final(self).records() == old(self).records(),
    {
        self.config = config;
    }

    /// The record of an address, if it has one.
    pub fn attempt(&self, ip: u128) -> (entry: Option<LoginAttempt>)
        ensures
            match entry {
                Some(found) => self.records().contains_key(ip) && self.records()[ip] == found,
                None => !self.records().contains_key(ip),
            },
    {
        match self.attempts.get(&ip) {
            Some(found) => Some(*found),
            None => None,
        }
    }

    /// Number of addresses with a record.
    pub fn len(&self) -> (count: usize)
        ensures
            count == self.records().len(),
    {
        self.attempts.len()
    }

    /// Checks whether an address is blocked.
    pub fn is_blocked(&self, ip: u128, now: u64) -> (blocked: bool)
        ensures
            blocked == (self.records().contains_key(ip) && entry_is_blocked(
                self.records()[ip],
                now,
            )),
    {
        match self.attempt(ip) {
            Some(entry) => match entry.blocked_until {
                Some(until) => now < until,
                None => false,
            },
            None => false,
        }
    }

    /// The remaining time of a block, in whole seconds.
    pub fn get_block_remaining(&self, ip: u128, now: u64) -> (remaining: Option<u64>)
        ensures
            remaining == if self.records().contains_key(ip) {
                entry_block_remaining(self.records()[ip], now)
            } else {
                None
            },
    {
        match self.attempt(ip) {
            Some(entry) => match entry.blocked_until {
                Some(until) => {
                    if now < until {
                        Some((until - now) / 1000)
                    } else {
                        None
                    }
                },
                None => None,
            },
            None => None,
        }
    }

    /// Checks whether an address is blocked and returns the remaining
    /// time of the block with it.
    pub fn check_block_status(&self, ip: u128, now: u64) -> (status: (bool, Option<u64>))
        ensures
            status.0 == (self.records().contains_key(ip) && entry_is_blocked(
                self.records()[ip],
                now,
            )),
            status.1 == if self.records().contains_key(ip) {
                entry_block_remaining(self.records()[ip], now)
            } else {
                None
            },
    {
        let remaining = self.get_block_remaining(ip, now);
        (remaining.is_some(), remaining)
    }

    /// Records a failed login attempt and tells whether the address is
    /// blocked after it.
    pub fn record_failed_attempt(&mut self, ip: u128, now: u64) -> (blocked: bool)
        ensures
            final(self).parameters() == old(self).parameters(),
            final(self).records() == old(self).records().insert(
                ip,
                after_failure(entry_of(old(self).records(), ip, now), now, old(self).parameters()),
            ),
            blocked == (after_failure(
                entry_of(old(self).records(), ip, now),
                now,
                old(self).parameters(),
            ).blocked_until is Some),
    {
        let mut entry: LoginAttempt = match self.attempt(ip) {
            Some(found) => found,
            None => LoginAttempt { attempts: 0, first_attempt: now, blocked_until: None },
        };
        match entry.blocked_until {
            Some(until) => {
                if now >= until {
                    entry.attempts = 0;
                    entry.blocked_until = None;
                } else {
                    self.attempts.insert(ip, entry);
                    return true;
                }
            },
            None => {},
        }
        let passed: u64 = if now >= entry.first_attempt {
            now - entry.first_attempt
        } else {
            0
        };
        if (passed as u128) > self.config.attempt_window_secs as u128 * 1000 {
            entry.attempts = 1;
            entry.first_attempt = now;
        } else if entry.attempts < u32::MAX {
            entry.attempts = entry.attempts + 1;
        }
        let blocked: bool = entry.attempts >= self.config.max_attempts;
        if blocked {
            let end: u128 = now as u128 + self.config.block_duration_secs as u128 * 1000;
            entry.blocked_until = Some(
                if end > u64::MAX as u128 {
                    u64::MAX
                } else {
                    end as u64
                },
            );
        }
        self.attempts.insert(ip, entry);
        blocked
    }

    /// Records a successful login: the record of the address is dropped.
    pub fn record_success(&mut self, ip: u128)
        ensures
            final(self).parameters() == old(self).parameters(),
            final(self).records() == old(self).records().remove(ip),
    {
        self.attempts.remove(&ip);
    }

    /// Drops the records that are no longer needed: expired blocks and
    /// attempts older than twice the duration of a block.
    pub fn cleanup_old_entries(&mut self, now: u64)
        ensures
            final(self).parameters() == old(self).parameters(),
            forall|ip: u128| #[trigger]
                final(self).records().contains_key(ip) <==> old(self).records().contains_key(ip)
                    && entry_is_kept(old(self).records()[ip], now, old(self).parameters()),
            forall|ip: u128| #[trigger]
                final(self).records().contains_key(ip) ==> final(self).records()[ip] == old(
                    self,
                ).records()[ip],
    {
        let config = self.config;
        retain_kept(&mut self.attempts, now, &config);
    }

    /// Attempts that remain before the address is blocked.
    pub fn get_remaining_attempts(&self, ip: u128) -> (remaining: u32)
        ensures
            remaining == if self.records().contains_key(ip) {
                entry_remaining_attempts(self.records()[ip], self.parameters())
            } else {
                self.parameters().max_attempts
            },
    {
        match self.attempt(ip) {
            Some(entry) => {
                if entry.blocked_until.is_some() {
                    0
                } else if entry.attempts >= self.config.max_attempts {
                    0
                } else {
                    self.config.max_attempts - entry.attempts
                }
            },
            None => self.config.max_attempts,
        }
    }

    /// Cleans up when more than a thousand addresses have a record, and
    /// tells whether it did.
    pub fn maybe_cleanup(&mut self, now: u64) -> (cleaned: bool)
        ensures
            final(self).parameters() == old(self).parameters(),
            cleaned == (old(self).records().len() > CLEANUP_THRESHOLD),
            !cleaned ==> final(self).records() == old(self).records(),
            cleaned ==> forall|ip: u128| #[trigger]
                final(self).records().contains_key(ip) <==> old(self).records().contains_key(ip)
                    && entry_is_kept(old(self).records()[ip], now, old(self).parameters()),
            cleaned ==> forall|ip: u128| #[trigger]
                final(self).records().contains_key(ip) ==> final(self).records()[ip] == old(
                    self,
                ).records()[ip],
    {
        if self.len() > CLEANUP_THRESHOLD {
            self.cleanup_old_entries(now);
            true
        } else {
            false
        }
    }
}

} // verus!
