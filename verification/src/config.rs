use vstd::prelude::*;
use core::time::Duration;
use crate::text::{
    eq_ignoring_ascii_case, parse_u32, parse_u64, parse_unsigned, same_ignoring_ascii_case,
    str_eq_ignore_ascii_case,
    trim_end_slashes, trim_trailing_slashes,
};

verus! {

/// How many message ids the duplicate filter remembers unless told otherwise.
pub const DEFAULT_IDEMPOTENCE_MAX_SIZE: usize = 1000;

/// How many handlers may run at the same time unless told otherwise.
pub const DEFAULT_HANDLER_WORKERS: usize = 10;

/// Shortest wait between reconnection attempts, in milliseconds, unless the
/// environment sets it.
pub const DEFAULT_RECONNECTION_DELAY_MS: u64 = 2000;

/// Longest wait between reconnection attempts, in milliseconds, unless the
/// environment sets it.
pub const DEFAULT_RECONNECTION_DELAY_MAX_MS: u64 = 10000;

/// The largest number of reconnection attempts that the socket client accepts.
pub const MAX_RECONNECT_ATTEMPTS: u32 = 255;

/// The values of the environment variables that tune reconnection, each one
/// `None` where the variable is unset or does not hold valid Unicode.
#[derive(Debug, Clone)]
pub struct ReconnectionEnv {
    /// `PUBSUB_RECONNECTION_ENABLED`
    pub enabled: Option<String>,
    /// `PUBSUB_RECONNECTION_ATTEMPTS`
    pub attempts: Option<String>,
    /// `PUBSUB_RECONNECTION_DELAY_MS`
    pub delay_ms: Option<String>,
    /// `PUBSUB_RECONNECTION_DELAY_MAX_MS`
    pub delay_max_ms: Option<String>,
}

/// The text of an optional string.
pub open spec fn opt_text(o: Option<String>) -> Option<Seq<char>> {
    match o {
        Some(s) => Some(s@),
        None => None,
    }
}

/// What `Duration::as_millis` returns: the whole milliseconds in `d`.
pub uninterp spec fn duration_millis(d: Duration) -> int;

/// What `Duration::from_millis` returns for `ms`.
pub uninterp spec fn millis_duration(ms: u64) -> Duration;

/// `<Duration as Clone>::clone`; `Duration` is `Copy`, so the copy equals
/// the original.
pub assume_specification[ <core::time::Duration as Clone>::clone ](d: &Duration) -> (r: Duration)
    ensures
        r == *d,
;

/// What `str::to_lowercase` returns for the text `s`.
pub uninterp spec fn lowercase(s: Seq<char>) -> Seq<char>;

/// Calls `Duration::from_millis`. Claimed: the result is the named duration
/// of `ms` milliseconds, and it holds exactly `ms` whole milliseconds, so
/// that `as_millis` gives `ms` back.
#[verifier::external_body]
fn duration_from_millis(ms: u64) -> (d: Duration)
    ensures
        d == millis_duration(ms),
        duration_millis(d) == ms as int,
{
    Duration::from_millis(ms)
}

/// Calls `Duration::as_millis`. Claimed: the result is the named number of
/// whole milliseconds in `d`.
#[verifier::external_body]
fn duration_as_millis(d: &Duration) -> (ms: u128)
    ensures
        ms as int == duration_millis(*d),
{
    d.as_millis()
}

/// Calls `str::to_lowercase`. Claimed: the result is the named lowercase
/// form of `s`; nothing more is said of it.
#[verifier::external_body]
fn to_lowercase(s: &str) -> (r: String)
    ensures
        r@ == lowercase(s@),
{
    s.to_lowercase()
}

/// Reconnection is on unless the variable is set to something whose
/// lowercase form is not `true`. The lowercase form of ASCII text turns
/// just the letters `A` to `Z` into `a` to `z`, so for ASCII text this is
/// `true` up to ASCII case; other text goes by `str::to_lowercase`.
pub open spec fn reconnection_setting(v: Option<Seq<char>>) -> bool {
    match v {
        None => true,
        Some(s) => if vstd::utf8::is_ascii_chars(s) {
            eq_ignoring_ascii_case(s, "true"@)
        } else {
            lowercase(s) == "true"@
        },
    }
}

/// The attempt count that the variable sets: its value where it parses as a
/// `u32`, else 0.
pub open spec fn attempts_setting(v: Option<Seq<char>>) -> u32 {
    match v {
        Some(s) => match parse_unsigned(s, u32::MAX as int) {
            Some(n) => n as u32,
            None => 0,
        },
        None => 0,
    }
}

/// The delay in milliseconds that the variable sets: its value where it
/// parses as a `u64`, else `default`.
pub open spec fn millis_setting(v: Option<Seq<char>>, default: u64) -> u64 {
    match v {
        Some(s) => match parse_unsigned(s, u64::MAX as int) {
            Some(n) => n as u64,
            None => default,
        },
        None => default,
    }
}

fn reconnection_from_env(v: &Option<String>) -> (r: bool)
    ensures
        r == reconnection_setting(opt_text(*v)),
{
    match v {
        None => true,
        Some(s) => {
            if s.as_str().is_ascii() {
                str_eq_ignore_ascii_case(s.as_str(), "true")
            } else {
                let lower = to_lowercase(s.as_str());
                let expected: String = "true".to_owned();
                lower == expected
            }
        },
    }
}

fn attempts_from_env(v: &Option<String>) -> (r: u32)
    ensures
        r == attempts_setting(opt_text(*v)),
{
    match v {
        None => 0,
        Some(s) => match parse_u32(s.as_str()) {
            Some(n) => n,
            None => 0,
        },
    }
}

fn millis_from_env(v: &Option<String>, default: u64) -> (r: u64)
    ensures
        r == millis_setting(opt_text(*v), default),
{
    match v {
        None => default,
        Some(s) => match parse_u64(s.as_str()) {
            Some(n) => n,
            None => default,
        },
    }
}

/// Settings of a client.
#[derive(Debug, Clone)]
pub struct ClientConfig {
    pub url: String,
    pub consumer: String,
    pub topics: Vec<String>,
    pub enable_idempotence: bool,
    pub idempotence_max_size: usize,
    pub reconnection: bool,
    pub reconnection_attempts: u32,
    pub reconnection_delay: Duration,
    pub reconnection_delay_max: Duration,
    pub handler_workers: usize,
}

impl ClientConfig {
    /// A configuration for the server at `url` (trailing `/` removed), for
    /// the consumer named `consumer` and the given topics, with duplicate
    /// suppression off and reconnection tuned by `env`.
    pub fn new(url: &str, consumer: &str, topics: Vec<String>, env: &ReconnectionEnv) -> (r: Self)
        ensures
            r.url@ == trim_trailing_slashes(url@),
            r.consumer@ == consumer@,
            r.topics@ == topics@,
            !r.enable_idempotence,
            r.idempotence_max_size == DEFAULT_IDEMPOTENCE_MAX_SIZE,
            r.reconnection == reconnection_setting(opt_text(env.enabled)),
            r.reconnection_attempts == attempts_setting(opt_text(env.attempts)),
            r.reconnection_delay == millis_duration(
                millis_setting(opt_text(env.delay_ms), DEFAULT_RECONNECTION_DELAY_MS),
            ),
            r.reconnection_delay_max == millis_duration(
                millis_setting(opt_text(env.delay_max_ms), DEFAULT_RECONNECTION_DELAY_MAX_MS),
            ),
            duration_millis(r.reconnection_delay) == millis_setting(
                opt_text(env.delay_ms),
                DEFAULT_RECONNECTION_DELAY_MS,
            ) as int,
            duration_millis(r.reconnection_delay_max) == millis_setting(
                opt_text(env.delay_max_ms),
                DEFAULT_RECONNECTION_DELAY_MAX_MS,
            ) as int,
            r.handler_workers == DEFAULT_HANDLER_WORKERS,
    {
        let reconnection = reconnection_from_env(&env.enabled);
        let reconnection_attempts = attempts_from_env(&env.attempts);
        let delay = millis_from_env(&env.delay_ms, DEFAULT_RECONNECTION_DELAY_MS);
        let delay_max = millis_from_env(&env.delay_max_ms, DEFAULT_RECONNECTION_DELAY_MAX_MS);
        ClientConfig {
            url: trim_end_slashes(url),
            consumer: consumer.to_owned(),
            topics,
            enable_idempotence: false,
            idempotence_max_size: DEFAULT_IDEMPOTENCE_MAX_SIZE,
            reconnection,
            reconnection_attempts,
            reconnection_delay: duration_from_millis(delay),
            reconnection_delay_max: duration_from_millis(delay_max),
            handler_workers: DEFAULT_HANDLER_WORKERS,
        }
    }

    /// Turns duplicate suppression on or off and sets how many message ids
    /// it remembers; every other setting is kept.
    pub fn with_idempotence(self, enabled: bool, max_size: usize) -> (r: Self)
        ensures
            r.enable_idempotence == enabled,
            r.idempotence_max_size == max_size,
            r.url == self.url,
            r.consumer == self.consumer,
            r.topics == self.topics,
            r.reconnection == self.reconnection,
            r.reconnection_attempts == self.reconnection_attempts,
            r.reconnection_delay == self.reconnection_delay,
            r.reconnection_delay_max == self.reconnection_delay_max,
            r.handler_workers == self.handler_workers,
    {
        let mut c = self;
        c.enable_idempotence = enabled;
        c.idempotence_max_size = max_size;
        c
    }

    /// Sets how many handlers may run at the same time; every other setting
    /// is kept.
    pub fn with_handler_workers(self, workers: usize) -> (r: Self)
        ensures
            r.handler_workers == workers,
            r.url == self.url,
            r.consumer == self.consumer,
            r.topics == self.topics,
            r.enable_idempotence == self.enable_idempotence,
            r.idempotence_max_size == self.idempotence_max_size,
            r.reconnection == self.reconnection,
            r.reconnection_attempts == self.reconnection_attempts,
            r.reconnection_delay == self.reconnection_delay,
            r.reconnection_delay_max == self.reconnection_delay_max,
    {
        let mut c = self;
        c.handler_workers = workers;
        c
    }

    /// The shortest wait between reconnection attempts handed to the socket
    /// client: the whole milliseconds of `reconnection_delay`, cut to 64 bits.
    pub fn reconnect_delay_ms(&self) -> (r: u64)
        ensures
            r == duration_millis(self.reconnection_delay) as u64,
    {
        let ms = duration_as_millis(&self.reconnection_delay);
        ms as u64
    }

    /// The longest wait between reconnection attempts handed to the socket
    /// client: the whole milliseconds of `reconnection_delay_max`, cut to 64 bits.
    pub fn reconnect_delay_max_ms(&self) -> (r: u64)
        ensures
            r == duration_millis(self.reconnection_delay_max) as u64,
    {
        let ms = duration_as_millis(&self.reconnection_delay_max);
        ms as u64
    }

    /// The reconnection attempt limit handed to the socket client: the
    /// configured count, capped at 255.
    pub fn max_reconnect_attempts(&self) -> (r: u8)
        ensures
            r as u32 == if self.reconnection_attempts < MAX_RECONNECT_ATTEMPTS {
                self.reconnection_attempts
            } else {
                MAX_RECONNECT_ATTEMPTS
            },
    {
        if self.reconnection_attempts < MAX_RECONNECT_ATTEMPTS {
            self.reconnection_attempts as u8
        } else {
            255u8
        }
    }
}

/// Law: reconnection is on when the variable is unset, and when it is set
/// to ASCII text it is on exactly when that text is the four letters of
/// `true`, each in either case; in particular `true`, `TRUE` and `True`
/// turn it on, and `false`, `1`, `yes` and the empty text turn it off.
pub proof fn law_reconnection_flag(s: Seq<char>)
    ensures
        reconnection_setting(None),
        vstd::utf8::is_ascii_chars(s) ==> (reconnection_setting(Some(s)) <==> (s.len() == 4
            && (s[0] == 't' || s[0] == 'T') && (s[1] == 'r' || s[1] == 'R') && (s[2] == 'u'
            || s[2] == 'U') && (s[3] == 'e' || s[3] == 'E'))),
        reconnection_setting(Some("true"@)),
        reconnection_setting(Some("TRUE"@)),
        !reconnection_setting(Some("false"@)),
        !reconnection_setting(Some(""@)),
{
    reveal_strlit("true");
    reveal_strlit("TRUE");
    reveal_strlit("false");
    reveal_strlit("");
    let t = "true"@;
    assert(t.len() == 4 && t[0] == 't' && t[1] == 'r' && t[2] == 'u' && t[3] == 'e');
    if vstd::utf8::is_ascii_chars(s) && s.len() == 4 {
        assert(same_ignoring_ascii_case(s[0], t[0]) <==> (s[0] == 't' || s[0] == 'T'));
        assert(same_ignoring_ascii_case(s[1], t[1]) <==> (s[1] == 'r' || s[1] == 'R'));
        assert(same_ignoring_ascii_case(s[2], t[2]) <==> (s[2] == 'u' || s[2] == 'U'));
        assert(same_ignoring_ascii_case(s[3], t[3]) <==> (s[3] == 'e' || s[3] == 'E'));
        if (s[0] == 't' || s[0] == 'T') && (s[1] == 'r' || s[1] == 'R') && (s[2] == 'u' || s[2]
            == 'U') && (s[3] == 'e' || s[3] == 'E') {
            assert forall|i: int| 0 <= i < s.len() implies same_ignoring_ascii_case(
                #[trigger] s[i],
                t[i],
            ) by {
                if i == 0 {
                } else if i == 1 {
                } else if i == 2 {
                } else {
                }
            }
        }
    }
    let u = "TRUE"@;
    assert(vstd::utf8::is_ascii_chars(t));
    assert(vstd::utf8::is_ascii_chars(u));
    assert forall|i: int| 0 <= i < t.len() implies same_ignoring_ascii_case(#[trigger] t[i], t[i]) by {}
    assert forall|i: int| 0 <= i < u.len() implies same_ignoring_ascii_case(#[trigger] u[i], t[i]) by {
        if i == 0 {
        } else if i == 1 {
        } else if i == 2 {
        } else {
        }
    }
    let f = "false"@;
    assert(vstd::utf8::is_ascii_chars(f));
    assert(vstd::utf8::is_ascii_chars(""@));
}

} // verus!
