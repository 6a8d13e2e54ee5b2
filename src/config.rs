//! Server and client configuration, computed from the optional raw values
//! of the environment (reading the environment is the caller's part).

use vstd::prelude::*;
use vstd::string::StrSliceExecFns;

verus! {

/// Default address, for the server to bind and for the client to reach.
pub const DEFAULT_ADDR: &'static str = "localhost:8792";

/// Default session timeout, in seconds.
pub const DEFAULT_TIMEOUT_SECS: u64 = 30;

/// A configuration value that could not be used.
#[derive(Clone, Copy, Debug, PartialEq, Eq)]
pub enum ConfigError {
    /// The session timeout is not a decimal number of seconds that fits
    /// in 64 bits.
    InvalidTimeout,
}

pub open spec fn is_digit(c: char) -> bool {
    '0' <= c <= '9'
}

/// Value of a string of decimal digits.
pub open spec fn decimal_value(s: Seq<char>) -> int
    decreases s.len(),
{
    if s.len() == 0 {
        0
    } else {
        decimal_value(s.drop_last()) * 10 + (s.last() as int - '0' as int)
    }
}

/// The string without a leading `+`, if it has one.
pub open spec fn unsigned_part(s: Seq<char>) -> Seq<char> {
    if s.len() > 0 && s[0] == '+' {
        s.skip(1)
    } else {
        s
    }
}

/// Whether every character is a decimal digit.
pub open spec fn all_digits(s: Seq<char>) -> bool {
    forall|i: int| 0 <= i < s.len() ==> is_digit(#[trigger] s[i])
}

/// A count of seconds written as an optional `+` and one or more decimal
/// digits, if its value fits in 64 bits.
pub open spec fn parsed_secs(s: Seq<char>) -> Option<u64> {
    let digits = unsigned_part(s);
    if digits.len() > 0 && all_digits(digits) && decimal_value(digits) <= u64::MAX {
        Some(decimal_value(digits) as u64)
    } else {
        None
    }
}

/// Parses a count of seconds: an optional `+` and decimal digits.
pub fn parse_secs(s: &str) -> (r: Option<u64>)
    ensures
        r == parsed_secs(s@),
{
    let len = s.unicode_len();
    let start: usize = if len > 0 && s.get_char(0) == '+' {
        1
    } else {
        0
    };
    let ghost digits = unsigned_part(s@);
    assert(digits =~= s@.subrange(start as int, len as int));
    if start == len {
        return None;
    }
    let mut acc: u64 = 0;
    let mut too_big = false;
    let mut i: usize = start;
    while i < len
        invariant
            start <= i <= len,
            len == s@.len(),
            digits == s@.subrange(start as int, len as int),
            digits == unsigned_part(s@),
            forall|k: int| start <= k < i ==> is_digit(#[trigger] s@[k]),
            !too_big ==> acc == decimal_value(s@.subrange(start as int, i as int)),
            too_big ==> decimal_value(s@.subrange(start as int, i as int)) > u64::MAX,
        decreases len - i,
    {
        let c = s.get_char(i);
        if !('0' <= c && c <= '9') {
            proof {
                assert(digits[i - start] == c);
                assert(!is_digit(digits[i - start]));
                assert(!all_digits(digits));

            }
            return None;
        }
        let d = (c as u32 - '0' as u32) as u64;
        let ghost pre = s@.subrange(start as int, i as int);
        proof {
            assert(s@.subrange(start as int, i + 1).drop_last() =~= pre);
            assert(s@.subrange(start as int, i + 1).last() == c);
        }
        if !too_big {
            if acc > (u64::MAX - d) / 10 {
                too_big = true;
            } else {
                acc = acc * 10 + d;
            }
        }
        i = i + 1;
    }
    proof {
        assert forall|k: int| 0 <= k < digits.len() implies is_digit(#[trigger] digits[k]) by {
            assert(digits[k] == s@[k + start]);
        }
        assert(all_digits(digits));
        assert(digits =~= s@.subrange(start as int, i as int));
    }
    if too_big {
        None
    } else {
        Some(acc)
    }
}

/// Session timeout in milliseconds, saturating at the largest value.
pub open spec fn timeout_ms(secs: u64) -> u64 {
    if secs <= u64::MAX / 1000 {
        (secs * 1000) as u64
    } else {
        u64::MAX
    }
}

fn secs_to_ms(secs: u64) -> (r: u64)
    ensures
        r == timeout_ms(secs),
{
    if secs <= u64::MAX / 1000 {
        secs * 1000
    } else {
        u64::MAX
    }
}

/// The timeout from its raw value: the default when absent.
pub open spec fn timeout_from(raw: Option<String>) -> Option<u64> {
    match raw {
        None => Some(DEFAULT_TIMEOUT_SECS),
        Some(t) => parsed_secs(t@),
    }
}

fn resolve_timeout(raw: Option<String>) -> (r: Result<u64, ConfigError>)
    ensures
        match timeout_from(raw) {
            Some(v) => r == Ok::<u64, ConfigError>(v),
            None => r == Err::<u64, ConfigError>(ConfigError::InvalidTimeout),
        },
{
    match raw {
        None => Ok(DEFAULT_TIMEOUT_SECS),
        Some(t) => match parse_secs(t.as_str()) {
            Some(v) => Ok(v),
            None => Err(ConfigError::InvalidTimeout),
        },
    }
}

fn resolve_addr(raw: Option<String>) -> (r: String)
    ensures
        r@ == match raw {
            Some(a) => a@,
            None => DEFAULT_ADDR@,
        },
{
    match raw {
        Some(a) => a,
        None => DEFAULT_ADDR.to_owned(),
    }
}

/// Configuration of the server.
#[derive(Clone, Debug)]
pub struct StammerConfig {
    /// Address to listen on.
    pub bind_addr: String,
    /// Longest silence allowed between a client's pings, in seconds.
    pub session_timeout_secs: u64,
}

impl StammerConfig {
    /// The configuration from the raw values of `STAMMER_BIND_ADDR` and
    /// `STAMMER_SESSION_TIMEOUT_SECS`, each possibly absent.
    pub fn from_values(bind_addr: Option<String>, session_timeout: Option<String>) -> (r: Result<
        StammerConfig,
        ConfigError,
    >)
        ensures
            match timeout_from(session_timeout) {
                Some(v) => r matches Ok(c) && c.session_timeout_secs == v && c.bind_addr@ == match bind_addr {
                    Some(a) => a@,
                    None => DEFAULT_ADDR@,
                },
                None => r == Err::<StammerConfig, ConfigError>(ConfigError::InvalidTimeout),
            },
    {
        let secs = match resolve_timeout(session_timeout) {
            Ok(v) => v,
            Err(e) => {
                return Err(e);
            },
        };
        Ok(StammerConfig { bind_addr: resolve_addr(bind_addr), session_timeout_secs: secs })
    }

    /// The session timeout in milliseconds (saturating).
    pub fn session_timeout_ms(&self) -> (r: u64)
        ensures
            r == timeout_ms(self.session_timeout_secs),
    {
        secs_to_ms(self.session_timeout_secs)
    }
}

/// Configuration of the client.
#[derive(Clone, Debug)]
pub struct StutterConfig {
    /// Address of the server.
    pub addr: String,
    /// Session timeout of the server, in seconds; pings go at half of it.
    pub session_timeout_secs: u64,
}

impl StutterConfig {
    /// The configuration from the raw values of `STUTTER_ADDR` and
    /// `STUTTER_SESSION_TIMEOUT_SECS`, each possibly absent.
    pub fn from_values(addr: Option<String>, session_timeout: Option<String>) -> (r: Result<
        StutterConfig,
        ConfigError,
    >)
        ensures
            match timeout_from(session_timeout) {
                Some(v) => r matches Ok(c) && c.session_timeout_secs == v && c.addr@ == match addr {
                    Some(a) => a@,
                    None => DEFAULT_ADDR@,
                },
                None => r == Err::<StutterConfig, ConfigError>(ConfigError::InvalidTimeout),
            },
    {
        let secs = match resolve_timeout(session_timeout) {
            Ok(v) => v,
            Err(e) => {
                return Err(e);
            },
        };
        Ok(StutterConfig { addr: resolve_addr(addr), session_timeout_secs: secs })
    }

    /// The session timeout in milliseconds (saturating).
    pub fn session_timeout_ms(&self) -> (r: u64)
        ensures
            r == timeout_ms(self.session_timeout_secs),
    {
        secs_to_ms(self.session_timeout_secs)
    }
}

/// Configuration of a client connection: the server's address and its
/// session timeout in seconds.
#[derive(Clone, Debug)]
pub struct ClientConfig {
    pub connect_addr: String,
    pub session_timeout_secs: u64,
}

impl ClientConfig {
    /// The ping interval of the connection, in milliseconds: half the
    /// session timeout.
    pub fn ping_period_ms(&self) -> (r: u64)
        ensures
            r == crate::connection::ping_period(timeout_ms(self.session_timeout_secs)),
    {
        crate::connection::ping_period_ms(secs_to_ms(self.session_timeout_secs))
    }
}

} // verus!
