//! Settings read once at start: where the server listens and how long a
//! provider is waited for.

use std::time::Duration;
use vstd::prelude::*;

verus! {

/// The port listened on unless another is set.
pub const DEFAULT_PORT: u16 = 3000;

/// The seconds a provider is waited for unless another number is set.
pub const DEFAULT_TIMEOUT_SECS: u64 = 10;

#[derive(Debug, Clone)]
pub struct Config {
    pub server: ServerConfig,
    pub api: ApiConfig,
}

#[derive(Debug, Clone)]
pub struct ServerConfig {
    pub host: String,
    pub port: u16,
}

#[derive(Debug, Clone)]
pub struct ApiConfig {
    pub timeout: Duration,
}

/// The whole seconds that a duration holds.
pub uninterp spec fn whole_seconds(d: Duration) -> u64;

/// The part of a duration below one second, in nanoseconds.
pub uninterp spec fn fraction_nanos(d: Duration) -> u32;

/// Whether a character is one of the ten decimal digits.
pub open spec fn is_digit(c: char) -> bool {
    '0' <= c && c <= '9'
}

/// The number that a sequence of decimal digits denotes.
pub open spec fn digits_value(digits: Seq<char>) -> nat
    decreases digits.len(),
{
    if digits.len() == 0 {
        0
    } else {
        digits_value(digits.drop_last()) * 10 + ((digits.last() as nat) - ('0' as nat)) as nat
    }
}

/// The unsigned number that a text denotes in decimal: an optional `+`,
/// then one digit or more and nothing else; none where the number is
/// above `max`.
pub open spec fn decimal_unsigned(text: Seq<char>, max: nat) -> Option<nat> {
    let digits = if text.len() > 0 && text[0] == '+' {
        text.skip(1)
    } else {
        text
    };
    if digits.len() > 0 && (forall|i: int| 0 <= i < digits.len() ==> is_digit(#[trigger] digits[i]))
        && digits_value(digits) <= max {
        Some(digits_value(digits))
    } else {
        None
    }
}

/// The port that a text denotes in decimal, if it denotes one.
pub open spec fn decimal_port(text: Seq<char>) -> Option<u16> {
    match decimal_unsigned(text, 0xffff) {
        Some(n) => Some(n as u16),
        None => None,
    }
}

/// The count of seconds that a text denotes in decimal, if it denotes one.
pub open spec fn decimal_seconds(text: Seq<char>) -> Option<u64> {
    match decimal_unsigned(text, 0xffff_ffff_ffff_ffff) {
        Some(n) => Some(n as u64),
        None => None,
    }
}

/// `Clone` for `Duration`, which is a `Copy` type: the clone is the
/// duration itself.
pub assume_specification[ <Duration as Clone>::clone ](d: &Duration) -> (r: Duration)
    ensures
        r == *d,
;

/// `Duration::from_secs`: the duration of that many whole seconds and
/// nothing more.
#[verifier::external_body]
pub(crate) fn duration_of(secs: u64) -> (d: Duration)
    ensures
        whole_seconds(d) == secs,
        fraction_nanos(d) == 0,
{
    Duration::from_secs(secs)
}

/// `Duration::as_secs`: the whole seconds of a duration.
#[verifier::external_body]
pub(crate) fn seconds_of(d: &Duration) -> (secs: u64)
    ensures
        secs == whole_seconds(*d),
{
    d.as_secs()
}

/// `str::parse` at `u16`: the number that the text denotes in decimal,
/// with an optional `+` before its digits; `None` where the text is empty,
/// holds anything but digits after that sign, or denotes a number above
/// 65535.
#[verifier::external_body]
pub(crate) fn parse_port(text: &str) -> (r: Option<u16>)
    ensures
        r == decimal_port(text@),
{
    text.parse::<u16>().ok()
}

/// `str::parse` at `u64`: the number that the text denotes in decimal,
/// with an optional `+` before its digits; `None` where the text is empty,
/// holds anything but digits after that sign, or denotes a number above
/// the largest `u64`.
#[verifier::external_body]
pub(crate) fn parse_seconds(text: &str) -> (r: Option<u64>)
    ensures
        r == decimal_seconds(text@),
{
    text.parse::<u64>().ok()
}

/// The host of a configuration with this setting.
pub open spec fn host_of(host: Option<String>) -> Seq<char> {
    match host {
        Some(h) => h@,
        None => "0.0.0.0"@,
    }
}

/// The port of a configuration with this setting.
pub open spec fn port_of(port: Option<u16>) -> u16 {
    match port {
        Some(p) => p,
        None => DEFAULT_PORT,
    }
}

/// The timeout, in seconds, of a configuration with this setting.
pub open spec fn timeout_of(secs: Option<u64>) -> u64 {
    match secs {
        Some(s) => s,
        None => DEFAULT_TIMEOUT_SECS,
    }
}

/// The number that a setting's text stands for, if the setting is there and
/// its text denotes a port.
pub open spec fn port_setting(text: Option<String>) -> Option<u16> {
    match text {
        Some(t) => decimal_port(t@),
        None => None,
    }
}

/// The number that a setting's text stands for, if the setting is there and
/// its text denotes a count of seconds.
pub open spec fn seconds_setting(text: Option<String>) -> Option<u64> {
    match text {
        Some(t) => decimal_seconds(t@),
        None => None,
    }
}

impl Default for Config {
    /// Listens on `0.0.0.0:3000` and waits exactly ten seconds for a
    /// provider.
    fn default() -> (config: Self)
        ensures
            config.server.host@ == "0.0.0.0"@,
            config.server.port == DEFAULT_PORT,
            whole_seconds(config.api.timeout) == DEFAULT_TIMEOUT_SECS,
            fraction_nanos(config.api.timeout) == 0,
    {
        Config {
            server: ServerConfig { host: "0.0.0.0".to_owned(), port: DEFAULT_PORT },
            api: ApiConfig { timeout: duration_of(DEFAULT_TIMEOUT_SECS) },
        }
    }
}

impl ApiConfig {
    /// The whole seconds a provider is waited for.
    pub fn timeout_secs(&self) -> (secs: u64)
        ensures
            secs == whole_seconds(self.timeout),
    {
        seconds_of(&self.timeout)
    }
}

impl Config {
    /// The default configuration, with each value that is given in place
    /// of its default.
    pub fn with_overrides(host: Option<String>, port: Option<u16>, timeout_secs: Option<u64>) -> (config:
        Self)
        ensures
            config.server.host@ == host_of(host),
            config.server.port == port_of(port),
            whole_seconds(config.api.timeout) == timeout_of(timeout_secs),
            fraction_nanos(config.api.timeout) == 0,
    {
        let mut config = Config::default();
        if let Some(h) = host {
            config.server.host = h;
        }
        if let Some(p) = port {
            config.server.port = p;
        }
        if let Some(s) = timeout_secs {
            config.api.timeout = duration_of(s);
        }
        config
    }

    /// The configuration for the settings `HOST`, `PORT` and
    /// `API_TIMEOUT_SECS` as they were found. A setting that is absent, or
    /// whose text does not denote a number where one is needed, leaves the
    /// default in place.
    pub fn from_settings(host: Option<String>, port: Option<String>, timeout_secs: Option<String>) -> (config:
        Self)
        ensures
            config.server.host@ == host_of(host),
            config.server.port == port_of(port_setting(port)),
            whole_seconds(config.api.timeout) == timeout_of(seconds_setting(timeout_secs)),
            fraction_nanos(config.api.timeout) == 0,
    {
        let port_number = match &port {
            Some(text) => parse_port(text.as_str()),
            None => None,
        };
        let seconds = match &timeout_secs {
            Some(text) => parse_seconds(text.as_str()),
            None => None,
        };
        Config::with_overrides(host, port_number, seconds)
    }
}

} // verus!
