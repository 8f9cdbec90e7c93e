//! The gateway's configuration.

use crate::models::{World, WorldView};
use crate::rate_limit::{DEFAULT_BURST, DEFAULT_RATE_PER_SEC};
use vstd::prelude::*;

verus! {

/// Everything a deployment configures. Burst and rate are in thousandths of a
/// token and of a token per second.
#[derive(Debug, PartialEq, Eq)]
pub struct ServerConfig {
    pub http_addr: String,
    pub grpc_addr: String,
    pub server_ip: String,
    pub server_port: u16,
    pub server_name: String,
    pub server_location: String,
    pub rate_burst: u32,
    pub rate_per_sec: u32,
    pub use_mock: bool,
    pub mysql_url: Option<String>,
    pub redis_url: Option<String>,
}

/// The environment variables that configure a gateway, each as it was read:
/// `None` where the variable is not set.
#[derive(Debug, PartialEq, Eq)]
pub struct Environment {
    /// `LOGIN_HTTP_ADDR`
    pub login_http_addr: Option<String>,
    /// `LOGIN_GRPC_ADDR`
    pub login_grpc_addr: Option<String>,
    /// `SERVER_IP`
    pub server_ip: Option<String>,
    /// `SERVER_PORT`
    pub server_port: Option<String>,
    /// `SERVER_NAME`
    pub server_name: Option<String>,
    /// `SERVER_LOCATION`
    pub server_location: Option<String>,
    /// `RATE_LIMITER_BURST`, in thousandths of a token; `None` also where the
    /// variable does not hold a number.
    pub rate_limiter_burst: Option<u32>,
    /// `RATE_LIMITER_RATE`, in thousandths of a token per second; `None` also
    /// where the variable does not hold a number.
    pub rate_limiter_rate: Option<u32>,
    /// `USE_MOCK`
    pub use_mock: Option<String>,
    /// `MYSQL_URL`
    pub mysql_url: Option<String>,
    /// `REDIS_URL`
    pub redis_url: Option<String>,
}

/// The port that a world listens on unless `SERVER_PORT` says otherwise.
pub const DEFAULT_SERVER_PORT: u16 = 7171;

/// Whether `c` is one of the ten decimal digits.
pub open spec fn is_digit(c: char) -> bool {
    '0' <= c <= '9'
}

/// The number that a decimal digit stands for; 0 for any other character.
pub open spec fn digit_value(c: char) -> nat {
    if is_digit(c) {
        (c as u32 - '0' as u32) as nat
    } else {
        0
    }
}

/// The number that a string of decimal digits writes; 0 for the empty string.
pub open spec fn decimal_value(digits: Seq<char>) -> nat
    decreases digits.len(),
{
    if digits.len() == 0 {
        0
    } else {
        decimal_value(digits.drop_last()) * 10 + digit_value(digits.last())
    }
}

/// The digits of a port text: the text without the one `+` that may lead it.
pub open spec fn port_digits(text: Seq<char>) -> Seq<char> {
    if text.len() > 0 && text[0] == '+' {
        text.skip(1)
    } else {
        text
    }
}

/// The port that a text writes: one or more decimal digits, after at most one
/// `+`, whose value a 16-bit port can hold. Any other text writes no port.
pub open spec fn port_of(text: Seq<char>) -> Option<u16> {
    let digits = port_digits(text);
    if digits.len() > 0 && (forall|i: int| 0 <= i < digits.len() ==> is_digit(#[trigger] digits[i]))
        && decimal_value(digits) <= u16::MAX {
        Some(decimal_value(digits) as u16)
    } else {
        None
    }
}

/// A string of digits writes a number no smaller than any of its prefixes does.
proof fn lemma_decimal_value_grows(digits: Seq<char>, n: int)
    requires
        0 <= n <= digits.len(),
    ensures
        decimal_value(digits.subrange(0, n)) <= decimal_value(digits),
    decreases digits.len() - n,
{
    if n == digits.len() {
        assert(digits.subrange(0, n) =~= digits);
    } else {
        lemma_decimal_value_grows(digits, n + 1);
        let longer = digits.subrange(0, n + 1);
        assert(longer.drop_last() =~= digits.subrange(0, n));
    }
}

/// Reads a port from a text, as [`port_of`] says.
pub fn parse_port(text: &str) -> (port: Option<u16>)
    ensures
        port == port_of(text@),
{
    let len = text.unicode_len();
    let start: usize = if len > 0 && text.get_char(0) == '+' {
        1
    } else {
        0
    };
    let ghost digits = port_digits(text@);
    if start == len {
        return None;
    }
    let mut value: u32 = 0;
    let mut i: usize = start;
    while i < len
        invariant
            start <= i <= len,
            len == text@.len(),
            digits == text@.skip(start as int),
            digits == port_digits(text@),
            forall|j: int| 0 <= j < i - start ==> is_digit(#[trigger] digits[j]),
            value == decimal_value(digits.subrange(0, i - start)),
            value <= u16::MAX,
        decreases len - i,
    {
        let c = text.get_char(i);
        if !('0' <= c && c <= '9') {
            assert(!is_digit(digits[i - start]));
            return None;
        }
        let ghost longer = digits.subrange(0, i - start + 1);
        assert(longer.drop_last() =~= digits.subrange(0, i - start));
        value = value * 10 + (c as u32 - '0' as u32);
        if value > 65535 {
            proof {
                lemma_decimal_value_grows(digits, i - start + 1);
            }
            return None;
        }
        i += 1;
    }
    assert(digits.subrange(0, len - start) =~= digits);
    Some(value as u16)
}

/// The lower-case form of a text, as `str::to_lowercase` of the standard
/// library gives it.
pub uninterp spec fn lowercase(text: Seq<char>) -> Seq<char>;

/// `str::to_lowercase`: the lower-case form of `text`, which depends on `text` alone.
#[verifier::external_body]
fn to_lowercase(text: &str) -> (lower: String)
    ensures
        lower@ == lowercase(text@),
{
    text.to_lowercase()
}

/// Whether a value of `USE_MOCK` switches mock mode on: it does if it is `1`, or
/// if its lower-case form, given as `lowered`, is `true`.
pub fn mock_enabled(raw: &String, lowered: &String) -> (on: bool)
    ensures
        on == (raw@ == "1"@ || lowered@ == "true"@),
{
    let one = String::from_str("1");
    let yes = String::from_str("true");
    *raw == one || *lowered == yes
}

/// The text of a variable, or `fallback` where it is not set.
fn text_or(value: Option<String>, fallback: &str) -> (text: String)
    ensures
        text@ == match value {
            Some(v) => v@,
            None => fallback@,
        },
{
    match value {
        Some(v) => v,
        None => String::from_str(fallback),
    }
}

impl ServerConfig {
    /// The configuration that an environment gives. A variable that is not set,
    /// and a port or a number that cannot be read, leaves the default in its
    /// place: the fronts listen on `0.0.0.0:8080` and `0.0.0.0:50051`; the world
    /// is `Rust World` at `127.0.0.1`, port 7171, in `BR`; the rate limit is a
    /// burst of 50 tokens refilled at 25 a second; mock mode is on.
    pub fn from_env(env: Environment) -> (cfg: ServerConfig)
        ensures
            cfg.http_addr@ == match env.login_http_addr {
                Some(v) => v@,
                None => "0.0.0.0:8080"@,
            },
            cfg.grpc_addr@ == match env.login_grpc_addr {
                Some(v) => v@,
                None => "0.0.0.0:50051"@,
            },
            cfg.server_ip@ == match env.server_ip {
                Some(v) => v@,
                None => "127.0.0.1"@,
            },
            cfg.server_port == match env.server_port {
                Some(v) => match port_of(v@) {
                    Some(p) => p,
                    None => DEFAULT_SERVER_PORT,
                },
                None => DEFAULT_SERVER_PORT,
            },
            cfg.server_name@ == match env.server_name {
                Some(v) => v@,
                None => "Rust World"@,
            },
            cfg.server_location@ == match env.server_location {
                Some(v) => v@,
                None => "BR"@,
            },
            cfg.rate_burst == match env.rate_limiter_burst {
                Some(b) => b,
                None => DEFAULT_BURST,
            },
            cfg.rate_per_sec == match env.rate_limiter_rate {
                Some(r) => r,
                None => DEFAULT_RATE_PER_SEC,
            },
            cfg.use_mock == match env.use_mock {
                Some(v) => v@ == "1"@ || lowercase(v@) == "true"@,
                None => true,
            },
            cfg.mysql_url == env.mysql_url,
            cfg.redis_url == env.redis_url,
    {
        let server_port = match env.server_port {
            Some(v) => match parse_port(v.as_str()) {
                Some(p) => p,
                None => DEFAULT_SERVER_PORT,
            },
            None => DEFAULT_SERVER_PORT,
        };
        let use_mock = match env.use_mock {
            Some(v) => {
                let lowered = to_lowercase(v.as_str());
                mock_enabled(&v, &lowered)
            },
            None => true,
        };
        ServerConfig {
            http_addr: text_or(env.login_http_addr, "0.0.0.0:8080"),
            grpc_addr: text_or(env.login_grpc_addr, "0.0.0.0:50051"),
            server_ip: text_or(env.server_ip, "127.0.0.1"),
            server_port,
            server_name: text_or(env.server_name, "Rust World"),
            server_location: text_or(env.server_location, "BR"),
            rate_burst: match env.rate_limiter_burst {
                Some(b) => b,
                None => DEFAULT_BURST,
            },
            rate_per_sec: match env.rate_limiter_rate {
                Some(r) => r,
                None => DEFAULT_RATE_PER_SEC,
            },
            use_mock,
            mysql_url: env.mysql_url,
            redis_url: env.redis_url,
        }
    }

    /// The world that this deployment advertises.
    pub open spec fn world_view(&self) -> WorldView {
        WorldView {
            name: self.server_name@,
            ip: self.server_ip@,
            port: self.server_port,
            location: self.server_location@,
        }
    }

    /// The world that this deployment advertises; every answer to a login carries it.
    pub fn world(&self) -> (w: World)
        ensures
            w@ == self.world_view(),
    {
        World {
            name: self.server_name.clone(),
            ip: self.server_ip.clone(),
            port: self.server_port,
            location: self.server_location.clone(),
        }
    }
}

impl Clone for ServerConfig {
    fn clone(&self) -> (c: ServerConfig)
        ensures
            c == *self,
    {
        ServerConfig {
            http_addr: self.http_addr.clone(),
            grpc_addr: self.grpc_addr.clone(),
            server_ip: self.server_ip.clone(),
            server_port: self.server_port,
            server_name: self.server_name.clone(),
            server_location: self.server_location.clone(),
            rate_burst: self.rate_burst,
            rate_per_sec: self.rate_per_sec,
            use_mock: self.use_mock,
            mysql_url: clone_text(&self.mysql_url),
            redis_url: clone_text(&self.redis_url),
        }
    }
}

/// A copy of an optional string.
fn clone_text(text: &Option<String>) -> (copy: Option<String>)
    ensures
        copy == *text,
{
    match text {
        Some(s) => Some(s.clone()),
        None => None,
    }
}

} // verus!
