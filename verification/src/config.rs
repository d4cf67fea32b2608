//! Startup configuration: the shared webhook secret and the listen port.
//!
//! The secret is required — without it the process must not start.  The
//! port is optional and defaults to a fixed value; when given as text it
//! is read as a decimal number the way `u16` parsing reads one: an
//! optional leading `+`, then at least one digit, value at most 65535.

use vstd::prelude::*;
use vstd::string::StringSliceAdditionalSpecFns;

verus! {

/// The port the listener binds when none is configured.
pub const DEFAULT_PORT: u16 = 33275;

/// Process-wide configuration, read once at startup, immutable thereafter.
pub struct Config {
    /// The shared secret the webhook sender signs bodies with.
    pub secret: String,
    /// The port the HTTP listener binds.
    pub port: u16,
}

/// The one fatal configuration fault: no shared secret was provided.
#[derive(Clone, Copy, PartialEq, Eq, Structural, Debug)]
pub enum ConfigError {
    MissingSecret,
}

/// The port a configuration ends up with.
pub open spec fn port_or_default(port: Option<u16>) -> u16 {
    match port {
        Some(p) => p,
        None => DEFAULT_PORT,
    }
}

/// Build the startup configuration from what the environment offered.
/// Fails exactly when the secret is absent; an absent port falls back to
/// the default.
pub fn build_config(secret: Option<String>, port: Option<u16>) -> (r: Result<Config, ConfigError>)
    ensures
        secret is None ==> r == Result::<Config, ConfigError>::Err(ConfigError::MissingSecret),
        secret matches Some(s) ==> (r matches Ok(c) && c.secret == s && c.port == port_or_default(
            port,
        )),
{
    match secret {
        None => Err(ConfigError::MissingSecret),
        Some(s) => Ok(
            Config {
                secret: s,
                port: match port {
                    Some(p) => p,
                    None => DEFAULT_PORT,
                },
            },
        ),
    }
}

/// Whether a byte is an ASCII decimal digit.
pub open spec fn is_digit(b: u8) -> bool {
    48 <= b <= 57
}

/// Whether every byte of the sequence is an ASCII decimal digit.
pub open spec fn all_digits(s: Seq<u8>) -> bool {
    forall|i: int| 0 <= i < s.len() ==> is_digit(s[i])
}

/// The number the digit sequence denotes in decimal.
pub open spec fn decimal_value(s: Seq<u8>) -> int
    recommends
        all_digits(s),
    decreases s.len(),
{
    if s.len() == 0 {
        0
    } else {
        decimal_value(s.drop_last()) * 10 + (s.last() - 48)
    }
}

/// The digits of a port string: everything after an optional leading `+`.
pub open spec fn port_digits(s: Seq<u8>) -> Seq<u8> {
    if s.len() > 0 && s[0] == 43 {
        s.skip(1)
    } else {
        s
    }
}

/// Whether the string denotes a port: an optional leading `+`, then at
/// least one digit, with a value that fits in sixteen bits.
pub open spec fn valid_port_str(s: Seq<u8>) -> bool {
    let d = port_digits(s);
    d.len() > 0 && all_digits(d) && decimal_value(d) <= 65535
}

proof fn lemma_decimal_value_grows(s: Seq<u8>, k: int)
    requires
        all_digits(s),
        0 <= k <= s.len(),
    ensures
        decimal_value(s.take(k)) <= decimal_value(s),
        decimal_value(s) >= 0,
    decreases s.len(),
{
    if s.len() == 0 {
    } else {
        assert(s.drop_last() =~= s.take(s.len() - 1));
        assert(all_digits(s.drop_last()));
        if k == s.len() {
            assert(s.take(k) =~= s);
            lemma_decimal_value_grows(s.drop_last(), s.len() - 1);
        } else {
            lemma_decimal_value_grows(s.drop_last(), k);
            assert(s.take(k) =~= s.drop_last().take(k));
            assert(decimal_value(s) >= decimal_value(s.drop_last()));
        }
    }
}

/// Read a port number the way `u16` parsing reads one.  Yields `Some`
/// exactly on valid port strings, and then the denoted value.
pub fn parse_port(s: &str) -> (r: Option<u16>)
    ensures
        r is Some <==> valid_port_str(s.spec_bytes()),
        r matches Some(p) ==> p == decimal_value(port_digits(s.spec_bytes())),
{
    let b = s.as_bytes();
    let ghost d = port_digits(s.spec_bytes());
    let start: usize = if b.len() > 0 && b[0] == 43 {
        1
    } else {
        0
    };
    proof {
        assert(d =~= b@.skip(start as int));
    }
    if start == b.len() {
        return None;
    }
    let mut val: u32 = 0;
    let mut i: usize = start;
    while i < b.len()
        invariant
            start <= i <= b@.len(),
            b@ == s.spec_bytes(),
            d == port_digits(b@),
            d == b@.skip(start as int),
            d.len() == b@.len() - start,
            all_digits(b@.subrange(start as int, i as int)),
            val == decimal_value(b@.subrange(start as int, i as int)),
            val <= 65535,
        decreases b@.len() - i,
    {
        let c = b[i];
        if c < 48 || c > 57 {
            proof {
                assert(d[i - start] == b@[i as int]);
                assert(!all_digits(d)) by {
                    assert(!is_digit(d[i - start]));
                }
            }
            return None;
        }
        proof {
            let pre = b@.subrange(start as int, i as int);
            let nxt = b@.subrange(start as int, i + 1);
            assert(nxt.drop_last() =~= pre);
            assert(nxt.last() == b@[i as int]);
        }
        val = val * 10 + ((c - 48) as u32);
        i = i + 1;
        if val > 65535 {
            proof {
                if valid_port_str(s.spec_bytes()) {
                    assert(b@.subrange(start as int, i as int) =~= d.take(i - start));
                    lemma_decimal_value_grows(d, i - start);
                }
            }
            return None;
        }
    }
    proof {
        assert(b@.subrange(start as int, b@.len() as int) =~= d);
    }
    Some(val as u16)
}

} // verus!
