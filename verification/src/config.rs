//! Configuration: the server URL from the configuration file or the
//! environment, and the settings read from environment variables.
use vstd::prelude::*;
use crate::strings::chars_of;

verus! {

/// The configuration file's contents.
#[derive(Debug, Clone)]
pub struct Config {
    /// The Metabase server URL.
    pub url: Option<String>,
}

impl Default for Config {
    fn default() -> (r: Self)
        ensures
            r.url is None,
    {
        Config { url: None }
    }
}

/// An environment value counts when it is set and not empty.
pub open spec fn env_value(v: Option<String>) -> Option<String> {
    match v {
        Some(s) => if s@.len() > 0 {
            Some(s)
        } else {
            None
        },
        None => None,
    }
}

/// The URL: the configured one, else the environment's.
pub open spec fn url_choice(url: Option<String>, env: Option<String>) -> Option<String> {
    match url {
        Some(u) => Some(u),
        None => env_value(env),
    }
}

impl Config {
    /// A configuration without URL.
    pub fn new() -> (r: Self)
        ensures
            r.url is None,
    {
        Config { url: None }
    }

    /// The configured URL, else the value of `MBR_URL` given as `env_url`
    /// when it is not empty.
    pub fn url_or_env(&self, env_url: Option<String>) -> (r: Option<String>)
        ensures
            r == url_choice(self.url, env_url),
    {
        match &self.url {
            Some(u) => Some(u.clone()),
            None => match env_url {
                Some(s) => if s.as_str().is_empty() {
                    None
                } else {
                    Some(s)
                },
                None => None,
            },
        }
    }

    /// Set the URL.
    pub fn set_url(&mut self, url: String)
        ensures
            final(self).url == Some(url),
    {
        self.url = Some(url);
    }
}

/// Access to the configuration, with the environment's URL as fallback.
pub struct ConfigService {
    pub config: Config,
    /// The value of `MBR_URL`, as read when the service was made.
    pub env_url: Option<String>,
}

impl ConfigService {
    /// A service over a configuration that does not consult `MBR_URL`:
    /// reading the environment is left to the caller, which passes its
    /// value to `with_env_url` for the fallback.
    pub fn new(config: Config) -> (r: Self)
        ensures
            r.config.url == config.url,
            r.env_url is None,
    {
        ConfigService { config, env_url: None }
    }

    /// A service over a configuration, falling back to the value of
    /// `MBR_URL`.
    pub fn with_env_url(config: Config, env_url: Option<String>) -> (r: Self)
        ensures
            r.config.url == config.url,
            r.env_url == env_url,
    {
        ConfigService { config, env_url }
    }

    /// The URL in effect.
    pub fn get_url(&self) -> (r: Option<String>)
        ensures
            r == url_choice(self.config.url, self.env_url),
    {
        self.config.url_or_env(self.env_url.clone())
    }

    /// Set the configured URL.
    pub fn set_url(&mut self, url: String)
        ensures
            final(self).config.url == Some(url),
            final(self).env_url == old(self).env_url,
    {
        self.config.set_url(url);
    }

    /// Whether a URL is in effect.
    pub fn has_url(&self) -> (r: bool)
        ensures
            r == url_choice(self.config.url, self.env_url) is Some,
    {
        self.get_url().is_some()
    }
}

// === Environment settings ===

/// The value of a decimal digit character.
pub open spec fn digit_value(c: char) -> int {
    (c as int) - ('0' as int)
}

/// `c` is `'0'..='9'`.
pub open spec fn is_digit(c: char) -> bool {
    '0' <= c && c <= '9'
}

/// The number written by decimal digits.
pub open spec fn digits_value(s: Seq<char>) -> nat
    decreases s.len(),
{
    if s.len() == 0 {
        0
    } else {
        (digits_value(s.drop_last()) * 10 + digit_value(s.last())) as nat
    }
}

/// Every character is a decimal digit.
pub open spec fn all_digits(d: Seq<char>) -> bool {
    forall|i: int| 0 <= i < d.len() ==> is_digit(#[trigger] d[i])
}

/// The digits of a `usize` as `str::parse` accepts them: an optional `+`,
/// then one or more decimal digits.
pub open spec fn number_digits(s: Seq<char>) -> Option<Seq<char>> {
    let d = if s.len() > 0 && s[0] == '+' {
        s.drop_first()
    } else {
        s
    };
    if d.len() > 0 && all_digits(d) {
        Some(d)
    } else {
        None
    }
}

/// The `usize` that `str::parse::<usize>` reads from `s`, if any.
pub open spec fn parsed_usize(s: Seq<char>) -> Option<usize> {
    match number_digits(s) {
        Some(d) => if digits_value(d) <= usize::MAX {
            Some(digits_value(d) as usize)
        } else {
            None
        },
        None => None,
    }
}

/// Read a `usize` from decimal text (optional `+`, digits, no overflow).
pub fn parse_usize(s: &str) -> (r: Option<usize>)
    ensures
        r == parsed_usize(s@),
{
    let v = chars_of(s);
    let start: usize = if v.len() > 0 && v[0] == '+' { 1 } else { 0 };
    let ghost d = if v@.len() > 0 && v@[0] == '+' { v@.drop_first() } else { v@ };
    assert(d =~= v@.skip(start as int));
    assert(number_digits(v@) == (if d.len() > 0 && all_digits(d) {
        Some(d)
    } else {
        None
    }));
    if start >= v.len() {
        return None;
    }
    let mut value: usize = 0;
    let mut i: usize = start;
    while i < v.len()
        invariant
            v@ == s@,
            d == v@.skip(start as int),
            number_digits(v@) == (if d.len() > 0 && all_digits(d) {
                Some(d)
            } else {
                None
            }),
            start <= i <= v@.len(),
            forall|k: int| start <= k < i ==> is_digit(#[trigger] v@[k]),
            value == digits_value(v@.subrange(start as int, i as int)),
        decreases v@.len() - i,
    {
        let c = v[i];
        if !('0' <= c && c <= '9') {
            proof {
                assert(d[i - start] == v@[i as int]);
                assert(!is_digit(d[i - start]));
                assert(!all_digits(d));
                assert(number_digits(s@) is None);
            }
            return None;
        }
        let digit = (c as u32 - '0' as u32) as usize;
        assert(v@.subrange(start as int, i + 1).drop_last() =~= v@.subrange(start as int, i as int));
        if value > (usize::MAX - digit) / 10 {
            proof {
                let p = v@.subrange(start as int, i + 1);
                assert(digits_value(p) == value * 10 + digit);
                assert(value * 10 + digit > usize::MAX) by (nonlinear_arith)
                    requires
                        value > (usize::MAX - digit) / 10,
                        digit <= 9,
                ;
                assert forall|k: int| 0 <= k < (i + 1 - start) implies is_digit(#[trigger] d[k]) by {
                    assert(d[k] == v@[start + k]);
                }
                lemma_digits_value_grows(d, (i + 1 - start) as nat);
                assert(d.take(i + 1 - start) =~= p);
                if all_digits(d) {
                    assert(number_digits(s@) == Some(d));
                    assert(digits_value(d) > usize::MAX);
                } else {
                    assert(number_digits(s@) is None);
                }
            }
            return None;
        }
        value = value * 10 + digit;
        i = i + 1;
    }
    assert(v@.subrange(start as int, v@.len() as int) =~= d);
    Some(value)
}

proof fn lemma_digits_value_grows(d: Seq<char>, n: nat)
    requires
        n <= d.len(),
        forall|k: int| 0 <= k < n ==> is_digit(#[trigger] d[k]),
    ensures
        (forall|k: int| 0 <= k < d.len() ==> is_digit(#[trigger] d[k])) ==> digits_value(d.take(n as int)) <= digits_value(d),
    decreases d.len() - n,
{
    if n < d.len() {
        if forall|k: int| 0 <= k < d.len() ==> is_digit(#[trigger] d[k]) {
            lemma_digits_value_grows(d, n + 1);
            assert(d.take((n + 1) as int).drop_last() =~= d.take(n as int));
            assert(digits_value(d.take((n + 1) as int)) == digits_value(d.take(n as int)) * 10
                + digit_value(d[n as int]));
        }
    } else {
        assert(d.take(n as int) =~= d);
    }
}

/// Settings read from environment variables; each takes the variable's
/// value (`None` when unset).
pub struct EnvConfigReader;

impl EnvConfigReader {
    /// `NO_COLOR` is set.
    pub fn no_color_from(value: Option<String>) -> (r: bool)
        ensures
            r == value is Some,
    {
        value.is_some()
    }

    /// `MBR_PAGE_SIZE` as a number, when it is one.
    pub fn page_size_from(value: Option<String>) -> (r: Option<usize>)
        ensures
            r == match value {
                Some(s) => parsed_usize(s@),
                None => None,
            },
    {
        match value {
            Some(s) => parse_usize(s.as_str()),
            None => None,
        }
    }

    /// `MBR_NO_FULLSCREEN` is set.
    pub fn no_fullscreen_from(value: Option<String>) -> (r: bool)
        ensures
            r == value is Some,
    {
        value.is_some()
    }

    /// `MBR_MAX_MEMORY` as a number, when it is one.
    pub fn max_memory_from(value: Option<String>) -> (r: Option<usize>)
        ensures
            r == match value {
                Some(s) => parsed_usize(s@),
                None => None,
            },
    {
        match value {
            Some(s) => parse_usize(s.as_str()),
            None => None,
        }
    }
}

} // verus!
