//! Settings of the service, taken from the environment's variables.

use vstd::prelude::*;

verus! {

pub const DEFAULT_REDIS_URL: &'static str = "redis://redis:6379";

pub const DEFAULT_NASA_API_KEY: &'static str = "DEMO_KEY";

pub const DEFAULT_NASA_OSDR_URL: &'static str =
    "https://visualization.osdr.nasa.gov/biodata/api/v2/datasets/?format=json";

pub const DEFAULT_ISS_URL: &'static str = "https://api.wheretheiss.at/v1/satellites/25544";

pub const DEFAULT_ISS_SYNC_INTERVAL: u64 = 120;

pub const DEFAULT_OSDR_SYNC_INTERVAL: u64 = 600;

pub const DEFAULT_APOD_SYNC_INTERVAL: u64 = 43200;

pub const DEFAULT_NEO_SYNC_INTERVAL: u64 = 7200;

pub const DEFAULT_DONKI_SYNC_INTERVAL: u64 = 3600;

pub const DEFAULT_SPACEX_SYNC_INTERVAL: u64 = 3600;

/// One variable of the environment.
#[derive(Clone, Debug)]
pub struct EnvVar {
    pub name: String,
    pub value: String,
}

#[derive(Clone, Debug)]
pub struct Config {
    pub database_url: String,
    pub redis_url: String,
    pub nasa_api_key: String,
    pub nasa_osdr_url: String,
    pub iss_url: String,
    pub astronomy_api_id: String,
    pub astronomy_api_secret: String,
    /// Poll intervals, in seconds.
    pub iss_sync_interval: u64,
    pub osdr_sync_interval: u64,
    pub apod_sync_interval: u64,
    pub neo_sync_interval: u64,
    pub donki_sync_interval: u64,
    pub spacex_sync_interval: u64,
}

/// The value of the first variable named `key`, if there is one.
pub open spec fn lookup(vars: Seq<EnvVar>, key: Seq<char>) -> Option<Seq<char>>
    decreases vars.len(),
{
    if vars.len() == 0 {
        None
    } else if vars[0].name@ == key {
        Some(vars[0].value@)
    } else {
        lookup(vars.skip(1), key)
    }
}

/// The number that a run of decimal digits denotes.
pub open spec fn digits_value(digits: Seq<char>) -> nat
    decreases digits.len(),
{
    if digits.len() == 0 {
        0
    } else {
        10 * digits_value(digits.drop_last()) + (digits.last() as nat - '0' as nat) as nat
    }
}

/// Whether every character is one of `0` to `9`.
pub open spec fn all_digits(digits: Seq<char>) -> bool {
    forall|i: int| 0 <= i < digits.len() ==> '0' as nat <= #[trigger] digits[i] as nat <= '9' as nat
}

/// The digits of a number as text: the text without the `+` that it may start
/// with.
pub open spec fn unsigned_part(text: Seq<char>) -> Seq<char> {
    if text.len() > 0 && text[0] == '+' {
        text.skip(1)
    } else {
        text
    }
}

/// The number that `text` denotes: decimal digits, at least one, with an
/// optional `+` before them and nothing else around them. `None` for any other
/// text, and for a number above `u64::MAX`.
pub open spec fn decimal_u64(text: Seq<char>) -> Option<u64> {
    let digits = unsigned_part(text);
    if digits.len() > 0 && all_digits(digits) && digits_value(digits) <= u64::MAX {
        Some(digits_value(digits) as u64)
    } else {
        None
    }
}

/// The text found, or `default` where none was.
pub open spec fn text_or(found: Option<Seq<char>>, default: Seq<char>) -> Seq<char> {
    match found {
        Some(text) => text,
        None => default,
    }
}

/// The number that the text found denotes, or `default` where no text was
/// found or the text is no number.
pub open spec fn number_or(found: Option<Seq<char>>, default: u64) -> u64 {
    match found {
        Some(text) => match decimal_u64(text) {
            Some(n) => n,
            None => default,
        },
        None => default,
    }
}

/// A run of characters is worth at least as much as any run that it starts
/// with.
proof fn lemma_digits_value_grows(digits: Seq<char>, k: int)
    requires
        0 <= k <= digits.len(),
    ensures
        digits_value(digits.take(k)) <= digits_value(digits),
    decreases digits.len() - k,
{
    if k < digits.len() {
        lemma_digits_value_grows(digits, k + 1);
        assert(digits.take(k + 1).drop_last() =~= digits.take(k));
    } else {
        assert(digits.take(k) =~= digits);
    }
}

/// Reads a number as the standard library's `str::parse` does at type `u64`:
/// an optional `+`, then decimal digits only; the empty text, any other
/// character, and a number that does not fit are refused.
fn parse_u64(text: &str) -> (r: Option<u64>)
    ensures
        r == decimal_u64(text@),
{
    let n: usize = text.unicode_len();
    if n == 0 {
        return None;
    }
    let start: usize = if text.get_char(0) == '+' {
        1
    } else {
        0
    };
    let ghost digits = unsigned_part(text@);
    proof {
        assert(text@.skip(0) =~= text@);
        assert(digits == text@.skip(start as int));
    }
    if start == n {
        return None;
    }
    let mut value: u64 = 0;
    let mut i: usize = start;
    assert(digits.take(0) =~= Seq::<char>::empty());
    while i < n
        invariant
            start <= i <= n,
            n == text@.len(),
            digits == unsigned_part(text@),
            digits == text@.skip(start as int),
            all_digits(digits.take(i - start)),
            value == digits_value(digits.take(i - start)),
        decreases n - i,
    {
        let c: char = text.get_char(i);
        let ghost k = i - start;
        proof {
            assert(digits[k] == c);
            assert(digits.take(k + 1).drop_last() =~= digits.take(k));
            assert(digits.take(k + 1).last() == c);
        }
        if c < '0' || c > '9' {
            proof {
                assert(!('0' as nat <= digits[k] as nat <= '9' as nat));
            }
            return None;
        }
        let digit: u64 = (c as u32 - '0' as u32) as u64;
        let next = match value.checked_mul(10) {
            Some(tens) => tens.checked_add(digit),
            None => None,
        };
        match next {
            Some(more) => {
                proof {
                    assert(digits_value(digits.take(k + 1)) == 10 * value + digit);
                    assert forall|j: int| 0 <= j < k + 1 implies '0' as nat
                        <= #[trigger] digits.take(k + 1)[j] as nat <= '9' as nat by {
                        if j < k {
                            assert(digits.take(k)[j] == digits.take(k + 1)[j]);
                        }
                    }
                }
                value = more;
            },
            None => {
                proof {
                    lemma_digits_value_grows(digits, k + 1);
                    assert(digits_value(digits.take(k + 1)) == 10 * value + digit);
                    assert(digits_value(digits) > u64::MAX);
                }
                return None;
            },
        }
        i += 1;
    }
    proof {
        assert(digits.take(n - start) =~= digits);
    }
    Some(value)
}

proof fn lemma_lookup_skip(vars: Seq<EnvVar>, key: Seq<char>, i: int)
    requires
        0 <= i < vars.len(),
        lookup(vars, key) == lookup(vars.skip(i), key),
        vars[i].name@ != key,
    ensures
        lookup(vars, key) == lookup(vars.skip(i + 1), key),
{
    assert(vars.skip(i).skip(1) =~= vars.skip(i + 1));
}

/// The value of the first variable named `key`.
pub fn find_var<'a>(vars: &'a Vec<EnvVar>, key: &str) -> (r: Option<&'a String>)
    ensures
        match r {
            Some(value) => lookup(vars@, key@) == Some(value@),
            None => lookup(vars@, key@) is None,
        },
{
    let wanted: String = key.to_owned();
    let n: usize = vars.len();
    let mut i: usize = 0;
    assert(vars@.skip(0) =~= vars@);
    while i < n
        invariant
            n == vars@.len(),
            i <= n,
            wanted@ == key@,
            lookup(vars@, key@) == lookup(vars@.skip(i as int), key@),
        decreases n - i,
    {
        if vars[i].name == wanted {
            return Some(&vars[i].value);
        }
        proof {
            lemma_lookup_skip(vars@, key@, i as int);
        }
        i += 1;
    }
    None
}

fn text_setting(vars: &Vec<EnvVar>, key: &str, default: &str) -> (r: String)
    ensures
        r@ == text_or(lookup(vars@, key@), default@),
{
    match find_var(vars, key) {
        Some(value) => value.clone(),
        None => default.to_owned(),
    }
}

impl Config {
    /// The number that the variable named `key` holds, or `default` where the
    /// variable is not set or holds no number.
    pub fn env_u64(vars: &Vec<EnvVar>, key: &str, default: u64) -> (n: u64)
        ensures
            n == number_or(lookup(vars@, key@), default),
    {
        match find_var(vars, key) {
            Some(value) => match parse_u64(value.as_str()) {
                Some(n) => n,
                None => default,
            },
            None => default,
        }
    }

    /// Whether `self` is what the variables `vars` say, each setting that is
    /// not given falling back to its default.
    pub open spec fn reads(self, vars: Seq<EnvVar>) -> bool {
        &&& Some(self.database_url@) == lookup(vars, "DATABASE_URL"@)
        &&& self.redis_url@ == text_or(lookup(vars, "REDIS_URL"@), DEFAULT_REDIS_URL@)
        &&& self.nasa_api_key@ == text_or(lookup(vars, "NASA_API_KEY"@), DEFAULT_NASA_API_KEY@)
        &&& self.nasa_osdr_url@ == text_or(lookup(vars, "NASA_API_URL"@), DEFAULT_NASA_OSDR_URL@)
        &&& self.iss_url@ == text_or(lookup(vars, "WHERE_ISS_URL"@), DEFAULT_ISS_URL@)
        &&& self.astronomy_api_id@ == text_or(lookup(vars, "ASTRO_APP_ID"@), ""@)
        &&& self.astronomy_api_secret@ == text_or(lookup(vars, "ASTRO_APP_SECRET"@), ""@)
        &&& self.iss_sync_interval == number_or(
            lookup(vars, "ISS_SYNC_INTERVAL"@),
            DEFAULT_ISS_SYNC_INTERVAL,
        )
        &&& self.osdr_sync_interval == number_or(
            lookup(vars, "OSDR_SYNC_INTERVAL"@),
            DEFAULT_OSDR_SYNC_INTERVAL,
        )
        &&& self.apod_sync_interval == number_or(
            lookup(vars, "APOD_SYNC_INTERVAL"@),
            DEFAULT_APOD_SYNC_INTERVAL,
        )
        &&& self.neo_sync_interval == number_or(
            lookup(vars, "NEO_SYNC_INTERVAL"@),
            DEFAULT_NEO_SYNC_INTERVAL,
        )
        &&& self.donki_sync_interval == number_or(
            lookup(vars, "DONKI_SYNC_INTERVAL"@),
            DEFAULT_DONKI_SYNC_INTERVAL,
        )
        &&& self.spacex_sync_interval == number_or(
            lookup(vars, "SPACEX_SYNC_INTERVAL"@),
            DEFAULT_SPACEX_SYNC_INTERVAL,
        )
    }

    /// The settings that the environment's variables give. Only the database
    /// URL has no default: without it there are no settings.
    pub fn from_env(vars: &Vec<EnvVar>) -> (r: Option<Config>)
        ensures
            r is Some <==> lookup(vars@, "DATABASE_URL"@) is Some,
            r matches Some(config) ==> config.reads(vars@),
    {
        let database_url = match find_var(vars, "DATABASE_URL") {
            Some(value) => value.clone(),
            None => {
                return None;
            },
        };
        Some(
            Config {
                database_url,
                redis_url: text_setting(vars, "REDIS_URL", DEFAULT_REDIS_URL),
                nasa_api_key: text_setting(vars, "NASA_API_KEY", DEFAULT_NASA_API_KEY),
                nasa_osdr_url: text_setting(vars, "NASA_API_URL", DEFAULT_NASA_OSDR_URL),
                iss_url: text_setting(vars, "WHERE_ISS_URL", DEFAULT_ISS_URL),
                astronomy_api_id: text_setting(vars, "ASTRO_APP_ID", ""),
                astronomy_api_secret: text_setting(vars, "ASTRO_APP_SECRET", ""),
                iss_sync_interval: Config::env_u64(
                    vars,
                    "ISS_SYNC_INTERVAL",
                    DEFAULT_ISS_SYNC_INTERVAL,
                ),
                osdr_sync_interval: Config::env_u64(
                    vars,
                    "OSDR_SYNC_INTERVAL",
                    DEFAULT_OSDR_SYNC_INTERVAL,
                ),
                apod_sync_interval: Config::env_u64(
                    vars,
                    "APOD_SYNC_INTERVAL",
                    DEFAULT_APOD_SYNC_INTERVAL,
                ),
                neo_sync_interval: Config::env_u64(
                    vars,
                    "NEO_SYNC_INTERVAL",
                    DEFAULT_NEO_SYNC_INTERVAL,
                ),
                donki_sync_interval: Config::env_u64(
                    vars,
                    "DONKI_SYNC_INTERVAL",
                    DEFAULT_DONKI_SYNC_INTERVAL,
                ),
                spacex_sync_interval: Config::env_u64(
                    vars,
                    "SPACEX_SYNC_INTERVAL",
                    DEFAULT_SPACEX_SYNC_INTERVAL,
                ),
            },
        )
    }
}

} // verus!
