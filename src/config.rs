//! Startup configuration: the sweep schedule and the listening address.
use vstd::prelude::*;
use crate::clock::MAX_DELTA_SECONDS;
use crate::sweeper::Sweeper;
use crate::time::{str_equal, unit_named, unit_seconds, TimeUnit};

verus! {

/// The interval magnitude used when none is configured.
pub const DEFAULT_INTERVAL: u64 = 5;

/// The port used when none is configured.
pub const DEFAULT_PORT: &'static str = "3000";

/// Why the configuration was refused.
#[derive(Debug, Clone, Copy, PartialEq, Eq, Structural)]
pub enum ConfigError {
    /// The interval is not a decimal number, is zero, or is too long.
    InvalidInterval,
    /// The unit is not `Seconds`, `Minutes` or `Hours`.
    InvalidUnit,
}

/// A validated sweep schedule: every `interval_value` units, entries older
/// than one interval are removed.
#[derive(Debug, Clone, Copy, PartialEq, Eq, Structural)]
pub struct ScheduleSetting {
    pub interval_value: u64,
    pub unit: TimeUnit,
}

pub open spec fn is_digit(c: char) -> bool {
    '0' <= c && c <= '9'
}

/// The number that a string of decimal digits writes.
pub open spec fn digits_value(s: Seq<char>) -> nat
    decreases s.len(),
{
    if s.len() == 0 {
        0
    } else {
        digits_value(s.drop_last()) * 10 + (s.last() as nat - '0' as nat) as nat
    }
}

/// The digits of a number's text, after an optional leading `+`.
pub open spec fn unsigned_digits(s: Seq<char>) -> Seq<char> {
    if s.len() > 0 && s[0] == '+' {
        s.drop_first()
    } else {
        s
    }
}

/// The `u64` that `s` writes in decimal, if any.
pub open spec fn decimal_u64(s: Seq<char>) -> Option<u64> {
    let d = unsigned_digits(s);
    if d.len() > 0 && (forall|i: int| 0 <= i < d.len() ==> is_digit(#[trigger] d[i]))
        && digits_value(d) <= u64::MAX {
        Some(digits_value(d) as u64)
    } else {
        None
    }
}

/// The interval in seconds that a schedule with this magnitude and unit waits.
pub open spec fn interval_seconds_of(value: u64, unit: TimeUnit) -> int {
    value * unit_seconds(unit)
}

/// The schedule that the two settings give, or why they are refused.
pub open spec fn schedule_of(interval: Option<Seq<char>>, unit: Option<Seq<char>>) -> Result<
    ScheduleSetting,
    ConfigError,
> {
    let value = match interval {
        Some(t) => decimal_u64(t),
        None => Some(DEFAULT_INTERVAL),
    };
    let u = match unit {
        Some(t) => unit_named(t),
        None => Some(TimeUnit::Minutes),
    };
    if value is None || value->0 == 0 {
        Err(ConfigError::InvalidInterval)
    } else if u is None {
        Err(ConfigError::InvalidUnit)
    } else if interval_seconds_of(value->0, u->0) > MAX_DELTA_SECONDS {
        Err(ConfigError::InvalidInterval)
    } else {
        Ok(ScheduleSetting { interval_value: value->0, unit: u->0 })
    }
}

proof fn lemma_digits_value_grows(s: Seq<char>, i: int)
    requires
        0 <= i <= s.len(),
        forall|j: int| 0 <= j < s.len() ==> is_digit(#[trigger] s[j]),
    ensures
        digits_value(s.subrange(0, i)) <= digits_value(s),
    decreases s.len() - i,
{
    if i < s.len() {
        lemma_digits_value_grows(s, i + 1);
        assert(s.subrange(0, i + 1).drop_last() == s.subrange(0, i));
    } else {
        assert(s.subrange(0, i) == s);
    }
}

/// The `u64` that `text` writes in decimal (digits, after an optional `+`).
pub fn parse_decimal(text: &str) -> (r: Option<u64>)
    ensures
        r == decimal_u64(text@),
{
    let n = text.unicode_len();
    let mut i: usize = 0;
    if n > 0 && text.get_char(0) == '+' {
        i = 1;
    }
    let start = i;
    let ghost d = unsigned_digits(text@);
    assert(d == text@.subrange(start as int, n as int));
    if i == n {
        return None;
    }
    let mut value: u64 = 0;
    while i < n
        invariant
            n == text@.len(),
            start <= i <= n,
            d == text@.subrange(start as int, n as int),
            d == unsigned_digits(text@),
            forall|j: int| start <= j < i ==> is_digit(#[trigger] text@[j]),
            value == digits_value(text@.subrange(start as int, i as int)),
        decreases n - i,
    {
        let c = text.get_char(i);
        let ghost prefix = text@.subrange(start as int, i + 1);
        assert(prefix.drop_last() == text@.subrange(start as int, i as int));
        if c < '0' || c > '9' {
            assert(!is_digit(d[i - start]));
            return None;
        }
        let digit = (c as u32 - '0' as u32) as u64;
        let next = value.checked_mul(10);
        match next {
            None => {
                proof {
                    assert forall|j: int| 0 <= j < i + 1 - start implies is_digit(
                        #[trigger] prefix[j],
                    ) by {
                        assert(prefix[j] == text@[start + j]);
                    }
                    assert(digits_value(prefix) > u64::MAX);
                    if forall|j: int| 0 <= j < d.len() ==> is_digit(#[trigger] d[j]) {
                        assert(d.subrange(0, i + 1 - start) == prefix);
                        lemma_digits_value_grows(d, i + 1 - start);
                    }
                }
                return None;
            },
            Some(m) => match m.checked_add(digit) {
                None => {
                    proof {
                        assert(digits_value(prefix) > u64::MAX);
                        if forall|j: int| 0 <= j < d.len() ==> is_digit(#[trigger] d[j]) {
                            assert(d.subrange(0, i + 1 - start) == prefix);
                            lemma_digits_value_grows(d, i + 1 - start);
                        }
                    }
                    return None;
                },
                Some(v) => {
                    value = v;
                },
            },
        }
        i = i + 1;
    }
    assert(text@.subrange(start as int, n as int) == d);
    assert forall|j: int| 0 <= j < d.len() implies is_digit(#[trigger] d[j]) by {
        assert(d[j] == text@[start + j]);
    }
    Some(value)
}

/// Validates the two schedule settings; `None` stands for one that is not set,
/// which takes its default (5, `Minutes`).
pub fn schedule_setting(interval: Option<&str>, unit: Option<&str>) -> (r: Result<
    ScheduleSetting,
    ConfigError,
>)
    ensures
        r == schedule_of(
            match interval {
                Some(t) => Some(t@),
                None => None,
            },
            match unit {
                Some(t) => Some(t@),
                None => None,
            },
        ),
        r matches Ok(s) ==> s.valid(),
{
    let value = match interval {
        Some(t) => parse_decimal(t),
        None => Some(DEFAULT_INTERVAL),
    };
    let u = match unit {
        Some(t) => TimeUnit::parse(t),
        None => Some(TimeUnit::Minutes),
    };
    let value = match value {
        Some(v) if v > 0 => v,
        _ => return Err(ConfigError::InvalidInterval),
    };
    let u = match u {
        Some(u) => u,
        None => return Err(ConfigError::InvalidUnit),
    };
    match u.to_seconds(value) {
        Some(secs) if secs <= MAX_DELTA_SECONDS as u64 => Ok(
            ScheduleSetting { interval_value: value, unit: u },
        ),
        _ => Err(ConfigError::InvalidInterval),
    }
}

impl ScheduleSetting {
    /// Whether the schedule is one that `schedule_setting` accepts.
    pub open spec fn valid(&self) -> bool {
        0 < self.interval_value && interval_seconds_of(self.interval_value, self.unit)
            <= MAX_DELTA_SECONDS
    }

    /// The interval in seconds.
    pub fn interval_seconds(&self) -> (r: u64)
        requires
            self.valid(),
        ensures
            r == interval_seconds_of(self.interval_value, self.unit),
    {
        self.interval_value * self.unit.seconds_per_unit()
    }

    /// A sweeper that ticks once per interval and removes what is older than
    /// one interval.
    pub fn sweeper(&self) -> (r: Sweeper)
        requires
            self.valid(),
        ensures
            r.interval_seconds == interval_seconds_of(self.interval_value, self.unit),
            r.ttl_seconds == r.interval_seconds,
            !r.stopped,
    {
        let secs = self.interval_seconds();
        Sweeper::new(secs, secs)
    }
}

/// The address to listen on: every interface, at `port` or at 3000.
pub fn listen_address(port: Option<&str>) -> (r: String)
    ensures
        r@ == "0.0.0.0:"@ + match port {
            Some(p) => p@,
            None => DEFAULT_PORT@,
        },
{
    let host = String::from_str("0.0.0.0:");
    match port {
        Some(p) => host.concat(p),
        None => host.concat(DEFAULT_PORT),
    }
}

} // verus!
