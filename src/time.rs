use vstd::prelude::*;
use crate::clock::{delta_of_seconds, duration_of_secs, MAX_DELTA_SECONDS};

verus! {

/// The unit in which the sweep interval is configured.
#[derive(Debug, Clone, Copy, PartialEq, Eq, Structural)]
pub enum TimeUnit {
    Seconds,
    Minutes,
    Hours,
}

/// The number of seconds in one `unit`.
pub open spec fn unit_seconds(unit: TimeUnit) -> nat {
    match unit {
        TimeUnit::Seconds => 1,
        TimeUnit::Minutes => 60,
        TimeUnit::Hours => 3600,
    }
}

/// The unit that `text` names exactly, if any.
pub open spec fn unit_named(text: Seq<char>) -> Option<TimeUnit> {
    if text == "Seconds"@ {
        Some(TimeUnit::Seconds)
    } else if text == "Minutes"@ {
        Some(TimeUnit::Minutes)
    } else if text == "Hours"@ {
        Some(TimeUnit::Hours)
    } else {
        None
    }
}

/// The three unit names differ.
pub proof fn lemma_unit_names_distinct()
    ensures
        "Seconds"@ != "Minutes"@,
        "Seconds"@ != "Hours"@,
        "Minutes"@ != "Hours"@,
{
    reveal_strlit("Seconds");
    reveal_strlit("Minutes");
    reveal_strlit("Hours");
    assert("Seconds"@[0] != "Minutes"@[0]);
    assert("Seconds"@.len() != "Hours"@.len());
    assert("Minutes"@.len() != "Hours"@.len());
}


impl TimeUnit {
    /// The unit named by `text` (`Seconds`, `Minutes` or `Hours`, matched exactly).
    pub fn parse(text: &str) -> (r: Option<TimeUnit>)
        ensures
            r == unit_named(text@),
    {
        let seconds = "Seconds";
        let minutes = "Minutes";
        let hours = "Hours";
        if str_equal(text, seconds) {
            Some(TimeUnit::Seconds)
        } else if str_equal(text, minutes) {
            Some(TimeUnit::Minutes)
        } else if str_equal(text, hours) {
            Some(TimeUnit::Hours)
        } else {
            None
        }
    }

    /// The unit's name, as `parse` reads it.
    pub fn name(&self) -> (r: String)
        ensures
            unit_named(r@) == Some(*self),
    {
        proof {
            lemma_unit_names_distinct();
        }
        match *self {
            TimeUnit::Seconds => String::from_str("Seconds"),
            TimeUnit::Minutes => String::from_str("Minutes"),
            TimeUnit::Hours => String::from_str("Hours"),
        }
    }

    /// The number of seconds in one unit.
    pub fn seconds_per_unit(&self) -> (r: u64)
        ensures
            r == unit_seconds(*self),
    {
        match self {
            TimeUnit::Seconds => 1,
            TimeUnit::Minutes => 60,
            TimeUnit::Hours => 3600,
        }
    }

    /// `value` units in seconds, or `None` where that does not fit in a `u64`.
    pub fn to_seconds(&self, value: u64) -> (r: Option<u64>)
        ensures
            value * unit_seconds(*self) <= u64::MAX ==> r == Some(
                (value * unit_seconds(*self)) as u64,
            ),
            value * unit_seconds(*self) > u64::MAX ==> r is None,
    {
        value.checked_mul(self.seconds_per_unit())
    }

    /// `value` units as a chrono `TimeDelta`.
    pub fn to_duration(&self, value: u64) -> (r: chrono::TimeDelta)
        requires
            value * unit_seconds(*self) <= MAX_DELTA_SECONDS,
        ensures
            r == delta_of_seconds(value * unit_seconds(*self)),
    {
        let secs = value * self.seconds_per_unit();
        chrono::TimeDelta::seconds(secs as i64)
    }

    /// `value` units as a `Duration`, the type of tokio's timers.
    pub fn to_tokio_duration(&self, value: u64) -> (r: std::time::Duration)
        requires
            value * unit_seconds(*self) <= u64::MAX,
        ensures
            r == duration_of_secs(value * unit_seconds(*self)),
    {
        std::time::Duration::from_secs(value * self.seconds_per_unit())
    }
}

/// Whether two strings hold the same characters.
pub fn str_equal(a: &str, b: &str) -> (r: bool)
    ensures
        r == (a@ == b@),
{
    let n = a.unicode_len();
    if n != b.unicode_len() {
        return false;
    }
    let mut i: usize = 0;
    while i < n
        invariant
            n == a@.len(),
            n == b@.len(),
            0 <= i <= n,
            a@.subrange(0, i as int) == b@.subrange(0, i as int),
        decreases n - i,
    {
        if a.get_char(i) != b.get_char(i) {
            assert(a@[i as int] != b@[i as int]);
            return false;
        }
        assert(a@.subrange(0, i + 1) == a@.subrange(0, i as int).push(a@[i as int]));
        assert(b@.subrange(0, i + 1) == b@.subrange(0, i as int).push(b@[i as int]));
        i = i + 1;
    }
    assert(a@ == a@.subrange(0, n as int));
    assert(b@ == b@.subrange(0, n as int));
    true
}

} // verus!
