//! Times of day and the reading of raw check-in strings.
use vstd::prelude::*;
use vstd::string::*;

verus! {

/// A time of day, as hour, minute and second.
#[derive(Clone, Copy, Debug, PartialEq, Eq, Structural)]
pub struct TimeOfDay {
    pub hour: u32,
    pub minute: u32,
    pub second: u32,
}

impl TimeOfDay {
    /// Hour below 24, minute and second below 60.
    pub open spec fn is_valid(self) -> bool {
        self.hour < 24 && self.minute < 60 && self.second < 60
    }

    /// Seconds since midnight.
    pub open spec fn seconds(self) -> int {
        self.hour * 3600 + self.minute * 60 + self.second
    }

    pub fn new(hour: u32, minute: u32, second: u32) -> (r: TimeOfDay)
        ensures
            r == (TimeOfDay { hour, minute, second }),
    {
        TimeOfDay { hour, minute, second }
    }

    pub fn seconds_of_day(&self) -> (r: u64)
        ensures
            r as int == self.seconds(),
    {
        self.hour as u64 * 3600 + self.minute as u64 * 60 + self.second as u64
    }

    /// Whether this time lies strictly after `other`.
    pub fn is_after(&self, other: &TimeOfDay) -> (r: bool)
        ensures
            r == (self.seconds() > other.seconds()),
    {
        self.seconds_of_day() > other.seconds_of_day()
    }
}

/// The check-in value that records that a member did not come in.
pub open spec fn no_check_in() -> Seq<char> {
    "00:00:00"@
}

/// `k` ends the whole-seconds part of `s`: it is the first '.', or the end.
pub open spec fn ends_whole_part(s: Seq<char>, k: int) -> bool {
    &&& 0 <= k <= s.len()
    &&& k < s.len() ==> s[k] == '.'
    &&& forall|j: int| 0 <= j < k ==> s[j] != '.'
}

/// The part of a check-in string before any fractional-second separator.
pub open spec fn whole_part(s: Seq<char>) -> Seq<char> {
    s.subrange(0, choose|k: int| ends_whole_part(s, k))
}

/// The time of day that chrono reads from `s` with the format "%H:%M:%S".
pub uninterp spec fn clock_of(s: Seq<char>) -> Option<TimeOfDay>;

/// The time of day a check-in string stands for, if it reads as one.
pub open spec fn check_in_time(s: Seq<char>) -> Option<TimeOfDay> {
    clock_of(whole_part(s))
}

/// Relies on chrono's `NaiveTime::parse_from_str` with "%H:%M:%S" and on
/// `Timelike`: the result depends on the text alone, and a time it reads has
/// an hour below 24 and a minute and second below 60 (a leap second reads as 59).
#[verifier::external_body]
fn read_clock(s: &str) -> (r: Option<TimeOfDay>)
    ensures
        r == clock_of(s@),
        r matches Some(t) ==> t.is_valid(),
{
    match chrono::NaiveTime::parse_from_str(s, "%H:%M:%S") {
        Ok(t) => Some(TimeOfDay {
            hour: chrono::Timelike::hour(&t),
            minute: chrono::Timelike::minute(&t),
            second: chrono::Timelike::second(&t),
        }),
        Err(_) => None,
    }
}

proof fn lemma_whole_part_end_unique(s: Seq<char>, k: int)
    requires
        ends_whole_part(s, k),
    ensures
        whole_part(s) == s.subrange(0, k),
{
    let c = choose|k: int| ends_whole_part(s, k);
    assert(ends_whole_part(s, c));
    if c < k {
        assert(s[c] != '.');
    } else if k < c {
        assert(s[k] != '.');
    }
}

/// The part of `s` before its first '.', or all of `s` when it has none.
pub fn whole_seconds(s: &str) -> (r: &str)
    ensures
        r@ == whole_part(s@),
{
    let n = s.unicode_len();
    let mut k: usize = 0;
    while k < n
        invariant
            n == s@.len(),
            k <= n,
            forall|j: int| 0 <= j < k ==> s@[j] != '.',
        ensures
            k <= n,
            k < n ==> s@[k as int] == '.',
            forall|j: int| 0 <= j < k ==> s@[j] != '.',
        decreases n - k,
    {
        if s.get_char(k) == '.' {
            break;
        }
        k = k + 1;
    }
    proof {
        lemma_whole_part_end_unique(s@, k as int);
    }
    s.substring_char(0, k)
}

/// Reads a check-in string as a time of day, ignoring any fraction of a second.
pub fn parse_check_in(s: &str) -> (r: Option<TimeOfDay>)
    ensures
        r == check_in_time(s@),
        r matches Some(t) ==> t.is_valid(),
{
    read_clock(whole_seconds(s))
}

} // verus!
