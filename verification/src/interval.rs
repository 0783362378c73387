//! Lengths of time.

use vstd::prelude::*;
use vstd::string::*;

verus! {

/// Nanoseconds in a second.
pub const NANOS_PER_SEC: u64 = 1_000_000_000;

/// The most digits a time span may be written with. With so few, no sum of
/// its parts comes near the largest number of seconds, whatever their units.
pub const MAX_SPAN_DIGITS: usize = 11;

/// A length of time: whole seconds and less than a second of nanoseconds.
#[derive(Clone, Copy, Debug, PartialEq, Eq, Structural)]
pub struct Interval {
    pub secs: u64,
    pub nanos: u32,
}

impl Interval {
    /// The nanoseconds stay below one second.
    pub open spec fn wf(self) -> bool {
        self.nanos < 1_000_000_000
    }

    /// The length in nanoseconds.
    pub open spec fn total_nanos(self) -> nat {
        (self.secs as nat) * 1_000_000_000 + self.nanos as nat
    }

    /// The longest interval there is.
    pub open spec fn longest() -> Interval {
        Interval { secs: u64::MAX, nanos: 999_999_999 }
    }

    /// `nanos` nanoseconds are no longer than the longest interval.
    pub open spec fn fits(nanos: nat) -> bool {
        nanos / 1_000_000_000 <= u64::MAX
    }

    /// The interval of `nanos` nanoseconds, and the longest interval where
    /// that would be longer.
    pub open spec fn of_nanos(nanos: nat) -> Interval {
        if Interval::fits(nanos) {
            Interval {
                secs: (nanos / 1_000_000_000) as u64,
                nanos: (nanos % 1_000_000_000) as u32,
            }
        } else {
            Interval::longest()
        }
    }

    /// The interval of `millis` milliseconds.
    pub open spec fn of_millis(millis: u64) -> Interval {
        Interval { secs: millis / 1000, nanos: ((millis % 1000) * 1_000_000) as u32 }
    }

    /// The interval of `millis` milliseconds.
    pub fn from_millis(millis: u64) -> (interval: Interval)
        ensures
            interval == Interval::of_millis(millis),
            interval == Interval::of_nanos(millis as nat * 1_000_000),
            interval.wf(),
            interval.total_nanos() == millis as nat * 1_000_000,
    {
        let whole: u64 = millis / 1000;
        let rest: u64 = millis % 1000;
        assert(millis as nat * 1_000_000 == whole as nat * 1_000_000_000 + rest as nat
            * 1_000_000);
        Interval { secs: whole, nanos: (rest * 1_000_000) as u32 }
    }

    /// No time at all.
    pub fn zero() -> (interval: Interval)
        ensures
            interval == (Interval { secs: 0, nanos: 0 }),
    {
        Interval { secs: 0, nanos: 0 }
    }

    /// Twice this interval, and the longest interval where that would be
    /// longer.
    pub fn doubled(self) -> (twice: Interval)
        ensures
            twice == Interval::of_nanos(2 * self.total_nanos()),
            twice.wf(),
    {
        let nanos: u64 = (self.nanos as u64) * 2;
        let carry: u64 = nanos / NANOS_PER_SEC;
        let rest: u64 = nanos % NANOS_PER_SEC;
        assert(2 * self.total_nanos() == (2 * self.secs as nat + carry as nat) * 1_000_000_000
            + rest as nat);
        match self.secs.checked_mul(2) {
            Some(secs) => match secs.checked_add(carry) {
                Some(whole) => Interval { secs: whole, nanos: rest as u32 },
                None => Interval { secs: u64::MAX, nanos: 999_999_999 },
            },
            None => Interval { secs: u64::MAX, nanos: 999_999_999 },
        }
    }
}

/// What `of_nanos` keeps of a number of nanoseconds: all of it where it
/// fits, and never more than it.
pub proof fn lemma_of_nanos(nanos: nat)
    ensures
        Interval::of_nanos(nanos).wf(),
        Interval::fits(nanos) ==> Interval::of_nanos(nanos).total_nanos() == nanos,
        !Interval::fits(nanos) ==> Interval::of_nanos(nanos) == Interval::longest(),
        Interval::of_nanos(nanos).total_nanos() <= nanos,
        Interval::fits(Interval::of_nanos(nanos).total_nanos()),
{
}

/// A longer span of nanoseconds gives no shorter interval.
pub proof fn lemma_of_nanos_grows(shorter: nat, longer: nat)
    requires
        shorter <= longer,
    ensures
        Interval::of_nanos(shorter).total_nanos() <= Interval::of_nanos(longer).total_nanos(),
        Interval::fits(longer) ==> Interval::fits(shorter),
{
    lemma_of_nanos(shorter);
    lemma_of_nanos(longer);
}

/// `c` is one of the ten digits.
pub open spec fn is_digit(c: char) -> bool {
    '0' <= c && c <= '9'
}

/// The number of digits in `text`.
pub open spec fn digit_count(text: Seq<char>) -> nat
    decreases text.len(),
{
    if text.len() == 0 {
        0
    } else {
        digit_count(text.drop_last()) + if is_digit(text.last()) {
            1nat
        } else {
            0nat
        }
    }
}

/// `text` is written with no more digits than a time span may have.
pub open spec fn span_is_short(text: Seq<char>) -> bool {
    digit_count(text) <= MAX_SPAN_DIGITS
}

/// Whether `text` is written with no more digits than a time span may have.
pub fn is_short_span(text: &str) -> (short: bool)
    ensures
        short == span_is_short(text@),
{
    let n = text.unicode_len();
    let mut digits: usize = 0;
    let mut i: usize = 0;
    assert(text@.subrange(0, 0) =~= Seq::<char>::empty());
    while i < n
        invariant
            i <= n,
            n == text@.len(),
            digits <= i,
            digits == digit_count(text@.subrange(0, i as int)),
        decreases n - i,
    {
        let c = text.get_char(i);
        assert(text@.subrange(0, i + 1).drop_last() =~= text@.subrange(0, i as int));
        if c >= '0' && c <= '9' {
            digits = digits + 1;
        }
        i = i + 1;
    }
    assert(text@.subrange(0, n as int) =~= text@);
    digits <= MAX_SPAN_DIGITS
}

} // verus!
