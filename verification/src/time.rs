//! Lengths of time, and points in time, to the nanosecond.

use vstd::prelude::*;

verus! {

/// Nanoseconds in a second.
pub const NANOS_PER_SEC: u128 = 1_000_000_000;

/// The longest length of time, in nanoseconds: its whole seconds fit in 64 bits.
pub const MAX_NANOS: u128 = 18_446_744_073_709_551_615_999_999_999;

/// A length of time. Its whole seconds fit in 64 bits.
#[derive(Clone, Copy, Debug, PartialEq, Eq, Structural, PartialOrd, Ord, Hash)]
pub struct Duration {
    nanos: u128,
}

impl Duration {
    #[verifier::type_invariant]
    spec fn in_range(self) -> bool {
        self.nanos <= MAX_NANOS
    }

    /// The nanoseconds in it.
    pub closed spec fn ns(self) -> nat {
        self.nanos as nat
    }

    /// The whole seconds in it.
    pub open spec fn secs(self) -> nat {
        self.ns() / (NANOS_PER_SEC as nat)
    }

    /// So many seconds.
    pub fn from_secs(secs: u64) -> (d: Self)
        ensures
            d.ns() == secs * NANOS_PER_SEC,
            d.secs() == secs,
    {
        Duration { nanos: secs as u128 * NANOS_PER_SEC }
    }

    /// So many milliseconds.
    pub fn from_millis(millis: u64) -> (d: Self)
        ensures
            d.ns() == millis * 1_000_000,
    {
        Duration { nanos: millis as u128 * 1_000_000 }
    }

    /// So many microseconds.
    pub fn from_micros(micros: u64) -> (d: Self)
        ensures
            d.ns() == micros * 1_000,
    {
        Duration { nanos: micros as u128 * 1_000 }
    }

    /// So many nanoseconds.
    pub fn from_nanos(nanos: u64) -> (d: Self)
        ensures
            d.ns() == nanos,
    {
        Duration { nanos: nanos as u128 }
    }

    /// No time at all.
    pub fn zero() -> (d: Self)
        ensures
            d.ns() == 0,
    {
        Duration { nanos: 0 }
    }

    /// The nanoseconds in it.
    pub fn as_nanos(self) -> (n: u128)
        ensures
            n == self.ns(),
            n <= MAX_NANOS,
    {
        proof {
            use_type_invariant(&self);
        }
        self.nanos
    }

    /// The whole seconds in it.
    pub fn as_secs(self) -> (s: u64)
        ensures
            s == self.secs(),
    {
        proof {
            use_type_invariant(&self);
        }
        (self.nanos / NANOS_PER_SEC) as u64
    }

    /// The two together.
    pub fn plus(self, other: Duration) -> (d: Self)
        requires
            self.ns() + other.ns() <= MAX_NANOS,
        ensures
            d.ns() == self.ns() + other.ns(),
    {
        Duration { nanos: self.nanos + other.nanos }
    }

    /// What is left of it after `other`, or nothing.
    pub fn saturating_sub(self, other: Duration) -> (d: Self)
        ensures
            d.ns() == if self.ns() >= other.ns() {
                (self.ns() - other.ns()) as nat
            } else {
                0
            },
    {
        proof {
            use_type_invariant(&self);
        }
        if self.nanos >= other.nanos {
            Duration { nanos: self.nanos - other.nanos }
        } else {
            Duration { nanos: 0 }
        }
    }
}

/// A length of time is known by its nanoseconds.
pub proof fn lemma_duration_by_ns(a: Duration, b: Duration)
    requires
        a.ns() == b.ns(),
    ensures
        a == b,
{
}

/// A point in time, by its distance from the start of 1970, UTC.
#[derive(Clone, Copy, Debug, PartialEq, Eq, Structural, PartialOrd, Ord, Hash)]
pub struct SystemTime {
    nanos: i128,
}

impl SystemTime {
    #[verifier::type_invariant]
    spec fn in_range(self) -> bool {
        -0x7fff_ffff_ffff_ffff * NANOS_PER_SEC <= self.nanos <= MAX_NANOS
    }

    /// Nanoseconds since the start of 1970; negative before it.
    pub closed spec fn ns(self) -> int {
        self.nanos as int
    }

    /// The seconds since the start of 1970, rounded down.
    pub open spec fn unix(self) -> int {
        self.ns() / (NANOS_PER_SEC as int)
    }

    /// The whole seconds since the start of 1970, or 0 before it.
    pub open spec fn unix_or_zero(self) -> nat {
        if self.ns() >= 0 {
            self.unix() as nat
        } else {
            0
        }
    }

    /// Whether it is a whole number of seconds, not before 1970 and within 64 bits.
    pub open spec fn whole(self) -> bool {
        self.ns() % (NANOS_PER_SEC as int) == 0 && 0 <= self.unix() <= u64::MAX
    }

    /// How long after `earlier` this is, or no time where it is before it.
    pub open spec fn since(self, earlier: SystemTime) -> nat {
        if self.ns() >= earlier.ns() {
            (self.ns() - earlier.ns()) as nat
        } else {
            0
        }
    }

    /// So many seconds after the start of 1970.
    pub fn from_unix(secs: u64) -> (t: Self)
        ensures
            t.ns() == secs * NANOS_PER_SEC,
            t.unix() == secs,
            t.whole(),
    {
        SystemTime { nanos: (secs as u128 * NANOS_PER_SEC) as i128 }
    }

    /// So many microseconds after the start of 1970.
    pub fn from_unix_micros(micros: u64) -> (t: Self)
        ensures
            t.ns() == micros * 1_000,
    {
        SystemTime { nanos: (micros as u128 * 1_000) as i128 }
    }

    /// So long after the start of 1970.
    pub fn after_epoch(d: Duration) -> (t: Self)
        ensures
            t.ns() == d.ns(),
    {
        let n: u128 = d.as_nanos();
        SystemTime { nanos: n as i128 }
    }

    /// So long before the start of 1970, but at most 2^63 - 1 seconds.
    pub fn before_epoch(d: Duration) -> (t: Self)
        ensures
            t.ns() == if d.ns() <= 0x7fff_ffff_ffff_ffff * NANOS_PER_SEC {
                -(d.ns() as int)
            } else {
                -0x7fff_ffff_ffff_ffff * NANOS_PER_SEC
            },
    {
        let n: u128 = d.as_nanos();
        let most: u128 = 0x7fff_ffff_ffff_ffffu128 * NANOS_PER_SEC;
        if n <= most {
            SystemTime { nanos: -(n as i128) }
        } else {
            SystemTime { nanos: -(most as i128) }
        }
    }

    /// How long after `earlier` this is, or `None` where it is before it.
    pub fn duration_since(self, earlier: SystemTime) -> (d: Option<Duration>)
        requires
            self.ns() - earlier.ns() <= MAX_NANOS,
        ensures
            match d {
                Some(d) => self.ns() >= earlier.ns() && d.ns() == self.ns() - earlier.ns(),
                None => self.ns() < earlier.ns(),
            },
    {
        proof {
            use_type_invariant(&self);
            use_type_invariant(&earlier);
        }
        if self.nanos >= earlier.nanos {
            Some(Duration { nanos: (self.nanos - earlier.nanos) as u128 })
        } else {
            None
        }
    }

    /// The nanoseconds from `earlier` to this, or 0 where it is before it.
    pub fn nanos_since(self, earlier: SystemTime) -> (n: u128)
        ensures
            n == self.since(earlier),
            n <= 2 * MAX_NANOS,
    {
        proof {
            use_type_invariant(&self);
            use_type_invariant(&earlier);
        }
        if self.nanos >= earlier.nanos {
            (self.nanos - earlier.nanos) as u128
        } else {
            0
        }
    }

    /// How long after `earlier` this is, or no time where it is before it; at most the longest
    /// length of time there is.
    pub fn elapsed_since(self, earlier: SystemTime) -> (d: Duration)
        ensures
            d.ns() == if self.since(earlier) <= MAX_NANOS {
                self.since(earlier)
            } else {
                MAX_NANOS as nat
            },
    {
        let n: u128 = self.nanos_since(earlier);
        if n <= MAX_NANOS {
            Duration { nanos: n }
        } else {
            Duration { nanos: MAX_NANOS }
        }
    }

    /// So long after this.
    pub fn plus(self, d: Duration) -> (t: Self)
        requires
            self.ns() + d.ns() <= MAX_NANOS,
        ensures
            t.ns() == self.ns() + d.ns(),
    {
        proof {
            use_type_invariant(&self);
        }
        let n: u128 = d.as_nanos();
        SystemTime { nanos: self.nanos + n as i128 }
    }

    /// Whether it is before `other`.
    pub fn is_before(self, other: SystemTime) -> (r: bool)
        ensures
            r == (self.ns() < other.ns()),
    {
        self.nanos < other.nanos
    }

    /// The whole seconds since the start of 1970, or `None` for a point in time before it.
    pub fn unix_secs(self) -> (s: Option<u64>)
        ensures
            match s {
                Some(s) => self.ns() >= 0 && s == self.unix(),
                None => self.ns() < 0,
            },
    {
        proof {
            use_type_invariant(&self);
        }
        if self.nanos >= 0 {
            Some((self.nanos as u128 / NANOS_PER_SEC) as u64)
        } else {
            None
        }
    }

    /// The whole seconds since the start of 1970, or 0 for a point in time before it.
    pub fn secs_or_zero(self) -> (s: u64)
        ensures
            s == self.unix_or_zero(),
    {
        match self.unix_secs() {
            Some(s) => s,
            None => 0,
        }
    }
}

/// A point in time is known by its nanoseconds.
pub proof fn lemma_time_by_ns(a: SystemTime, b: SystemTime)
    requires
        a.ns() == b.ns(),
    ensures
        a == b,
{
}

/// The units of time agree with each other: a thousand of each make one of the next, and a whole number
/// of seconds is read back.
pub proof fn law_the_units_of_time_agree(
    n: u64,
    m: u64,
    s: Duration,
    ms: Duration,
    us: Duration,
    ns: Duration,
    back: u64,
    part: u64,
)
    requires
        call_ensures(Duration::from_secs, (n,), s),
        call_ensures(Duration::from_millis, (m,), ms),
        call_ensures(Duration::from_micros, (m,), us),
        call_ensures(Duration::from_nanos, (m,), ns),
        call_ensures(Duration::as_secs, (s,), back),
        call_ensures(Duration::as_secs, (ms,), part),
    ensures
        m == n * 1_000 ==> ms == s,
        m == n * 1_000_000 ==> us == s,
        m == n * 1_000_000_000 ==> ns == s,
        back == n,
        part == m / 1_000,
        us.ns() == 1_000 * ns.ns(),
        ms.ns() == 1_000 * us.ns(),
{
    assert(m as int * 1_000_000 / 1_000_000_000 == m as int / 1_000);
}

/// What is taken off a length of time comes back by adding it, and taking off more leaves nothing.
pub proof fn law_what_is_taken_off_comes_back(
    a: Duration,
    b: Duration,
    left: Duration,
    sum: Duration,
    z: Duration,
)
    requires
        call_ensures(Duration::saturating_sub, (a, b), left),
        call_ensures(Duration::plus, (left, b), sum),
        call_ensures(Duration::zero, (), z),
    ensures
        a.ns() >= b.ns() ==> sum == a,
        a.ns() <= b.ns() ==> left == z,
        z.ns() == 0,
{
}

/// A point in time lies as far behind an earlier one as leads from that to it, and none lies behind a
/// later one.
pub proof fn law_a_point_in_time_lies_where_adding_leads(
    t: SystemTime,
    d: Duration,
    later: SystemTime,
    r: Option<Duration>,
    back: Option<Duration>,
    e: Duration,
    before: bool,
)
    requires
        call_ensures(SystemTime::plus, (t, d), later),
        call_ensures(SystemTime::duration_since, (later, t), r),
        call_ensures(SystemTime::duration_since, (t, later), back),
        call_ensures(SystemTime::elapsed_since, (later, t), e),
        call_ensures(SystemTime::is_before, (t, later), before),
        d.ns() <= 18_446_744_073_709_551_615_999_999_999,
    ensures
        r == Some(d),
        e == d,
        before <==> d.ns() > 0,
        d.ns() > 0 ==> back is None,
{
}

/// A point in time knows its seconds since the start of 1970: those that it was made of, and none
/// before that.
pub proof fn law_a_point_in_time_knows_its_seconds(
    n: u64,
    t: SystemTime,
    s: Option<u64>,
    d: Duration,
    early: SystemTime,
    none: Option<u64>,
    zero: u64,
    us: SystemTime,
    us_secs: u64,
)
    requires
        call_ensures(SystemTime::from_unix, (n,), t),
        call_ensures(SystemTime::unix_secs, (t,), s),
        call_ensures(SystemTime::before_epoch, (d,), early),
        call_ensures(SystemTime::unix_secs, (early,), none),
        call_ensures(SystemTime::secs_or_zero, (early,), zero),
        call_ensures(SystemTime::from_unix_micros, (n,), us),
        call_ensures(SystemTime::secs_or_zero, (us,), us_secs),
        d.ns() > 0,
    ensures
        s == Some(n),
        none is None,
        zero == 0,
        us_secs == n / 1_000_000,
{
    assert(n as int * 1_000 / 1_000_000_000 == n as int / 1_000_000);
}

} // verus!
