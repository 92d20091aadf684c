//! Time management: the raw nanosecond time type, its abstraction as an
//! infinite-or-finite duration, and the hypervisor time operations.

use vstd::prelude::*;
use crate::types::{ApexLongInteger, Error, ErrorReturnCode};

verus! {

/// Raw time in nanoseconds; all negative values mean "infinite".
pub type ApexSystemTime = ApexLongInteger;

pub const INFINITE_TIME_VALUE: ApexSystemTime = -1;

pub const NANOS_PER_SEC: u32 = 1_000_000_000;

/// A plain seconds-plus-nanoseconds span, well-formed when the nanosecond
/// part stays below one second.
#[derive(Copy, Clone, Debug, PartialEq, Eq, Structural)]
pub struct Duration {
    pub secs: u64,
    pub nanos: u32,
}

/// The nanosecond count a duration stands for.
pub open spec fn dur_nanos(d: Duration) -> int {
    d.secs * (NANOS_PER_SEC as int) + d.nanos
}

/// The nanosecond part never reaches a full second.
pub open spec fn dur_wf(d: Duration) -> bool {
    d.nanos < NANOS_PER_SEC
}

impl Duration {
    pub fn new(secs: u64, nanos: u32) -> (r: Duration)
        requires
            nanos < NANOS_PER_SEC,
        ensures
            r == (Duration { secs, nanos }),
            dur_wf(r),
    {
        Duration { secs, nanos }
    }

    pub fn from_secs(secs: u64) -> (r: Duration)
        ensures
            dur_nanos(r) == secs * (NANOS_PER_SEC as int),
            dur_wf(r),
    {
        Duration { secs, nanos: 0 }
    }

    pub fn from_millis(millis: u64) -> (r: Duration)
        ensures
            dur_nanos(r) == millis * 1_000_000,
            dur_wf(r),
    {
        let r = Duration { secs: millis / 1000, nanos: (millis % 1000) as u32 * 1_000_000 };
        proof {
            assert(r.secs * (NANOS_PER_SEC as int) + r.nanos == millis * 1_000_000) by (nonlinear_arith)
                requires
                    r.secs == millis / 1000,
                    r.nanos == (millis % 1000) * 1_000_000,
            {}
        }
        r
    }

    pub fn from_nanos(nanos: u64) -> (r: Duration)
        ensures
            dur_nanos(r) == nanos,
            dur_wf(r),
    {
        let r = Duration {
            secs: nanos / (NANOS_PER_SEC as u64),
            nanos: (nanos % (NANOS_PER_SEC as u64)) as u32,
        };
        proof {
            assert(r.secs * (NANOS_PER_SEC as int) + r.nanos == nanos) by (nonlinear_arith)
                requires
                    r.secs == (nanos as int) / (NANOS_PER_SEC as int),
                    r.nanos == (nanos as int) % (NANOS_PER_SEC as int),
            {}
        }
        r
    }

    pub fn as_secs(&self) -> (r: u64)
        ensures
            r == self.secs,
    {
        self.secs
    }

    pub fn subsec_nanos(&self) -> (r: u32)
        ensures
            r == self.nanos,
    {
        self.nanos
    }

    pub fn as_nanos(&self) -> (r: u128)
        ensures
            r == dur_nanos(*self),
    {
        proof {
            assert(self.secs * (NANOS_PER_SEC as int) <= 0xffff_ffff_ffff_ffffu64
                * (NANOS_PER_SEC as int)) by (nonlinear_arith)
                requires
                    self.secs <= 0xffff_ffff_ffff_ffffu64,
            {}
        }
        self.secs as u128 * NANOS_PER_SEC as u128 + self.nanos as u128
    }

    pub fn is_zero(&self) -> (r: bool)
        ensures
            r <==> dur_nanos(*self) == 0,
    {
        self.secs == 0 && self.nanos == 0
    }
}

/// Abstracted time: either a finite duration or infinite, standing in for
/// the raw type whose negative values all mean "infinite".
#[derive(Copy, Clone, Debug, PartialEq, Eq, Structural)]
pub enum SystemTime {
    Infinite,
    Normal(Duration),
}

/// What a raw time value abstracts to.
pub open spec fn spec_system_time_of(t: ApexSystemTime) -> SystemTime {
    if t < 0 {
        SystemTime::Infinite
    } else {
        SystemTime::Normal(
            Duration {
                secs: ((t as int) / (NANOS_PER_SEC as int)) as u64,
                nanos: ((t as int) % (NANOS_PER_SEC as int)) as u32,
            },
        )
    }
}

impl SystemTime {
    /// Abstracts a raw time value; every negative value is infinite.
    pub fn new(time: ApexSystemTime) -> (r: Self)
        ensures
            r == spec_system_time_of(time),
            r matches SystemTime::Normal(d) ==> dur_wf(d) && dur_nanos(d) == time,
    {
        if time < 0 {
            SystemTime::Infinite
        } else {
            let d = Duration::from_nanos(time as u64);
            proof {
                assert(d == spec_system_time_of(time)->Normal_0);
            }
            SystemTime::Normal(d)
        }
    }

    /// The duration of a finite time; an infinite one is ruled out by the
    /// precondition.
    pub fn unwrap_duration(self) -> (r: Duration)
        requires
            self is Normal,
        ensures
            self == SystemTime::Normal(r),
    {
        match self {
            SystemTime::Normal(time) => time,
            SystemTime::Infinite => unreached(),
        }
    }

    /// The raw value of this time: the nanosecond count when it is finite
    /// and representable, the infinite value otherwise.
    pub fn to_apex(self) -> (r: ApexSystemTime)
        ensures
            self is Infinite ==> r == INFINITE_TIME_VALUE,
            self matches SystemTime::Normal(d) ==> (dur_nanos(d) <= i64::MAX ==> r == dur_nanos(d))
                && (dur_nanos(d) > i64::MAX ==> r == INFINITE_TIME_VALUE),
    {
        match self {
            SystemTime::Normal(d) => {
                let total = d.as_nanos();
                if total <= i64::MAX as u128 {
                    total as i64
                } else {
                    INFINITE_TIME_VALUE
                }
            },
            SystemTime::Infinite => INFINITE_TIME_VALUE,
        }
    }

    /// The duration of a finite time, or `None` for an infinite one.
    pub fn to_duration(self) -> (r: Option<Duration>)
        ensures
            self matches SystemTime::Normal(d) ==> r == Some(d),
            self is Infinite ==> r is None,
    {
        match self {
            SystemTime::Normal(d) => Some(d),
            SystemTime::Infinite => None,
        }
    }
}

/// Required time management operations of every hypervisor.
pub trait ApexTimeP4 {
    /// Waits until the next release point of the calling periodic process.
    fn periodic_wait() -> Result<(), ErrorReturnCode>;

    /// The current system time; never fails.
    fn get_time() -> ApexSystemTime;
}

/// Extended time management operations of a full hypervisor.
pub trait ApexTimeP1: ApexTimeP4 {
    fn timed_wait(delay_time: ApexSystemTime) -> Result<(), ErrorReturnCode>;

    /// Updates the deadline of the calling process by the given budget.
    fn replenish(budget_time: ApexSystemTime) -> Result<(), ErrorReturnCode>;
}

/// Free extra operations for every implementer of [`ApexTimeP4`].
pub trait ApexTimeP4Ext: Sized {
    /// Waits until the next release point of the calling periodic process.
    fn periodic_wait() -> Result<(), Error>;

    /// The current system time, abstracted; a finite result is well-formed.
    fn get_time() -> (r: SystemTime)
        ensures
            r matches SystemTime::Normal(d) ==> dur_wf(d);
}

impl<T: ApexTimeP4> ApexTimeP4Ext for T {
    fn periodic_wait() -> Result<(), Error> {
        match <T as ApexTimeP4>::periodic_wait() {
            Ok(()) => Ok(()),
            Err(e) => Err(Error::from(e)),
        }
    }

    fn get_time() -> (r: SystemTime) {
        SystemTime::new(<T as ApexTimeP4>::get_time())
    }
}

/// Free extra operations for every implementer of [`ApexTimeP1`].
pub trait ApexTimeP1Ext: Sized {
    fn timed_wait(delay_time: Duration) -> Result<(), Error>;

    /// Updates the deadline of the calling process by the given budget.
    fn replenish(budget_time: Duration) -> Result<(), Error>;
}

impl<T: ApexTimeP1> ApexTimeP1Ext for T {
    fn timed_wait(delay_time: Duration) -> Result<(), Error> {
        match <T as ApexTimeP1>::timed_wait(SystemTime::Normal(delay_time).to_apex()) {
            Ok(()) => Ok(()),
            Err(e) => Err(Error::from(e)),
        }
    }

    fn replenish(budget_time: Duration) -> Result<(), Error> {
        match <T as ApexTimeP1>::replenish(SystemTime::Normal(budget_time).to_apex()) {
            Ok(()) => Ok(()),
            Err(e) => Err(Error::from(e)),
        }
    }
}

} // verus!
