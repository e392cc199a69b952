use vstd::prelude::*;

verus! {

/// Seconds in the day window.
pub const SECONDS_PER_DAY: u64 = 86400;

/// Seconds in the year window (365 days).
pub const SECONDS_PER_YEAR: u64 = 31536000;

/// Nanoseconds in a second.
pub const NANOS_PER_SECOND: u64 = 1000000000;

/// Nanoseconds in an hour.
pub const NANOS_PER_HOUR: u64 = 3600000000000;

/// The four quota windows, in the order in which they are consulted.
#[derive(Clone, Copy, Debug, PartialEq, Eq, Structural)]
pub enum Window {
    Second,
    Hour,
    Day,
    Year,
}

/// The window at a position of the consulting order.
pub open spec fn window_at(i: int) -> Window {
    if i == 0 {
        Window::Second
    } else if i == 1 {
        Window::Hour
    } else if i == 2 {
        Window::Day
    } else {
        Window::Year
    }
}

pub open spec fn window_name(w: Window) -> Seq<char> {
    match w {
        Window::Second => "Second"@,
        Window::Hour => "Hour"@,
        Window::Day => "Day"@,
        Window::Year => "Year"@,
    }
}

impl Window {
    /// The window at position `i` of the order Second, Hour, Day, Year.
    pub fn at(i: usize) -> (r: Window)
        requires
            i < 4,
        ensures
            r == window_at(i as int),
    {
        if i == 0 {
            Window::Second
        } else if i == 1 {
            Window::Hour
        } else if i == 2 {
            Window::Day
        } else {
            Window::Year
        }
    }

    /// The window's name, as reported to callers.
    pub fn name(&self) -> (r: &'static str)
        ensures
            r@ == window_name(*self),
    {
        match self {
            Window::Second => "Second",
            Window::Hour => "Hour",
            Window::Day => "Day",
            Window::Year => "Year",
        }
    }
}

/// How many requests each window admits; the burst of each window equals its
/// quota.
#[derive(Clone, Copy, Debug, PartialEq, Eq, Structural)]
pub struct UsageLimit {
    pub per_second: u32,
    pub per_hour: u32,
    pub per_day: u64,
    pub per_year: u64,
}

/// Why a set of quotas cannot configure the limiters.
#[derive(Clone, Copy, Debug, PartialEq, Eq, Structural)]
pub enum QuotaError {
    /// A window was given a quota of zero.
    Zero(Window),
    /// The quota is so large that one unit would refill in no time: more
    /// than a billion per second, or more per day or per year than the
    /// window has seconds.
    TooLarge(Window),
}

/// The quotas that the limiters accept: all positive, the second quota no
/// larger than the nanoseconds in a second, and the day and year quotas no
/// larger than the seconds in their windows.
pub open spec fn quotas_valid(per_second: u32, per_hour: u32, per_day: u64, per_year: u64) -> bool {
    &&& 0 < per_second <= NANOS_PER_SECOND
    &&& per_hour > 0
    &&& 0 < per_day <= SECONDS_PER_DAY
    &&& 0 < per_year <= SECONDS_PER_YEAR
}

/// The error that `UsageLimit::new` reports for the given quotas: the first
/// offending window in the order Second, Hour, Day, Year.
pub open spec fn quota_error(per_second: u32, per_hour: u32, per_day: u64, per_year: u64) -> QuotaError {
    if per_second == 0 {
        QuotaError::Zero(Window::Second)
    } else if per_second > NANOS_PER_SECOND {
        QuotaError::TooLarge(Window::Second)
    } else if per_hour == 0 {
        QuotaError::Zero(Window::Hour)
    } else if per_day == 0 {
        QuotaError::Zero(Window::Day)
    } else if per_day > SECONDS_PER_DAY {
        QuotaError::TooLarge(Window::Day)
    } else if per_year == 0 {
        QuotaError::Zero(Window::Year)
    } else {
        QuotaError::TooLarge(Window::Year)
    }
}

/// What one window's limiter enforces: a burst of `burst` units, and one
/// unit refilled every `period_nanos` nanoseconds.
#[derive(Clone, Copy, Debug, PartialEq, Eq, Structural)]
pub struct WindowQuota {
    pub burst: u32,
    pub period_nanos: u64,
}

/// The quota of window `w` under `l`: the burst equals the window's quota,
/// and the window's length is shared out among its units. For the second
/// and the hour the share is taken in nanoseconds; for the day and the year
/// it is taken in whole seconds.
pub open spec fn window_quota(l: UsageLimit, w: Window) -> WindowQuota {
    match w {
        Window::Second => WindowQuota {
            burst: l.per_second,
            period_nanos: (NANOS_PER_SECOND / (l.per_second as u64)) as u64,
        },
        Window::Hour => WindowQuota {
            burst: l.per_hour,
            period_nanos: (NANOS_PER_HOUR / (l.per_hour as u64)) as u64,
        },
        Window::Day => WindowQuota {
            burst: l.per_day as u32,
            period_nanos: ((SECONDS_PER_DAY / l.per_day) * NANOS_PER_SECOND) as u64,
        },
        Window::Year => WindowQuota {
            burst: l.per_year as u32,
            period_nanos: ((SECONDS_PER_YEAR / l.per_year) * NANOS_PER_SECOND) as u64,
        },
    }
}

impl UsageLimit {
    pub open spec fn wf(&self) -> bool {
        quotas_valid(self.per_second, self.per_hour, self.per_day, self.per_year)
    }

    /// Checks a set of quotas.
    pub fn new(per_second: u32, per_hour: u32, per_day: u64, per_year: u64) -> (r: Result<
        UsageLimit,
        QuotaError,
    >)
        ensures
            quotas_valid(per_second, per_hour, per_day, per_year) ==> r == Ok::<
                UsageLimit,
                QuotaError,
            >(UsageLimit { per_second, per_hour, per_day, per_year }),
            !quotas_valid(per_second, per_hour, per_day, per_year) ==> r == Err::<
                UsageLimit,
                QuotaError,
            >(quota_error(per_second, per_hour, per_day, per_year)),
    {
        if per_second == 0 {
            Err(QuotaError::Zero(Window::Second))
        } else if per_second as u64 > NANOS_PER_SECOND {
            Err(QuotaError::TooLarge(Window::Second))
        } else if per_hour == 0 {
            Err(QuotaError::Zero(Window::Hour))
        } else if per_day == 0 {
            Err(QuotaError::Zero(Window::Day))
        } else if per_day > SECONDS_PER_DAY {
            Err(QuotaError::TooLarge(Window::Day))
        } else if per_year == 0 {
            Err(QuotaError::Zero(Window::Year))
        } else if per_year > SECONDS_PER_YEAR {
            Err(QuotaError::TooLarge(Window::Year))
        } else {
            Ok(UsageLimit { per_second, per_hour, per_day, per_year })
        }
    }

    /// The built-in quotas: 2 per second, 400 per hour, 4000 per day and
    /// 400000 per year.
    pub open spec fn default_limits_spec() -> UsageLimit {
        UsageLimit { per_second: 2, per_hour: 400, per_day: 4000, per_year: 400000 }
    }

    /// The built-in quotas.
    pub fn default_limits() -> (r: UsageLimit)
        ensures
            r.wf(),
            r == Self::default_limits_spec(),
    {
        UsageLimit { per_second: 2, per_hour: 400, per_day: 4000, per_year: 400000 }
    }

    /// Seconds between two refills of the day window.
    pub fn day_period_secs(&self) -> (r: u64)
        requires
            self.wf(),
        ensures
            r == SECONDS_PER_DAY / self.per_day,
            r > 0,
    {
        let d = self.per_day;
        assert(86400u64 / d >= 1) by (nonlinear_arith)
            requires
                0 < d <= 86400,
        ;
        SECONDS_PER_DAY / d
    }

    /// Seconds between two refills of the year window.
    pub fn year_period_secs(&self) -> (r: u64)
        requires
            self.wf(),
        ensures
            r == SECONDS_PER_YEAR / self.per_year,
            r > 0,
    {
        let y = self.per_year;
        assert(31536000u64 / y >= 1) by (nonlinear_arith)
            requires
                0 < y <= 31536000,
        ;
        SECONDS_PER_YEAR / y
    }

    /// The quota that window `w` enforces under these limits.
    pub fn window_quota(&self, w: Window) -> (r: WindowQuota)
        requires
            self.wf(),
        ensures
            r == window_quota(*self, w),
            r.burst > 0,
            r.period_nanos > 0,
    {
        match w {
            Window::Second => {
                let n = self.per_second as u64;
                assert(1000000000u64 / n >= 1) by (nonlinear_arith)
                    requires
                        0 < n <= 1000000000,
                ;
                WindowQuota { burst: self.per_second, period_nanos: NANOS_PER_SECOND / n }
            },
            Window::Hour => {
                let n = self.per_hour as u64;
                assert(3600000000000u64 / n >= 1) by (nonlinear_arith)
                    requires
                        0 < n <= 4294967295,
                ;
                WindowQuota { burst: self.per_hour, period_nanos: NANOS_PER_HOUR / n }
            },
            Window::Day => {
                let secs = self.day_period_secs();
                assert(secs * 1000000000 <= 86400 * 1000000000) by (nonlinear_arith)
                    requires
                        secs <= 86400,
                ;
                assert(secs * 1000000000 >= 1) by (nonlinear_arith)
                    requires
                        secs >= 1,
                ;
                WindowQuota { burst: self.per_day as u32, period_nanos: secs * NANOS_PER_SECOND }
            },
            Window::Year => {
                let secs = self.year_period_secs();
                assert(secs * 1000000000 <= 31536000 * 1000000000) by (nonlinear_arith)
                    requires
                        secs <= 31536000,
                ;
                assert(secs * 1000000000 >= 1) by (nonlinear_arith)
                    requires
                        secs >= 1,
                ;
                WindowQuota { burst: self.per_year as u32, period_nanos: secs * NANOS_PER_SECOND }
            },
        }
    }
}

} // verus!
