use vstd::prelude::*;

verus! {

/// Seconds in the fixed-length year of the breakdown (365 days).
pub const SECONDS_IN_YEAR: u64 = 31536000;

/// Seconds in the fixed-length month of the breakdown (30 days).
pub const SECONDS_IN_MONTH: u64 = 2592000;

pub const SECONDS_IN_DAY: u64 = 86400;

pub const SECONDS_IN_HOUR: u64 = 3600;

pub const SECONDS_IN_MINUTE: u64 = 60;

/// A duration split into fixed-length units. This is a base conversion, not
/// calendar arithmetic: every year has 365 days and every month 30.
#[derive(Debug, Clone, Copy, PartialEq, Eq, Structural)]
pub struct ElapsedTime {
    pub years: u64,
    pub months: u64,
    pub days: u64,
    pub hours: u64,
    pub minutes: u64,
    pub seconds: u64,
}

/// The total number of seconds that a breakdown stands for.
pub open spec fn total_seconds(e: ElapsedTime) -> int {
    e.years * 31536000 + e.months * 2592000 + e.days * 86400 + e.hours * 3600
        + e.minutes * 60 + e.seconds
}

/// The breakdown of `d` seconds: each unit takes what the larger ones left over.
pub open spec fn breakdown_of(d: nat) -> ElapsedTime {
    let after_years = d % 31536000;
    let after_months = after_years % 2592000;
    let after_days = after_months % 86400;
    let after_hours = after_days % 3600;
    ElapsedTime {
        years: (d / 31536000) as u64,
        months: (after_years / 2592000) as u64,
        days: (after_months / 86400) as u64,
        hours: (after_days / 3600) as u64,
        minutes: (after_hours / 60) as u64,
        seconds: (after_hours % 60) as u64,
    }
}

impl ElapsedTime {
    pub fn get_elapsed_time(seconds: u64) -> (r: Self)
        ensures
            r == breakdown_of(seconds as nat),
    {
        let after_years = seconds % SECONDS_IN_YEAR;
        let after_months = after_years % SECONDS_IN_MONTH;
        let after_days = after_months % SECONDS_IN_DAY;
        let after_hours = after_days % SECONDS_IN_HOUR;
        ElapsedTime {
            years: seconds / SECONDS_IN_YEAR,
            months: after_years / SECONDS_IN_MONTH,
            days: after_months / SECONDS_IN_DAY,
            hours: after_days / SECONDS_IN_HOUR,
            minutes: after_hours / SECONDS_IN_MINUTE,
            seconds: after_hours % SECONDS_IN_MINUTE,
        }
    }
}

/// Splitting a duration loses nothing: the units add back up to it exactly.
pub proof fn lemma_breakdown_reconstructs(d: u64)
    ensures
        total_seconds(breakdown_of(d as nat)) == d,
{
    let d = d as nat;
    let y = d / 31536000;
    let a = d % 31536000;
    let mo = a / 2592000;
    let b = a % 2592000;
    let dd = b / 86400;
    let c = b % 86400;
    let h = c / 3600;
    let e = c % 3600;
    let mi = e / 60;
    let s = e % 60;
    assert(d == y * 31536000 + a) by (nonlinear_arith)
        requires y == d / 31536000, a == d % 31536000;
    assert(a == mo * 2592000 + b) by (nonlinear_arith)
        requires mo == a / 2592000, b == a % 2592000;
    assert(b == dd * 86400 + c) by (nonlinear_arith)
        requires dd == b / 86400, c == b % 86400;
    assert(c == h * 3600 + e) by (nonlinear_arith)
        requires h == c / 3600, e == c % 3600;
    assert(e == mi * 60 + s) by (nonlinear_arith)
        requires mi == e / 60, s == e % 60;
    assert(y <= d) by (nonlinear_arith)
        requires y == d / 31536000;
}

} // verus!
