//! Voting arithmetic shared by the election and governance contracts: the integer square root,
//! quadratic time-staked voting power, and the UTC day of the month of a timestamp.

use vstd::prelude::*;
use crate::types::BPS_DENOMINATOR;

verus! {

/// Milliseconds in one day.
pub const MS_PER_DAY: u64 = 86_400_000;

/// A Merkle tree hash.
pub type MerkleHash = [u8; 32];

/// Whether `r` is the integer square root of `n`: `r^2 <= n < (r + 1)^2`.
pub open spec fn is_isqrt(n: int, r: int) -> bool {
    0 <= r && r * r <= n && n < (r + 1) * (r + 1)
}

/// The integer square root of `n` (for `n >= 0`).
pub open spec fn isqrt(n: int) -> int {
    choose|r: int| is_isqrt(n, r)
}

pub(crate) proof fn lemma_isqrt_unique(n: int, r1: int, r2: int)
    requires
        is_isqrt(n, r1),
        is_isqrt(n, r2),
    ensures
        r1 == r2,
{
    if r1 < r2 {
        assert((r1 + 1) * (r1 + 1) <= r2 * r2) by (nonlinear_arith)
            requires 0 <= r1 < r2;
    } else if r2 < r1 {
        assert((r2 + 1) * (r2 + 1) <= r1 * r1) by (nonlinear_arith)
            requires 0 <= r2 < r1;
    }
}

pub(crate) proof fn lemma_isqrt_exists(n: nat)
    ensures
        exists|r: int| #[trigger] is_isqrt(n as int, r),
    decreases n,
{
    if n == 0 {
        assert(is_isqrt(0, 0));
    } else {
        lemma_isqrt_exists((n - 1) as nat);
        let r = choose|r: int| #[trigger] is_isqrt((n - 1) as int, r);
        if (r + 1) * (r + 1) <= n {
            assert((r + 2) * (r + 2) > n) by (nonlinear_arith)
                requires
                    r >= 0,
                    n - 1 < (r + 1) * (r + 1),
            ;
            assert(is_isqrt(n as int, r + 1));
        } else {
            assert(is_isqrt(n as int, r));
        }
    }
}

/// Voting power is a non-negative amount that fits a `u128`.
pub proof fn lemma_voting_power_range(balance: u128, multiplier_bps: u32)
    ensures
        0 <= voting_power_spec(balance, multiplier_bps) <= u128::MAX,
{
    lemma_isqrt_exists(balance as nat);
    let s = isqrt(balance as int);
    assert(s < 0x1_0000_0000_0000_0000) by (nonlinear_arith)
        requires
            s * s <= balance,
            balance <= u128::MAX,
            s >= 0,
    ;
    assert(0 <= (s * multiplier_bps) / (BPS_DENOMINATOR as int) <= u128::MAX) by (nonlinear_arith)
        requires
            0 <= s < 0x1_0000_0000_0000_0000,
            0 <= multiplier_bps <= u32::MAX,
            BPS_DENOMINATOR == 10_000,
    ;
}

/// The integer square root `floor(sqrt(n))`.
pub fn integer_sqrt(n: u128) -> (r: u128)
    ensures
        is_isqrt(n as int, r as int),
        r == isqrt(n as int),
{
    let mut lo: u128 = 0;
    let mut hi: u128 = 0x1_0000_0000_0000_0000;
    assert(n < 0x1_0000_0000_0000_0000 * 0x1_0000_0000_0000_0000) by (nonlinear_arith)
        requires n <= u128::MAX;
    while hi - lo > 1
        invariant
            lo < hi <= 0x1_0000_0000_0000_0000,
            lo * lo <= n,
            n < hi * hi,
        decreases hi - lo,
    {
        let mid = lo + (hi - lo) / 2;
        assert(mid * mid <= u128::MAX) by (nonlinear_arith)
            requires mid < 0x1_0000_0000_0000_0000;
        if mid * mid <= n {
            lo = mid;
        } else {
            hi = mid;
        }
    }
    assert(is_isqrt(n as int, lo as int));
    proof {
        lemma_isqrt_unique(n as int, lo as int, isqrt(n as int));
    }
    lo
}

/// Quadratic, time-staked voting power: `floor(isqrt(balance) * multiplier_bps / 10_000)`.
pub open spec fn voting_power_spec(balance: u128, multiplier_bps: u32) -> int {
    (isqrt(balance as int) * multiplier_bps) / (BPS_DENOMINATOR as int)
}

/// The voting power of a snapshot leaf with `balance` and time-staked `multiplier_bps`, as
/// [`voting_power_spec`] states (it never overflows).
pub fn voting_power(balance: u128, multiplier_bps: u32) -> (r: Option<u128>)
    ensures
        0 <= voting_power_spec(balance, multiplier_bps) <= u128::MAX,
        r == Some(voting_power_spec(balance, multiplier_bps) as u128),
{
    let s = integer_sqrt(balance);
    assert(s < 0x1_0000_0000_0000_0000) by (nonlinear_arith)
        requires s * s <= balance, balance <= u128::MAX, s >= 0;
    assert(s * (multiplier_bps as u128) <= u128::MAX) by (nonlinear_arith)
        requires s < 0x1_0000_0000_0000_0000, multiplier_bps <= u32::MAX;
    assert(0 <= (s * multiplier_bps) / 10_000int <= s * multiplier_bps) by (nonlinear_arith)
        requires s >= 0, multiplier_bps >= 0;
    Some(s * (multiplier_bps as u128) / (BPS_DENOMINATOR as u128))
}

/// Whether `y` is a Gregorian leap year.
pub open spec fn is_leap(y: int) -> bool {
    (y % 4 == 0 && y % 100 != 0) || y % 400 == 0
}

/// The days of year `y`.
pub open spec fn year_len(y: int) -> int {
    if is_leap(y) { 366 } else { 365 }
}

/// The days of month `m` (1 to 12) of year `y`.
pub open spec fn month_len(y: int, m: int) -> int {
    if m == 2 {
        if is_leap(y) { 29 } else { 28 }
    } else if m == 4 || m == 6 || m == 9 || m == 11 {
        30
    } else {
        31
    }
}

/// The days of year `y` before month `m` (1 to 12).
pub open spec fn days_before_month(y: int, m: int) -> int {
    let l = if is_leap(y) { 1int } else { 0int };
    if m <= 1 { 0 }
    else if m == 2 { 31 }
    else if m == 3 { 59 + l }
    else if m == 4 { 90 + l }
    else if m == 5 { 120 + l }
    else if m == 6 { 151 + l }
    else if m == 7 { 181 + l }
    else if m == 8 { 212 + l }
    else if m == 9 { 243 + l }
    else if m == 10 { 273 + l }
    else if m == 11 { 304 + l }
    else { 334 + l }
}

/// The year and day-of-year (from 0) of the day `days` days after the start of year `y`.
pub open spec fn locate_year(days: nat, y: int) -> (int, nat)
    decreases days,
{
    if days < year_len(y) { (y, days) } else { locate_year((days - year_len(y)) as nat, y + 1) }
}

/// The day of the month (from 1) of day-of-year `days` (from 0), counting from month `m`.
pub open spec fn locate_day(days: nat, y: int, m: int) -> nat
    decreases 12 - m,
{
    if m >= 12 || days < month_len(y, m) { days + 1 } else { locate_day((days - month_len(y, m)) as nat, y, m + 1) }
}

/// The UTC day of the month (1 to 31) of a timestamp in milliseconds since the Unix epoch.
pub open spec fn calendar_day(ts: u64) -> nat {
    let (y, d) = locate_year((ts / MS_PER_DAY) as nat, 1970);
    locate_day(d, y, 1)
}

fn leap(y: u64) -> (b: bool)
    ensures
        b == is_leap(y as int),
{
    (y % 4 == 0 && y % 100 != 0) || y % 400 == 0
}

fn year_days(y: u64) -> (r: u64)
    ensures
        r == year_len(y as int),
{
    if leap(y) { 366 } else { 365 }
}

fn month_days(y: u64, m: u64) -> (r: u64)
    ensures
        r == month_len(y as int, m as int),
{
    if m == 2 {
        if leap(y) { 29 } else { 28 }
    } else if m == 4 || m == 6 || m == 9 || m == 11 {
        30
    } else {
        31
    }
}

/// The UTC day of the month (1 to 31) of `ts` (ms since the Unix epoch), as [`calendar_day`]
/// states.
pub fn day_of_month(ts: u64) -> (d: u8)
    ensures
        d == calendar_day(ts),
{
    let mut days: u64 = ts / MS_PER_DAY;
    let mut y: u64 = 1970;
    while days >= year_days(y)
        invariant
            1970 <= y <= 1970 + (ts / MS_PER_DAY) - days,
            days <= ts / MS_PER_DAY,
            locate_year((ts / MS_PER_DAY) as nat, 1970) == locate_year(days as nat, y as int),
        decreases days,
    {
        let len = year_days(y);
        days = days - len;
        y = y + 1;
    }
    let mut m: u64 = 1;
    while m < 12 && days >= month_days(y, m)
        invariant
            1 <= m <= 12,
            days + days_before_month(y as int, m as int) < year_len(y as int),
            locate_year((ts / MS_PER_DAY) as nat, 1970).0 == y as int,
            calendar_day(ts) == locate_day(days as nat, y as int, m as int),
        decreases 12 - m,
    {
        let len = month_days(y, m);
        days = days - len;
        m = m + 1;
    }
    assert(days < 31);
    (days + 1) as u8
}

} // verus!
