use vstd::prelude::*;

verus! {

/// Token amounts in 9-decimal base units.
pub type Balance = u64;

/// Block timestamps in milliseconds since the Unix epoch.
pub type Timestamp = u64;

/// Block numbers.
pub type BlockNumber = u32;

/// An on-chain account, identified by an integer handle.
pub type AccountId = u64;

/// Milliseconds in one hour.
pub const MILLISECONDS_PER_HOUR: u64 = 3_600_000;

/// Hours in one (365-day) year, the compounding period of the annual rates.
pub const HOURS_PER_YEAR: u128 = 8760;

/// Basis-point denominator: 10_000 bps = 100%.
pub const BPS_DENOMINATOR: u32 = 10_000;

/// Narrows a `u128` into a `Balance`, or `None` when it does not fit.
pub fn balance_from_u128(v: u128) -> (r: Option<Balance>)
    ensures
        r matches Some(b) ==> b == v,
        r is None <==> v > u64::MAX,
{
    if v <= u64::MAX as u128 {
        Some(v as u64)
    } else {
        None
    }
}

} // verus!
