use vstd::prelude::*;

verus! {

/// Seconds in the 30-day month that the proportional weight rule counts in.
pub const SECONDS_PER_MONTH: i64 = 2592000;

/// Seconds in a day.
pub const SECONDS_PER_DAY: i64 = 86400;

/// The five canonical lock tiers, in seconds.
pub const LOCK_3_MONTHS: i64 = 7776000;
pub const LOCK_6_MONTHS: i64 = 15552000;
pub const LOCK_1_YEAR: i64 = 31536000;
pub const LOCK_2_YEARS: i64 = 63072000;
pub const LOCK_3_YEARS: i64 = 94608000;

/// The shortest non-canonical lock that is accepted (five minutes).
pub const MIN_TESTING_LOCK: i64 = 300;

/// Completion multipliers, in hundredths of the principal paid out in total.
pub const REWARD_MULTIPLIER_3_MONTHS: u64 = 105;
pub const REWARD_MULTIPLIER_6_MONTHS: u64 = 112;
pub const REWARD_MULTIPLIER_1_YEAR: u64 = 130;
pub const REWARD_MULTIPLIER_2_YEARS: u64 = 170;
pub const REWARD_MULTIPLIER_3_YEARS: u64 = 250;

/// One of the five canonical lock tiers.
#[derive(Clone, Copy, Debug, PartialEq, Eq, Structural)]
pub enum LockTier {
    ThreeMonths,
    SixMonths,
    OneYear,
    TwoYears,
    ThreeYears,
}

pub open spec fn tier_of(d: i64) -> Option<LockTier> {
    if d == LOCK_3_MONTHS {
        Some(LockTier::ThreeMonths)
    } else if d == LOCK_6_MONTHS {
        Some(LockTier::SixMonths)
    } else if d == LOCK_1_YEAR {
        Some(LockTier::OneYear)
    } else if d == LOCK_2_YEARS {
        Some(LockTier::TwoYears)
    } else if d == LOCK_3_YEARS {
        Some(LockTier::ThreeYears)
    } else {
        None
    }
}

pub open spec fn is_canonical(d: i64) -> bool {
    tier_of(d) is Some
}

/// A lock is accepted when it is a canonical tier or at least the testing minimum.
pub open spec fn valid_lock(d: i64) -> bool {
    is_canonical(d) || d >= MIN_TESTING_LOCK
}

/// Per-round weight of a lock duration, in hundredths.
pub open spec fn weight_of(d: i64) -> int {
    match tier_of(d) {
        Some(LockTier::ThreeMonths) => 100,
        Some(LockTier::SixMonths) => 101,
        Some(LockTier::OneYear) => 102,
        Some(LockTier::TwoYears) => 103,
        Some(LockTier::ThreeYears) => 103,
        None => if d < SECONDS_PER_MONTH {
            50
        } else {
            let proportional = 100 + 8 * (d / SECONDS_PER_MONTH);
            if proportional < 100 { proportional } else { 100 }
        },
    }
}

/// Completion multiplier of a lock duration, in hundredths of the principal.
pub open spec fn multiplier_of(d: i64) -> int {
    match tier_of(d) {
        Some(LockTier::ThreeMonths) => REWARD_MULTIPLIER_3_MONTHS as int,
        Some(LockTier::SixMonths) => REWARD_MULTIPLIER_6_MONTHS as int,
        Some(LockTier::OneYear) => REWARD_MULTIPLIER_1_YEAR as int,
        Some(LockTier::TwoYears) => REWARD_MULTIPLIER_2_YEARS as int,
        Some(LockTier::ThreeYears) => REWARD_MULTIPLIER_3_YEARS as int,
        None => 100,
    }
}

/// The canonical tier that a duration names, if any.
pub fn lock_tier(d: i64) -> (r: Option<LockTier>)
    ensures
        r == tier_of(d),
{
    if d == LOCK_3_MONTHS {
        Some(LockTier::ThreeMonths)
    } else if d == LOCK_6_MONTHS {
        Some(LockTier::SixMonths)
    } else if d == LOCK_1_YEAR {
        Some(LockTier::OneYear)
    } else if d == LOCK_2_YEARS {
        Some(LockTier::TwoYears)
    } else if d == LOCK_3_YEARS {
        Some(LockTier::ThreeYears)
    } else {
        None
    }
}

pub fn is_valid_lock_period(d: i64) -> (r: bool)
    ensures
        r == valid_lock(d),
{
    lock_tier(d).is_some() || d >= MIN_TESTING_LOCK
}

/// The weight used when crediting a round's reward: the canonical tiers map to
/// 100, 101, 102, 103 and 103; a shorter-than-a-month duration gets 50 and any
/// other duration `min(100, 100 + 8 * whole months)`.
pub fn round_weight(d: i64) -> (r: u64)
    ensures
        r == weight_of(d),
        50 <= r <= 103,
{
    match lock_tier(d) {
        Some(LockTier::ThreeMonths) => 100,
        Some(LockTier::SixMonths) => 101,
        Some(LockTier::OneYear) => 102,
        Some(LockTier::TwoYears) => 103,
        Some(LockTier::ThreeYears) => 103,
        None => {
            if d < SECONDS_PER_MONTH {
                50
            } else {
                let months = (d / SECONDS_PER_MONTH) as u64;
                let proportional = 100 + months * 8;
                if proportional < 100 {
                    proportional
                } else {
                    100
                }
            }
        },
    }
}

/// The completion multiplier applied when a matured stake is closed: 105, 112,
/// 130, 170 and 250 for the canonical tiers, 100 (no bonus) otherwise.
pub fn completion_multiplier(d: i64) -> (r: u64)
    ensures
        r == multiplier_of(d),
        100 <= r <= 250,
{
    match lock_tier(d) {
        Some(LockTier::ThreeMonths) => REWARD_MULTIPLIER_3_MONTHS,
        Some(LockTier::SixMonths) => REWARD_MULTIPLIER_6_MONTHS,
        Some(LockTier::OneYear) => REWARD_MULTIPLIER_1_YEAR,
        Some(LockTier::TwoYears) => REWARD_MULTIPLIER_2_YEARS,
        Some(LockTier::ThreeYears) => REWARD_MULTIPLIER_3_YEARS,
        None => 100,
    }
}

/// `principal * weight / 100`, rounded down, in a double-width intermediate so
/// that no principal overflows it.
pub fn weighted_amount(principal: u64, weight: u64) -> (r: u128)
    ensures
        r == principal as int * weight as int / 100,
{
    proof {
        assert(principal as int * weight as int <= u64::MAX as int * u64::MAX as int)
            by (nonlinear_arith);
    }
    (principal as u128) * (weight as u128) / 100
}

} // verus!
