use vstd::prelude::*;
use crate::lock::{lock_tier, round_weight, tier_of, weight_of, weighted_amount, LockTier, SECONDS_PER_DAY};
use crate::state::StakeRecord;

verus! {

/// A read-only view of a stake at a given time.
#[derive(Clone, Copy, Debug, PartialEq, Eq, Structural)]
pub struct EligibilityReport {
    pub staked_amount: u64,
    /// Current per-round weight of the stake's lock, in hundredths.
    pub weight: u64,
    pub weighted_amount: u128,
    /// Whole days since the stake was opened, rounded toward zero.
    pub days_staked: i128,
    pub lock_duration: i64,
    pub is_unlocked: bool,
    /// Seconds left until the lock matures; zero once it has.
    pub time_until_unlock: i128,
    pub pending_rewards: u64,
}

/// Integer division rounded toward zero, for a positive divisor.
pub open spec fn div_toward_zero(a: int, b: int) -> int {
    if a >= 0 { a / b } else { -((-a) / b) }
}

pub open spec fn report_of(rec: StakeRecord, now: i64) -> EligibilityReport {
    let unlocked = now >= rec.unlock_time;
    EligibilityReport {
        staked_amount: rec.amount,
        weight: weight_of(rec.lock_duration) as u64,
        weighted_amount: (rec.amount as int * weight_of(rec.lock_duration) / 100) as u128,
        days_staked: div_toward_zero(now - rec.stake_time, SECONDS_PER_DAY as int) as i128,
        lock_duration: rec.lock_duration,
        is_unlocked: unlocked,
        time_until_unlock: if unlocked { 0 } else { (rec.unlock_time - now) as i128 },
        pending_rewards: rec.pending_rr3_rewards,
    }
}

/// Projects a stake at time `now`: elapsed days, maturity, time left, and its
/// principal under the same weight that round crediting uses.
pub fn check_eligibility(stake_record: &StakeRecord, now: i64) -> (r: EligibilityReport)
    ensures
        r == report_of(*stake_record, now),
{
    let elapsed = now as i128 - stake_record.stake_time as i128;
    let days_staked = if elapsed >= 0 {
        elapsed / (SECONDS_PER_DAY as i128)
    } else {
        -((-elapsed) / (SECONDS_PER_DAY as i128))
    };
    let is_unlocked = now >= stake_record.unlock_time;
    let time_until_unlock = if is_unlocked {
        0
    } else {
        stake_record.unlock_time as i128 - now as i128
    };
    let weight = round_weight(stake_record.lock_duration);
    EligibilityReport {
        staked_amount: stake_record.amount,
        weight,
        weighted_amount: weighted_amount(stake_record.amount, weight),
        days_staked,
        lock_duration: stake_record.lock_duration,
        is_unlocked,
        time_until_unlock,
        pending_rewards: stake_record.pending_rr3_rewards,
    }
}

/// The advertised description of a lock duration.
#[derive(Clone, Copy, Debug, PartialEq, Eq, Structural)]
pub struct LockPeriodInfo {
    /// The canonical tier, or `None` for a duration that is not one.
    pub tier: Option<LockTier>,
    /// The multiplier shown to users, in hundredths; zero for a non-canonical
    /// duration.
    pub multiplier: u64,
}

pub open spec fn advertised_multiplier(d: i64) -> u64 {
    match tier_of(d) {
        Some(LockTier::ThreeMonths) => 100,
        Some(LockTier::SixMonths) => 125,
        Some(LockTier::OneYear) => 150,
        Some(LockTier::TwoYears) => 200,
        Some(LockTier::ThreeYears) => 300,
        None => 0,
    }
}

/// Describes a lock duration as it is advertised: its tier and the multiplier
/// shown for it (100, 125, 150, 200 or 300; zero when the duration is not a
/// canonical tier). This display table is separate from both the per-round
/// weights and the completion multipliers.
pub fn get_lock_period_info(lock_duration_seconds: i64) -> (r: LockPeriodInfo)
    ensures
        r.tier == tier_of(lock_duration_seconds),
        r.multiplier == advertised_multiplier(lock_duration_seconds),
{
    let tier = lock_tier(lock_duration_seconds);
    let multiplier = match tier {
        Some(LockTier::ThreeMonths) => 100,
        Some(LockTier::SixMonths) => 125,
        Some(LockTier::OneYear) => 150,
        Some(LockTier::TwoYears) => 200,
        Some(LockTier::ThreeYears) => 300,
        None => 0,
    };
    LockPeriodInfo { tier, multiplier }
}

} // verus!
