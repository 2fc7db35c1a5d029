use vstd::prelude::*;
use crate::identity::Identity;
use crate::lock::{round_weight, weight_of, weighted_amount};
use crate::state::{DistributionState, StakeError, StakeRecord};

verus! {

/// The weighted principal of a stake: `principal * weight / 100`.
pub open spec fn weighted_of(rec: StakeRecord) -> int {
    rec.amount as int * weight_of(rec.lock_duration) / 100
}

/// A stake's share of this round's pool, before the range checks.
pub open spec fn share_of(state: DistributionState, rec: StakeRecord) -> int {
    weighted_of(rec) * state.monthly_rr3_for_rewards as int / state.total_rr3_staked as int
}

/// Crediting a stake: the error it fails with, if any.
pub open spec fn assign_error(state: DistributionState, caller: Identity, rec: StakeRecord) -> Option<StakeError> {
    if !caller.same(state.admin) {
        Some(StakeError::Unauthorized)
    } else if state.monthly_rr3_for_rewards == 0 {
        Some(StakeError::NoMonthlyCollection)
    } else if state.total_rr3_staked == 0 {
        Some(StakeError::NoStakersForDistribution)
    } else if rec.last_distribution_round >= state.distribution_round {
        Some(StakeError::AlreadyReceivedRewardsThisRound)
    } else if weighted_of(rec) * state.monthly_rr3_for_rewards as int > u128::MAX
        || rec.pending_rr3_rewards + share_of(state, rec) > u64::MAX {
        Some(StakeError::ArithmeticOverflow)
    } else {
        None
    }
}

/// The record after it has been credited its share of the current round.
pub open spec fn credited(state: DistributionState, rec: StakeRecord) -> StakeRecord {
    StakeRecord {
        pending_rr3_rewards: (rec.pending_rr3_rewards + share_of(state, rec)) as u64,
        last_distribution_round: state.distribution_round,
        ..rec
    }
}

/// Credits one stake with its share of the current round's pool:
/// `floor(weighted * pool / total_weighted)`, where the weight comes from the
/// stake's lock tier. A stake is credited at most once per round. The pool is
/// not debited. Returns the share; on any error the record is left as it was.
pub fn assign_monthly_rewards(
    distribution_state: &DistributionState,
    caller: &Identity,
    stake_record: &mut StakeRecord,
) -> (r: Result<u64, StakeError>)
    ensures
        match assign_error(*distribution_state, *caller, *old(stake_record)) {
            Some(e) => r == Err::<u64, StakeError>(e) && *final(stake_record) == *old(
                stake_record,
            ),
            None => r == Ok::<u64, StakeError>(share_of(*distribution_state, *old(stake_record)) as u64)
                && *final(stake_record) == credited(*distribution_state, *old(stake_record)),
        },
        r is Ok ==> final(stake_record).last_distribution_round > old(
            stake_record,
        ).last_distribution_round && final(stake_record).pending_rr3_rewards >= old(
            stake_record,
        ).pending_rr3_rewards,
{
    if !caller.same_as(&distribution_state.admin) {
        return Err(StakeError::Unauthorized);
    }
    let pool = distribution_state.monthly_rr3_for_rewards;
    let total = distribution_state.total_rr3_staked;
    if pool == 0 {
        return Err(StakeError::NoMonthlyCollection);
    }
    if total == 0 {
        return Err(StakeError::NoStakersForDistribution);
    }
    if stake_record.last_distribution_round >= distribution_state.distribution_round {
        return Err(StakeError::AlreadyReceivedRewardsThisRound);
    }
    let weight = round_weight(stake_record.lock_duration);
    let weighted = weighted_amount(stake_record.amount, weight);
    let product = match weighted.checked_mul(pool as u128) {
        Some(p) => p,
        None => return Err(StakeError::ArithmeticOverflow),
    };
    let share = product / (total as u128);
    if share > u64::MAX as u128 {
        return Err(StakeError::ArithmeticOverflow);
    }
    let pending = match stake_record.pending_rr3_rewards.checked_add(share as u64) {
        Some(p) => p,
        None => return Err(StakeError::ArithmeticOverflow),
    };
    stake_record.pending_rr3_rewards = pending;
    stake_record.last_distribution_round = distribution_state.distribution_round;
    Ok(share as u64)
}

/// A stake is credited at most once per round: once crediting has succeeded,
/// crediting the resulting record against the same state fails as already
/// credited, and the record holds exactly one share more than before.
pub proof fn credit_once_per_round(state: DistributionState, caller: Identity, rec: StakeRecord)
    requires
        assign_error(state, caller, rec) is None,
    ensures
        assign_error(state, caller, credited(state, rec)) == Some(
            StakeError::AlreadyReceivedRewardsThisRound,
        ),
        credited(state, rec).pending_rr3_rewards == rec.pending_rr3_rewards + share_of(state, rec),
{
}

} // verus!
