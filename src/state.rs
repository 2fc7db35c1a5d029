use vstd::prelude::*;
use crate::identity::Identity;
use crate::lock::valid_lock;

verus! {

/// Every way an operation of the ledger can fail.
#[derive(Clone, Copy, Debug, PartialEq, Eq, Structural)]
pub enum StakeError {
    NoRewardsAvailable,
    InsufficientTreasuryFunds,
    TooEarlyForDistribution,
    NoMonthlyCollection,
    NoStakersForDistribution,
    AlreadyReceivedRewardsThisRound,
    IneligibleForRewards,
    NoExpenseFeesToTransfer,
    NoMarketingFeesToTransfer,
    NoFeeWalletFeesToTransfer,
    NoBurnFeesToTransfer,
    InvalidStakeIndex,
    InvalidLockPeriod,
    StillLocked,
    /// The caller is not the administrator recorded in the distribution state.
    Unauthorized,
    /// An amount, counter or timestamp would leave its integer range.
    ArithmeticOverflow,
}

/// One locked position, keyed by its owner and sequence index.
#[derive(Clone, Copy, Debug)]
pub struct StakeRecord {
    pub user: Identity,
    pub stake_index: u32,
    /// Net principal locked, after the opening commission.
    pub amount: u64,
    pub stake_time: i64,
    pub lock_duration: i64,
    pub unlock_time: i64,
    pub last_reward_claim: i64,
    /// Credited but not yet claimed reward.
    pub pending_rr3_rewards: u64,
    pub total_rr3_claimed: u64,
    /// The last round in which this stake was credited.
    pub last_distribution_round: u64,
}

impl StakeRecord {
    /// A record is well formed when its lock is an accepted one and it does not
    /// unlock before it was opened.
    pub open spec fn wf(self) -> bool {
        valid_lock(self.lock_duration) && self.unlock_time >= self.stake_time
    }
}

/// Per-owner counters of stakes opened and stakes still open.
#[derive(Clone, Copy, Debug)]
pub struct UserStakeCounter {
    pub user: Identity,
    pub total_stakes: u32,
    pub active_stakes: u32,
}

impl UserStakeCounter {
    /// A counter for an owner who has not staked yet.
    pub fn new(user: Identity) -> (r: UserStakeCounter)
        ensures
            r.user == user,
            r.total_stakes == 0,
            r.active_stakes == 0,
    {
        UserStakeCounter { user, total_stakes: 0, active_stakes: 0 }
    }
}

/// The operator's round state.
#[derive(Clone, Copy, Debug)]
pub struct DistributionState {
    pub admin: Identity,
    pub last_distribution_time: i64,
    /// Operator-supplied total weighted stake of all active stakes.
    pub total_rr3_staked: u64,
    /// This round's pool for proportional distribution (the fee-wallet share).
    pub monthly_rr3_for_rewards: u64,
    pub monthly_expense_fees: u64,
    pub monthly_marketing_fees: u64,
    pub monthly_burn_fees: u64,
    pub distribution_round: u64,
}

} // verus!
