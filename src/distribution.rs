use vstd::prelude::*;
use crate::identity::Identity;
use crate::lifecycle::TOTAL_COMMISSION_BPS;
use crate::state::{DistributionState, StakeError};

verus! {

/// Shares of a round's collection, in basis points of the stake amount; each
/// share is taken as `pool * bps / TOTAL_COMMISSION_BPS`. The three rates make
/// up the whole commission: 3.00% to the fee wallet, 0.30% to expenses and
/// 0.03% to marketing, 3.33% in all, so the shares never exceed the pool and
/// the burn wallet takes only what rounding leaves.
pub const FEE_WALLET_BPS: u64 = 300;
pub const EXPENSE_WALLET_BPS: u64 = 30;
pub const MARKETING_WALLET_BPS: u64 = 3;

/// The least number of seconds between two recorded rounds.
pub const MIN_ROUND_INTERVAL: i64 = 300;

/// How a round's collection was split.
#[derive(Clone, Copy, Debug, PartialEq, Eq, Structural)]
pub struct CollectionSplit {
    pub fee_wallet: u64,
    pub expense: u64,
    pub marketing: u64,
    pub burn: u64,
}

pub open spec fn share_bps(pool: u64, bps: u64) -> int {
    pool as int * bps as int / TOTAL_COMMISSION_BPS as int
}

/// The split of `pool`: three basis-point shares, and the rest (never below
/// zero) for the burn wallet.
pub open spec fn split_of(pool: u64) -> CollectionSplit {
    let fee = share_bps(pool, FEE_WALLET_BPS);
    let expense = share_bps(pool, EXPENSE_WALLET_BPS);
    let marketing = share_bps(pool, MARKETING_WALLET_BPS);
    let three = fee + expense + marketing;
    CollectionSplit {
        fee_wallet: fee as u64,
        expense: expense as u64,
        marketing: marketing as u64,
        burn: if three < pool { (pool - three) as u64 } else { 0 },
    }
}

/// A new distribution state, with its round counter and all amounts at zero.
pub fn initialize_distribution_state(admin: &Identity, now: i64) -> (r: DistributionState)
    ensures
        r == (DistributionState {
            admin: *admin,
            last_distribution_time: now,
            total_rr3_staked: 0,
            monthly_rr3_for_rewards: 0,
            monthly_expense_fees: 0,
            monthly_marketing_fees: 0,
            monthly_burn_fees: 0,
            distribution_round: 0,
        }),
{
    DistributionState {
        admin: *admin,
        last_distribution_time: now,
        total_rr3_staked: 0,
        monthly_rr3_for_rewards: 0,
        monthly_expense_fees: 0,
        monthly_marketing_fees: 0,
        monthly_burn_fees: 0,
        distribution_round: 0,
    }
}

/// Recording a round: the error it fails with, if any.
pub open spec fn collection_error(s: DistributionState, caller: Identity, now: i64) -> Option<StakeError> {
    if !caller.same(s.admin) {
        Some(StakeError::Unauthorized)
    } else if now - s.last_distribution_time < MIN_ROUND_INTERVAL {
        Some(StakeError::TooEarlyForDistribution)
    } else if s.distribution_round == u64::MAX {
        Some(StakeError::ArithmeticOverflow)
    } else {
        None
    }
}

/// The state after a round's collection of `pool` was recorded at `now`.
pub open spec fn collected(s: DistributionState, pool: u64, now: i64) -> DistributionState {
    let split = split_of(pool);
    DistributionState {
        monthly_rr3_for_rewards: split.fee_wallet,
        monthly_expense_fees: split.expense,
        monthly_marketing_fees: split.marketing,
        monthly_burn_fees: split.burn,
        distribution_round: (s.distribution_round + 1) as u64,
        last_distribution_time: now,
        ..s
    }
}

/// The three basis-point shares of a collection never exceed it, and the burn
/// amount is exactly what they leave: the four amounts add up to the collection.
pub proof fn split_accounts_for_collection(pool: u64)
    ensures
        split_of(pool).fee_wallet + split_of(pool).expense + split_of(pool).marketing <= pool,
        split_of(pool).fee_wallet + split_of(pool).expense + split_of(pool).marketing + split_of(
            pool,
        ).burn == pool,
{
    let p = pool as int;
    let f = p * 300 / 333;
    let e = p * 30 / 333;
    let m = p * 3 / 333;
    assert(0 <= f && f * 333 <= p * 300) by (nonlinear_arith)
        requires
            p >= 0,
            f == p * 300 / 333,
    ;
    assert(0 <= e && e * 333 <= p * 30) by (nonlinear_arith)
        requires
            p >= 0,
            e == p * 30 / 333,
    ;
    assert(0 <= m && m * 333 <= p * 3) by (nonlinear_arith)
        requires
            p >= 0,
            m == p * 3 / 333,
    ;
    assert(f + e + m <= p) by (nonlinear_arith)
        requires
            f * 333 <= p * 300,
            e * 333 <= p * 30,
            m * 333 <= p * 3,
    ;
}

/// Opens a new round with a collection of `total_rr3_for_rewards`, split into
/// the reward pool, expense, marketing and burn amounts. At least five minutes
/// must have passed since the last round. Returns the split; on any error the
/// state is left as it was.
pub fn record_monthly_collection(
    distribution_state: &mut DistributionState,
    caller: &Identity,
    now: i64,
    total_rr3_for_rewards: u64,
) -> (r: Result<CollectionSplit, StakeError>)
    ensures
        match collection_error(*old(distribution_state), *caller, now) {
            Some(e) => r == Err::<CollectionSplit, StakeError>(e) && *final(distribution_state)
                == *old(distribution_state),
            None => r == Ok::<CollectionSplit, StakeError>(split_of(total_rr3_for_rewards))
                && *final(distribution_state) == collected(
                *old(distribution_state),
                total_rr3_for_rewards,
                now,
            ),
        },
        r matches Ok(s) ==> s.fee_wallet + s.expense + s.marketing <= total_rr3_for_rewards
            && s.fee_wallet + s.expense + s.marketing + s.burn == total_rr3_for_rewards,
{
    if !caller.same_as(&distribution_state.admin) {
        return Err(StakeError::Unauthorized);
    }
    let elapsed = now as i128 - distribution_state.last_distribution_time as i128;
    if elapsed < MIN_ROUND_INTERVAL as i128 {
        return Err(StakeError::TooEarlyForDistribution);
    }
    if distribution_state.distribution_round == u64::MAX {
        return Err(StakeError::ArithmeticOverflow);
    }
    let pool = total_rr3_for_rewards as u128;
    let total_bps = TOTAL_COMMISSION_BPS as u128;
    proof {
        split_accounts_for_collection(total_rr3_for_rewards);
    }
    let fee = pool * (FEE_WALLET_BPS as u128) / total_bps;
    let expense = pool * (EXPENSE_WALLET_BPS as u128) / total_bps;
    let marketing = pool * (MARKETING_WALLET_BPS as u128) / total_bps;
    let three = fee + expense + marketing;
    let burn = if three < pool {
        pool - three
    } else {
        0
    };
    let split = CollectionSplit {
        fee_wallet: fee as u64,
        expense: expense as u64,
        marketing: marketing as u64,
        burn: burn as u64,
    };
    distribution_state.monthly_rr3_for_rewards = split.fee_wallet;
    distribution_state.monthly_expense_fees = split.expense;
    distribution_state.monthly_marketing_fees = split.marketing;
    distribution_state.monthly_burn_fees = split.burn;
    distribution_state.distribution_round = distribution_state.distribution_round + 1;
    distribution_state.last_distribution_time = now;
    Ok(split)
}

/// Overwrites the total weighted stake that the operator computed elsewhere.
pub fn update_total_staked(
    distribution_state: &mut DistributionState,
    caller: &Identity,
    total_weighted_staked: u64,
) -> (r: Result<(), StakeError>)
    ensures
        !caller.same(old(distribution_state).admin) ==> r == Err::<(), StakeError>(
            StakeError::Unauthorized,
        ) && *final(distribution_state) == *old(distribution_state),
        caller.same(old(distribution_state).admin) ==> r is Ok && *final(distribution_state) == (
        DistributionState { total_rr3_staked: total_weighted_staked, ..*old(distribution_state) }),
{
    if !caller.same_as(&distribution_state.admin) {
        return Err(StakeError::Unauthorized);
    }
    distribution_state.total_rr3_staked = total_weighted_staked;
    Ok(())
}

/// Closes the current round: the pool drops to zero, so no further stake can be
/// credited until a new collection is recorded.
pub fn complete_monthly_distribution(
    distribution_state: &mut DistributionState,
    caller: &Identity,
    now: i64,
) -> (r: Result<(), StakeError>)
    ensures
        !caller.same(old(distribution_state).admin) ==> r == Err::<(), StakeError>(
            StakeError::Unauthorized,
        ) && *final(distribution_state) == *old(distribution_state),
        caller.same(old(distribution_state).admin) ==> r is Ok && *final(distribution_state) == (
        DistributionState {
            monthly_rr3_for_rewards: 0,
            last_distribution_time: now,
            ..*old(distribution_state)
        }),
{
    if !caller.same_as(&distribution_state.admin) {
        return Err(StakeError::Unauthorized);
    }
    distribution_state.monthly_rr3_for_rewards = 0;
    distribution_state.last_distribution_time = now;
    Ok(())
}

/// The destinations that accrued round amounts are swept to.
#[derive(Clone, Copy, Debug, PartialEq, Eq, Structural)]
pub enum FeeWallet {
    Expense,
    Marketing,
    /// The fee-wallet share, which is also the round's reward pool.
    FeeWallet,
    Burn,
}

pub open spec fn accrued(s: DistributionState, w: FeeWallet) -> u64 {
    match w {
        FeeWallet::Expense => s.monthly_expense_fees,
        FeeWallet::Marketing => s.monthly_marketing_fees,
        FeeWallet::FeeWallet => s.monthly_rr3_for_rewards,
        FeeWallet::Burn => s.monthly_burn_fees,
    }
}

pub open spec fn nothing_to_sweep(w: FeeWallet) -> StakeError {
    match w {
        FeeWallet::Expense => StakeError::NoExpenseFeesToTransfer,
        FeeWallet::Marketing => StakeError::NoMarketingFeesToTransfer,
        FeeWallet::FeeWallet => StakeError::NoFeeWalletFeesToTransfer,
        FeeWallet::Burn => StakeError::NoBurnFeesToTransfer,
    }
}

/// The state with the accrued amount of `w` set to zero.
pub open spec fn swept(s: DistributionState, w: FeeWallet) -> DistributionState {
    match w {
        FeeWallet::Expense => DistributionState { monthly_expense_fees: 0, ..s },
        FeeWallet::Marketing => DistributionState { monthly_marketing_fees: 0, ..s },
        FeeWallet::FeeWallet => DistributionState { monthly_rr3_for_rewards: 0, ..s },
        FeeWallet::Burn => DistributionState { monthly_burn_fees: 0, ..s },
    }
}

/// What a sweep of `w` returns, and the state it leaves.
pub open spec fn sweep_outcome(s: DistributionState, caller: Identity, w: FeeWallet) -> (
    Result<u64, StakeError>,
    DistributionState,
) {
    if !caller.same(s.admin) {
        (Err(StakeError::Unauthorized), s)
    } else if accrued(s, w) == 0 {
        (Err(nothing_to_sweep(w)), s)
    } else {
        (Ok(accrued(s, w)), swept(s, w))
    }
}

/// Takes the whole amount accrued for `wallet` off the books and returns it, to
/// be moved from the treasury to that wallet. Fails, leaving the state as it
/// was, when nothing has accrued.
pub fn sweep_fee(distribution_state: &mut DistributionState, caller: &Identity, wallet: FeeWallet)
    -> (r: Result<u64, StakeError>)
    ensures
        (r, *final(distribution_state)) == sweep_outcome(*old(distribution_state), *caller, wallet),
{
    if !caller.same_as(&distribution_state.admin) {
        return Err(StakeError::Unauthorized);
    }
    match wallet {
        FeeWallet::Expense => {
            let amount = distribution_state.monthly_expense_fees;
            if amount == 0 {
                return Err(StakeError::NoExpenseFeesToTransfer);
            }
            distribution_state.monthly_expense_fees = 0;
            Ok(amount)
        },
        FeeWallet::Marketing => {
            let amount = distribution_state.monthly_marketing_fees;
            if amount == 0 {
                return Err(StakeError::NoMarketingFeesToTransfer);
            }
            distribution_state.monthly_marketing_fees = 0;
            Ok(amount)
        },
        FeeWallet::FeeWallet => {
            let amount = distribution_state.monthly_rr3_for_rewards;
            if amount == 0 {
                return Err(StakeError::NoFeeWalletFeesToTransfer);
            }
            distribution_state.monthly_rr3_for_rewards = 0;
            Ok(amount)
        },
        FeeWallet::Burn => {
            let amount = distribution_state.monthly_burn_fees;
            if amount == 0 {
                return Err(StakeError::NoBurnFeesToTransfer);
            }
            distribution_state.monthly_burn_fees = 0;
            Ok(amount)
        },
    }
}

/// Sweeps the accrued expense amount.
pub fn transfer_expense_fees(distribution_state: &mut DistributionState, caller: &Identity)
    -> (r: Result<u64, StakeError>)
    ensures
        (r, *final(distribution_state)) == sweep_outcome(*old(distribution_state), *caller, FeeWallet::Expense),
{
    sweep_fee(distribution_state, caller, FeeWallet::Expense)
}

/// Sweeps the accrued marketing amount.
pub fn transfer_marketing_fees(distribution_state: &mut DistributionState, caller: &Identity)
    -> (r: Result<u64, StakeError>)
    ensures
        (r, *final(distribution_state)) == sweep_outcome(*old(distribution_state), *caller, FeeWallet::Marketing),
{
    sweep_fee(distribution_state, caller, FeeWallet::Marketing)
}

/// Sweeps the accrued fee-wallet share, which also empties the reward pool.
pub fn transfer_fee_wallet(distribution_state: &mut DistributionState, caller: &Identity)
    -> (r: Result<u64, StakeError>)
    ensures
        (r, *final(distribution_state)) == sweep_outcome(*old(distribution_state), *caller, FeeWallet::FeeWallet),
{
    sweep_fee(distribution_state, caller, FeeWallet::FeeWallet)
}

/// Sweeps the accrued burn amount.
pub fn burn_fees(distribution_state: &mut DistributionState, caller: &Identity)
    -> (r: Result<u64, StakeError>)
    ensures
        (r, *final(distribution_state)) == sweep_outcome(*old(distribution_state), *caller, FeeWallet::Burn),
{
    sweep_fee(distribution_state, caller, FeeWallet::Burn)
}

} // verus!

