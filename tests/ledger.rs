use staker::distribution::{
    burn_fees, complete_monthly_distribution, initialize_distribution_state,
    record_monthly_collection, sweep_fee, transfer_expense_fees, transfer_fee_wallet,
    transfer_marketing_fees, update_total_staked, CollectionSplit, FeeWallet,
};
use staker::eligibility::{check_eligibility, get_lock_period_info};
use staker::lifecycle::{add_stake, claim_rr3_rewards, stake, unstake};
use staker::lock::{
    completion_multiplier, is_valid_lock_period, round_weight, weighted_amount, LockTier,
    LOCK_1_YEAR, LOCK_2_YEARS, LOCK_3_MONTHS, LOCK_3_YEARS, LOCK_6_MONTHS,
};
use staker::rewards::assign_monthly_rewards;
use staker::state::{DistributionState, StakeError, StakeRecord, UserStakeCounter};
use staker::Identity;

fn alice() -> Identity {
    Identity::new([7u8; 32])
}

fn admin() -> Identity {
    Identity::new([9u8; 32])
}

fn open(amount: u64, lock: i64, now: i64) -> (StakeRecord, UserStakeCounter) {
    let mut c = UserStakeCounter::new(alice());
    let rec = stake(&mut c, &alice(), 0, amount, lock, now).unwrap();
    (rec, c)
}

fn round_state(pool: u64, total: u64, round: u64) -> DistributionState {
    let mut s = initialize_distribution_state(&admin(), 0);
    s.monthly_rr3_for_rewards = pool;
    s.total_rr3_staked = total;
    s.distribution_round = round;
    s
}

#[test]
fn open_deducts_commission() {
    let (rec, c) = open(10_000, LOCK_3_MONTHS, 1_000);
    assert_eq!(rec.amount, 9_667);
    assert_eq!(rec.stake_time, 1_000);
    assert_eq!(rec.unlock_time, 1_000 + LOCK_3_MONTHS);
    assert_eq!(rec.pending_rr3_rewards, 0);
    assert_eq!(rec.last_distribution_round, 0);
    assert_eq!(c.total_stakes, 1);
    assert_eq!(c.active_stakes, 1);
}

#[test]
fn open_commission_rounds_down() {
    let (rec, _) = open(29, LOCK_1_YEAR, 0);
    assert_eq!(rec.amount, 29);
    let (rec, _) = open(31, LOCK_1_YEAR, 0);
    assert_eq!(rec.amount, 30);
    let (rec, _) = open(u64::MAX, LOCK_1_YEAR, 0);
    let commission = (u64::MAX as u128 * 333 / 10_000) as u64;
    assert_eq!(rec.amount, u64::MAX - commission);
}

#[test]
fn open_indices_are_sequential_per_owner() {
    let mut c = UserStakeCounter::new(alice());
    for i in 0..3u32 {
        let rec = stake(&mut c, &alice(), i, 1_000, LOCK_6_MONTHS, 0).unwrap();
        assert_eq!(rec.stake_index, i);
    }
    assert_eq!(c.total_stakes, 3);
    let before = c;
    assert_eq!(stake(&mut c, &alice(), 5, 1_000, LOCK_6_MONTHS, 0).err(), Some(StakeError::InvalidStakeIndex));
    assert_eq!(stake(&mut c, &alice(), 2, 1_000, LOCK_6_MONTHS, 0).err(), Some(StakeError::InvalidStakeIndex));
    assert_eq!(c.total_stakes, before.total_stakes);
    assert_eq!(c.active_stakes, before.active_stakes);
}

#[test]
fn open_claims_unset_counter() {
    let mut c = UserStakeCounter::new(Identity::unset());
    c.total_stakes = 4;
    let rec = stake(&mut c, &alice(), 0, 100, LOCK_3_MONTHS, 0).unwrap();
    assert_eq!(rec.stake_index, 0);
    assert_eq!(c.total_stakes, 1);
    assert!(c.user.same_as(&alice()));
}

#[test]
fn open_rejects_short_lock() {
    let mut c = UserStakeCounter::new(alice());
    assert_eq!(stake(&mut c, &alice(), 0, 100, 299, 0).err(), Some(StakeError::InvalidLockPeriod));
    assert_eq!(stake(&mut c, &alice(), 0, 100, -5, 0).err(), Some(StakeError::InvalidLockPeriod));
    assert!(stake(&mut c, &alice(), 0, 100, 300, 0).is_ok());
    assert_eq!(c.total_stakes, 1);
}

#[test]
fn open_rejects_unlock_overflow() {
    let mut c = UserStakeCounter::new(alice());
    assert_eq!(stake(&mut c, &alice(), 0, 100, LOCK_3_YEARS, i64::MAX - 10).err(), Some(StakeError::ArithmeticOverflow));
    assert_eq!(c.total_stakes, 0);
}

#[test]
fn lock_validity() {
    assert!(is_valid_lock_period(LOCK_3_MONTHS));
    assert!(is_valid_lock_period(LOCK_3_YEARS));
    assert!(is_valid_lock_period(300));
    assert!(!is_valid_lock_period(299));
    assert!(!is_valid_lock_period(0));
}

#[test]
fn round_weight_table() {
    assert_eq!(round_weight(LOCK_3_MONTHS), 100);
    assert_eq!(round_weight(LOCK_6_MONTHS), 101);
    assert_eq!(round_weight(LOCK_1_YEAR), 102);
    assert_eq!(round_weight(LOCK_2_YEARS), 103);
    assert_eq!(round_weight(LOCK_3_YEARS), 103);
    assert_eq!(round_weight(300), 50);
    assert_eq!(round_weight(2_591_999), 50);
    assert_eq!(round_weight(2_592_000), 100);
    assert_eq!(round_weight(2 * 2_592_000), 100);
    assert_eq!(round_weight(LOCK_3_YEARS + 1), 100);
}

#[test]
fn completion_multiplier_table() {
    assert_eq!(completion_multiplier(LOCK_3_MONTHS), 105);
    assert_eq!(completion_multiplier(LOCK_6_MONTHS), 112);
    assert_eq!(completion_multiplier(LOCK_1_YEAR), 130);
    assert_eq!(completion_multiplier(LOCK_2_YEARS), 170);
    assert_eq!(completion_multiplier(LOCK_3_YEARS), 250);
    assert_eq!(completion_multiplier(300), 100);
}

#[test]
fn weighted_amount_uses_wide_intermediate() {
    assert_eq!(weighted_amount(1_000, 103), 1_030);
    assert_eq!(weighted_amount(999, 50), 499);
    assert_eq!(weighted_amount(u64::MAX, 103), u64::MAX as u128 * 103 / 100);
    assert!(weighted_amount(u64::MAX, 103) > u64::MAX as u128);
}

#[test]
fn add_stake_tops_up_and_extends() {
    let (mut rec, _) = open(10_000, LOCK_3_MONTHS, 0);
    assert_eq!(add_stake(&mut rec, 500, LOCK_1_YEAR, 100), Ok(()));
    assert_eq!(rec.amount, 9_667 + 500);
    assert_eq!(rec.lock_duration, LOCK_1_YEAR);
    assert_eq!(rec.unlock_time, 100 + LOCK_1_YEAR);
}

#[test]
fn add_stake_never_shortens_lock() {
    let (mut rec, _) = open(10_000, LOCK_1_YEAR, 0);
    assert_eq!(add_stake(&mut rec, 1, LOCK_3_MONTHS, 100), Ok(()));
    assert_eq!(rec.amount, 9_668);
    assert_eq!(rec.lock_duration, LOCK_1_YEAR);
    assert_eq!(rec.unlock_time, LOCK_1_YEAR);
}

#[test]
fn add_stake_errors_leave_record() {
    let (mut rec, _) = open(10_000, LOCK_1_YEAR, 0);
    assert_eq!(add_stake(&mut rec, 1, 10, 100), Err(StakeError::InvalidLockPeriod));
    assert_eq!(add_stake(&mut rec, u64::MAX, LOCK_1_YEAR, 100), Err(StakeError::ArithmeticOverflow));
    assert_eq!(rec.amount, 9_667);
}

#[test]
fn claim_pays_pending_once() {
    let (mut rec, _) = open(10_000, LOCK_1_YEAR, 0);
    assert_eq!(claim_rr3_rewards(&mut rec, 50), Err(StakeError::NoRewardsAvailable));
    rec.pending_rr3_rewards = 420;
    rec.total_rr3_claimed = 80;
    assert_eq!(claim_rr3_rewards(&mut rec, 60), Ok(420));
    assert_eq!(rec.pending_rr3_rewards, 0);
    assert_eq!(rec.total_rr3_claimed, 500);
    assert_eq!(rec.last_reward_claim, 60);
    assert_eq!(claim_rr3_rewards(&mut rec, 70), Err(StakeError::NoRewardsAvailable));
}

#[test]
fn close_matured_three_year_stake() {
    let mut c = UserStakeCounter::new(alice());
    let mut rec = stake(&mut c, &alice(), 0, 2_000_000, LOCK_3_YEARS, 0).unwrap();
    rec.amount = 1_000_000;
    let p = unstake(rec, &mut c, LOCK_3_YEARS).unwrap();
    assert!(p.fully_unlocked);
    assert_eq!(p.principal, 1_000_000);
    assert_eq!(p.completion_bonus, 1_500_000);
    assert_eq!(p.total_payout, 2_500_000);
    assert_eq!(c.active_stakes, 0);
    assert_eq!(c.total_stakes, 1);
}

#[test]
fn close_matured_pays_bonus_and_rewards() {
    let (mut rec, mut c) = open(10_000, LOCK_3_MONTHS, 0);
    rec.pending_rr3_rewards = 33;
    let p = unstake(rec, &mut c, LOCK_3_MONTHS + 5).unwrap();
    assert_eq!(p.completion_bonus, 9_667 * 105 / 100 - 9_667);
    assert_eq!(p.monthly_rewards, 33);
    assert_eq!(p.total_payout, 9_667 * 105 / 100 + 33);
}

#[test]
fn close_early_forfeits_bonus_only() {
    for lock in [LOCK_3_MONTHS, LOCK_6_MONTHS, LOCK_1_YEAR, LOCK_2_YEARS, LOCK_3_YEARS] {
        let (mut rec, mut c) = open(10_000, lock, 0);
        rec.pending_rr3_rewards = 250;
        let p = unstake(rec, &mut c, lock - 1).unwrap();
        assert!(!p.fully_unlocked);
        assert_eq!(p.completion_bonus, 0);
        assert_eq!(p.total_payout, 9_667 + 250);
    }
}

#[test]
fn close_non_canonical_has_no_bonus() {
    let (rec, mut c) = open(10_000, 600, 0);
    let p = unstake(rec, &mut c, 600).unwrap();
    assert_eq!(p.completion_bonus, 0);
    assert_eq!(p.total_payout, 9_667);
}

#[test]
fn close_counter_never_below_zero() {
    let (rec, _) = open(10_000, 600, 0);
    let mut c = UserStakeCounter::new(alice());
    let p = unstake(rec, &mut c, 0).unwrap();
    assert_eq!(p.total_payout, 9_667);
    assert_eq!(c.active_stakes, 0);
}

#[test]
fn close_payout_overflow() {
    let (mut rec, mut c) = open(10_000, LOCK_3_YEARS, 0);
    rec.amount = u64::MAX / 2;
    assert_eq!(unstake(rec, &mut c, LOCK_3_YEARS), Err(StakeError::ArithmeticOverflow));
    assert_eq!(c.active_stakes, 1);
}

#[test]
fn collection_split_sums_to_pool() {
    let mut s = initialize_distribution_state(&admin(), 0);
    let split = record_monthly_collection(&mut s, &admin(), 300, 100).unwrap();
    assert_eq!(split, CollectionSplit { fee_wallet: 90, expense: 9, marketing: 0, burn: 1 });
    assert_eq!(split.fee_wallet + split.expense + split.marketing + split.burn, 100);
    assert_eq!(s.monthly_rr3_for_rewards, 90);
    assert_eq!(s.monthly_expense_fees, 9);
    assert_eq!(s.monthly_marketing_fees, 0);
    assert_eq!(s.monthly_burn_fees, 1);
    assert_eq!(s.distribution_round, 1);
    assert_eq!(s.last_distribution_time, 300);
}

#[test]
fn collection_split_never_exceeds_pool() {
    let mut s = initialize_distribution_state(&admin(), 0);
    let split = record_monthly_collection(&mut s, &admin(), 1_000, 333).unwrap();
    assert_eq!(split, CollectionSplit { fee_wallet: 300, expense: 30, marketing: 3, burn: 0 });
    let odd = record_monthly_collection(&mut s, &admin(), 2_000, 111).unwrap();
    assert_eq!(odd, CollectionSplit { fee_wallet: 100, expense: 10, marketing: 1, burn: 0 });
    let small = record_monthly_collection(&mut s, &admin(), 3_000, 1_000).unwrap();
    assert_eq!(small, CollectionSplit { fee_wallet: 900, expense: 90, marketing: 9, burn: 1 });
    let big = record_monthly_collection(&mut s, &admin(), 4_000, u64::MAX).unwrap();
    assert_eq!(big.fee_wallet, (u64::MAX as u128 * 300 / 333) as u64);
    assert_eq!(big.expense, (u64::MAX as u128 * 30 / 333) as u64);
    assert_eq!(big.marketing, (u64::MAX as u128 * 3 / 333) as u64);
    let three = big.fee_wallet as u128 + big.expense as u128 + big.marketing as u128;
    assert!(three <= u64::MAX as u128);
    assert_eq!(three + big.burn as u128, u64::MAX as u128);
    assert_eq!(s.distribution_round, 4);
}

#[test]
fn collection_throttled() {
    let mut s = initialize_distribution_state(&admin(), 1_000);
    assert_eq!(
        record_monthly_collection(&mut s, &admin(), 1_299, 100),
        Err(StakeError::TooEarlyForDistribution)
    );
    assert_eq!(s.distribution_round, 0);
    assert!(record_monthly_collection(&mut s, &admin(), 1_300, 100).is_ok());
    assert_eq!(
        record_monthly_collection(&mut s, &admin(), 1_301, 100),
        Err(StakeError::TooEarlyForDistribution)
    );
}

#[test]
fn admin_operations_check_caller() {
    let mut s = initialize_distribution_state(&admin(), 0);
    assert_eq!(record_monthly_collection(&mut s, &alice(), 1_000, 100), Err(StakeError::Unauthorized));
    assert_eq!(update_total_staked(&mut s, &alice(), 5), Err(StakeError::Unauthorized));
    assert_eq!(complete_monthly_distribution(&mut s, &alice(), 5), Err(StakeError::Unauthorized));
    assert_eq!(sweep_fee(&mut s, &alice(), FeeWallet::Burn), Err(StakeError::Unauthorized));
    assert_eq!(s.total_rr3_staked, 0);
    assert_eq!(update_total_staked(&mut s, &admin(), 5), Ok(()));
    assert_eq!(s.total_rr3_staked, 5);
}

#[test]
fn complete_distribution_empties_pool() {
    let mut s = round_state(500, 1_000, 3);
    assert_eq!(complete_monthly_distribution(&mut s, &admin(), 777), Ok(()));
    assert_eq!(s.monthly_rr3_for_rewards, 0);
    assert_eq!(s.last_distribution_time, 777);
    assert_eq!(s.distribution_round, 3);
    assert_eq!(s.total_rr3_staked, 1_000);
}

#[test]
fn sweeps_move_accrued_amounts() {
    let mut s = initialize_distribution_state(&admin(), 0);
    s.monthly_expense_fees = 11;
    s.monthly_marketing_fees = 12;
    s.monthly_rr3_for_rewards = 13;
    s.monthly_burn_fees = 14;
    assert_eq!(transfer_expense_fees(&mut s, &admin()), Ok(11));
    assert_eq!(transfer_marketing_fees(&mut s, &admin()), Ok(12));
    assert_eq!(transfer_fee_wallet(&mut s, &admin()), Ok(13));
    assert_eq!(burn_fees(&mut s, &admin()), Ok(14));
    assert_eq!(s.monthly_expense_fees + s.monthly_marketing_fees + s.monthly_rr3_for_rewards + s.monthly_burn_fees, 0);
    assert_eq!(transfer_expense_fees(&mut s, &admin()), Err(StakeError::NoExpenseFeesToTransfer));
    assert_eq!(transfer_marketing_fees(&mut s, &admin()), Err(StakeError::NoMarketingFeesToTransfer));
    assert_eq!(transfer_fee_wallet(&mut s, &admin()), Err(StakeError::NoFeeWalletFeesToTransfer));
    assert_eq!(burn_fees(&mut s, &admin()), Err(StakeError::NoBurnFeesToTransfer));
}

#[test]
fn assign_credits_weighted_share_once() {
    let s = round_state(1_000, 20_600, 1);
    let (mut rec, _) = open(10_000, LOCK_2_YEARS, 0);
    // weighted = 9667 * 103 / 100 = 9957; share = 9957 * 1000 / 20600 = 483
    assert_eq!(assign_monthly_rewards(&s, &admin(), &mut rec), Ok(483));
    assert_eq!(rec.pending_rr3_rewards, 483);
    assert_eq!(rec.last_distribution_round, 1);
    assert_eq!(
        assign_monthly_rewards(&s, &admin(), &mut rec),
        Err(StakeError::AlreadyReceivedRewardsThisRound)
    );
    assert_eq!(rec.pending_rr3_rewards, 483);
}

#[test]
fn assign_accumulates_across_rounds() {
    let (mut rec, _) = open(10_000, 600, 0);
    let s1 = round_state(100, 9_667, 1);
    assert_eq!(assign_monthly_rewards(&s1, &admin(), &mut rec), Ok(49));
    let s2 = round_state(200, 9_667, 2);
    let second = assign_monthly_rewards(&s2, &admin(), &mut rec).unwrap();
    assert_eq!(second, (9_667u64 * 50 / 100) * 200 / 9_667);
    assert_eq!(rec.pending_rr3_rewards, 49 + second);
    assert_eq!(rec.last_distribution_round, 2);
}

#[test]
fn assign_errors() {
    let (mut rec, _) = open(10_000, LOCK_1_YEAR, 0);
    assert_eq!(
        assign_monthly_rewards(&round_state(0, 10, 1), &admin(), &mut rec),
        Err(StakeError::NoMonthlyCollection)
    );
    assert_eq!(
        assign_monthly_rewards(&round_state(10, 0, 1), &admin(), &mut rec),
        Err(StakeError::NoStakersForDistribution)
    );
    assert_eq!(
        assign_monthly_rewards(&round_state(10, 10, 0), &admin(), &mut rec),
        Err(StakeError::AlreadyReceivedRewardsThisRound)
    );
    assert_eq!(
        assign_monthly_rewards(&round_state(10, 10, 1), &alice(), &mut rec),
        Err(StakeError::Unauthorized)
    );
    assert_eq!(
        assign_monthly_rewards(&round_state(u64::MAX, 1, 1), &admin(), &mut rec),
        Err(StakeError::ArithmeticOverflow)
    );
    assert_eq!(rec.pending_rr3_rewards, 0);
    assert_eq!(rec.last_distribution_round, 0);
}

#[test]
fn eligibility_report() {
    let (mut rec, _) = open(10_000, LOCK_1_YEAR, 1_000);
    rec.pending_rr3_rewards = 5;
    let r = check_eligibility(&rec, 1_000 + 3 * 86_400 + 10);
    assert_eq!(r.staked_amount, 9_667);
    assert_eq!(r.weight, 102);
    assert_eq!(r.weighted_amount, 9_860);
    assert_eq!(r.days_staked, 3);
    assert!(!r.is_unlocked);
    assert_eq!(r.time_until_unlock, (LOCK_1_YEAR - 3 * 86_400 - 10) as i128);
    assert_eq!(r.pending_rewards, 5);
    let later = check_eligibility(&rec, 1_000 + LOCK_1_YEAR);
    assert!(later.is_unlocked);
    assert_eq!(later.time_until_unlock, 0);
    let before = check_eligibility(&rec, 1_000 - 86_401);
    assert_eq!(before.days_staked, -1);
}

#[test]
fn lock_period_info_table() {
    let i = get_lock_period_info(LOCK_6_MONTHS);
    assert_eq!(i.tier, Some(LockTier::SixMonths));
    assert_eq!(i.multiplier, 125);
    assert_eq!(get_lock_period_info(LOCK_3_MONTHS).multiplier, 100);
    assert_eq!(get_lock_period_info(LOCK_1_YEAR).multiplier, 150);
    assert_eq!(get_lock_period_info(LOCK_2_YEARS).multiplier, 200);
    assert_eq!(get_lock_period_info(LOCK_3_YEARS).multiplier, 300);
    let none = get_lock_period_info(12_345);
    assert_eq!(none.tier, None);
    assert_eq!(none.multiplier, 0);
}

#[test]
fn identity_comparison() {
    assert!(alice().same_as(&alice()));
    assert!(!alice().same_as(&admin()));
    assert!(Identity::unset().is_unset_identity());
    assert!(!alice().is_unset_identity());
}
