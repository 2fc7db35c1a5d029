use vstd::prelude::*;
use crate::identity::Identity;
use crate::lock::{is_valid_lock_period, completion_multiplier, multiplier_of, valid_lock, LOCK_3_YEARS};
use crate::state::{StakeError, StakeRecord, UserStakeCounter};

verus! {

/// Commission taken when a stake is opened, in basis points.
pub const TOTAL_COMMISSION_BPS: u64 = 333;

pub open spec fn commission_of(amount: u64) -> int {
    amount as int * TOTAL_COMMISSION_BPS as int / 10000
}

/// The principal that an opened stake locks: the amount less its commission.
pub open spec fn net_principal(amount: u64) -> int {
    amount as int - commission_of(amount)
}

/// The counter an owner's next stake is checked against: an unclaimed counter
/// is taken over by the owner with both counts at zero.
pub open spec fn counter_for(c: UserStakeCounter, owner: Identity) -> UserStakeCounter {
    if c.user.is_unset() {
        UserStakeCounter { user: owner, total_stakes: 0, active_stakes: 0 }
    } else {
        c
    }
}

pub open spec fn in_i64(x: int) -> bool {
    i64::MIN <= x <= i64::MAX
}

/// The record that a successful open creates.
pub open spec fn opened_record(
    owner: Identity,
    stake_index: u32,
    amount: u64,
    lock: i64,
    now: i64,
) -> StakeRecord {
    StakeRecord {
        user: owner,
        stake_index,
        amount: net_principal(amount) as u64,
        stake_time: now,
        lock_duration: lock,
        unlock_time: (now + lock) as i64,
        last_reward_claim: now,
        pending_rr3_rewards: 0,
        total_rr3_claimed: 0,
        last_distribution_round: 0,
    }
}

/// Opening a stake: the error it fails with, if any.
pub open spec fn open_error(
    c: UserStakeCounter,
    owner: Identity,
    stake_index: u32,
    lock: i64,
    now: i64,
) -> Option<StakeError> {
    let cc = counter_for(c, owner);
    if !valid_lock(lock) {
        Some(StakeError::InvalidLockPeriod)
    } else if stake_index != cc.total_stakes {
        Some(StakeError::InvalidStakeIndex)
    } else if !(cc.total_stakes < u32::MAX && cc.active_stakes < u32::MAX && in_i64(now + lock)) {
        Some(StakeError::ArithmeticOverflow)
    } else {
        None
    }
}

/// The counter after a successful open.
pub open spec fn counter_after_open(c: UserStakeCounter, owner: Identity) -> UserStakeCounter {
    let cc = counter_for(c, owner);
    UserStakeCounter {
        user: cc.user,
        total_stakes: (cc.total_stakes + 1) as u32,
        active_stakes: (cc.active_stakes + 1) as u32,
    }
}

/// Opens stake number `stake_index` of `owner`, who moves `rr3_amount` into
/// escrow. The lock must be a canonical tier or at least five minutes, and the
/// index must be the number of stakes the owner has opened so far. The record
/// locks the amount less a 3.33% commission, which stays in escrow. On any
/// error the counter is left as it was.
pub fn stake(
    counter: &mut UserStakeCounter,
    owner: &Identity,
    stake_index: u32,
    rr3_amount: u64,
    lock_duration_seconds: i64,
    now: i64,
) -> (r: Result<StakeRecord, StakeError>)
    ensures
        match open_error(*old(counter), *owner, stake_index, lock_duration_seconds, now) {
            Some(e) => r == Err::<StakeRecord, StakeError>(e) && *final(counter) == *old(counter),
            None => r == Ok::<StakeRecord, StakeError>(
                opened_record(*owner, stake_index, rr3_amount, lock_duration_seconds, now),
            ) && *final(counter) == counter_after_open(*old(counter), *owner),
        },
        r matches Ok(rec) ==> rec.wf() && rec.amount <= rr3_amount
            && rec.amount == rr3_amount - rr3_amount * 333 / 10000,
{
    if !is_valid_lock_period(lock_duration_seconds) {
        return Err(StakeError::InvalidLockPeriod);
    }
    let mut next = *counter;
    if counter.user.is_unset_identity() {
        next = UserStakeCounter::new(*owner);
    }
    if stake_index != next.total_stakes {
        return Err(StakeError::InvalidStakeIndex);
    }
    if next.total_stakes == u32::MAX || next.active_stakes == u32::MAX {
        return Err(StakeError::ArithmeticOverflow);
    }
    let unlock_time = match now.checked_add(lock_duration_seconds) {
        Some(t) => t,
        None => return Err(StakeError::ArithmeticOverflow),
    };
    proof {
        assert(0 <= rr3_amount as int * 333 / 10000 <= rr3_amount as int) by (nonlinear_arith)
            requires
                rr3_amount >= 0,
        ;
    }
    let commission = ((rr3_amount as u128) * (TOTAL_COMMISSION_BPS as u128) / 10000) as u64;
    let net = rr3_amount - commission;
    next.total_stakes = next.total_stakes + 1;
    next.active_stakes = next.active_stakes + 1;
    *counter = next;
    Ok(StakeRecord {
        user: *owner,
        stake_index,
        amount: net,
        stake_time: now,
        lock_duration: lock_duration_seconds,
        unlock_time,
        last_reward_claim: now,
        pending_rr3_rewards: 0,
        total_rr3_claimed: 0,
        last_distribution_round: 0,
    })
}

/// Extending a stake: the error it fails with, if any.
pub open spec fn extend_error(rec: StakeRecord, amount: u64, lock: i64, now: i64) -> Option<StakeError> {
    if !valid_lock(lock) {
        Some(StakeError::InvalidLockPeriod)
    } else if rec.amount + amount > u64::MAX || !in_i64(now + lock) {
        Some(StakeError::ArithmeticOverflow)
    } else {
        None
    }
}

/// The record after a successful extension: the amount is added to the
/// principal, and the lock terms are replaced only if the new unlock time is
/// later than the current one.
pub open spec fn extended(rec: StakeRecord, amount: u64, lock: i64, now: i64) -> StakeRecord {
    let principal = (rec.amount + amount) as u64;
    if now + lock > rec.unlock_time {
        StakeRecord {
            amount: principal,
            lock_duration: lock,
            unlock_time: (now + lock) as i64,
            ..rec
        }
    } else {
        StakeRecord { amount: principal, ..rec }
    }
}

/// Tops up an open stake with `rr3_amount` (no commission is taken) and, if
/// `now + lock_duration_seconds` is later than the current unlock time, moves
/// the lock to that duration. On any error the record is left as it was.
pub fn add_stake(
    stake_record: &mut StakeRecord,
    rr3_amount: u64,
    lock_duration_seconds: i64,
    now: i64,
) -> (r: Result<(), StakeError>)
    ensures
        match extend_error(*old(stake_record), rr3_amount, lock_duration_seconds, now) {
            Some(e) => r == Err::<(), StakeError>(e) && *final(stake_record) == *old(stake_record),
            None => r is Ok && *final(stake_record) == extended(
                *old(stake_record),
                rr3_amount,
                lock_duration_seconds,
                now,
            ),
        },
        old(stake_record).wf() ==> final(stake_record).wf(),
{
    if !is_valid_lock_period(lock_duration_seconds) {
        return Err(StakeError::InvalidLockPeriod);
    }
    let principal = match stake_record.amount.checked_add(rr3_amount) {
        Some(p) => p,
        None => return Err(StakeError::ArithmeticOverflow),
    };
    let new_unlock_time = match now.checked_add(lock_duration_seconds) {
        Some(t) => t,
        None => return Err(StakeError::ArithmeticOverflow),
    };
    stake_record.amount = principal;
    if new_unlock_time > stake_record.unlock_time {
        stake_record.lock_duration = lock_duration_seconds;
        stake_record.unlock_time = new_unlock_time;
    }
    Ok(())
}

/// The record after its pending reward has been paid out at `now`.
pub open spec fn claimed(rec: StakeRecord, now: i64) -> StakeRecord {
    StakeRecord {
        pending_rr3_rewards: 0,
        total_rr3_claimed: (rec.total_rr3_claimed + rec.pending_rr3_rewards) as u64,
        last_reward_claim: now,
        ..rec
    }
}

/// Pays out the stake's pending reward, at any time, matured or not. Returns
/// the amount to move from escrow to the staker; the record then holds no
/// pending reward and counts the amount as claimed. Fails, leaving the record
/// as it was, when nothing is pending.
pub fn claim_rr3_rewards(stake_record: &mut StakeRecord, now: i64) -> (r: Result<u64, StakeError>)
    ensures
        old(stake_record).pending_rr3_rewards == 0 ==> r == Err::<u64, StakeError>(
            StakeError::NoRewardsAvailable,
        ) && *final(stake_record) == *old(stake_record),
        old(stake_record).pending_rr3_rewards > 0 && old(stake_record).total_rr3_claimed
            + old(stake_record).pending_rr3_rewards > u64::MAX ==> r == Err::<u64, StakeError>(
            StakeError::ArithmeticOverflow,
        ) && *final(stake_record) == *old(stake_record),
        old(stake_record).pending_rr3_rewards > 0 && old(stake_record).total_rr3_claimed
            + old(stake_record).pending_rr3_rewards <= u64::MAX ==> r == Ok::<u64, StakeError>(
            old(stake_record).pending_rr3_rewards,
        ) && *final(stake_record) == claimed(*old(stake_record), now),
{
    let pending = stake_record.pending_rr3_rewards;
    if pending == 0 {
        return Err(StakeError::NoRewardsAvailable);
    }
    let total = match stake_record.total_rr3_claimed.checked_add(pending) {
        Some(t) => t,
        None => return Err(StakeError::ArithmeticOverflow),
    };
    stake_record.pending_rr3_rewards = 0;
    stake_record.total_rr3_claimed = total;
    stake_record.last_reward_claim = now;
    Ok(pending)
}

/// What closing a stake pays out.
#[derive(Clone, Copy, Debug, PartialEq, Eq, Structural)]
pub struct UnstakePayout {
    pub principal: u64,
    pub completion_bonus: u64,
    pub monthly_rewards: u64,
    pub total_payout: u64,
    /// Whether the lock had matured when the stake was closed.
    pub fully_unlocked: bool,
}

pub open spec fn is_matured(rec: StakeRecord, now: i64) -> bool {
    now >= rec.unlock_time
}

/// The completion bonus: on a matured stake `principal * multiplier / 100`
/// less the principal (never below zero); nothing on an early exit.
pub open spec fn bonus_of(rec: StakeRecord, now: i64) -> int {
    if is_matured(rec, now) {
        let full = rec.amount as int * multiplier_of(rec.lock_duration) / 100;
        if full > rec.amount { full - rec.amount } else { 0 }
    } else {
        0
    }
}

pub open spec fn payout_of(rec: StakeRecord, now: i64) -> int {
    rec.amount + bonus_of(rec, now) + rec.pending_rr3_rewards
}

pub open spec fn payout_record(rec: StakeRecord, now: i64) -> UnstakePayout {
    UnstakePayout {
        principal: rec.amount,
        completion_bonus: bonus_of(rec, now) as u64,
        monthly_rewards: rec.pending_rr3_rewards,
        total_payout: payout_of(rec, now) as u64,
        fully_unlocked: is_matured(rec, now),
    }
}

pub open spec fn counter_after_close(c: UserStakeCounter) -> UserStakeCounter {
    UserStakeCounter {
        active_stakes: if c.active_stakes > 0 { (c.active_stakes - 1) as u32 } else { 0 },
        ..c
    }
}

/// Closes a stake, consuming its record. A matured stake pays its principal,
/// its completion bonus and its pending reward; an early exit forfeits only the
/// bonus. The owner's active count drops by one (not below zero). Fails, leaving
/// the counter as it was, only when the payout does not fit in a `u64`.
pub fn unstake(stake_record: StakeRecord, user_stake_counter: &mut UserStakeCounter, now: i64)
    -> (r: Result<UnstakePayout, StakeError>)
    ensures
        payout_of(stake_record, now) > u64::MAX ==> r == Err::<UnstakePayout, StakeError>(
            StakeError::ArithmeticOverflow,
        ) && *final(user_stake_counter) == *old(user_stake_counter),
        payout_of(stake_record, now) <= u64::MAX ==> r == Ok::<UnstakePayout, StakeError>(
            payout_record(stake_record, now),
        ) && *final(user_stake_counter) == counter_after_close(*old(user_stake_counter)),
        !is_matured(stake_record, now) ==> (r matches Ok(p) ==> p.completion_bonus == 0
            && p.total_payout == stake_record.amount + stake_record.pending_rr3_rewards),
{
    let principal = stake_record.amount;
    let fully_unlocked = now >= stake_record.unlock_time;
    let bonus: u128 = if fully_unlocked {
        let multiplier = completion_multiplier(stake_record.lock_duration);
        proof {
            assert(principal as int * multiplier as int <= u64::MAX as int * 250) by (nonlinear_arith)
                requires
                    multiplier <= 250,
                    principal >= 0,
            ;
            assert(principal as int * multiplier as int / 100 >= principal as int) by (nonlinear_arith)
                requires
                    multiplier >= 100,
                    principal >= 0,
            ;
        }
        let full = (principal as u128) * (multiplier as u128) / 100;
        full - principal as u128
    } else {
        0
    };
    let total = principal as u128 + bonus + stake_record.pending_rr3_rewards as u128;
    if total > u64::MAX as u128 {
        return Err(StakeError::ArithmeticOverflow);
    }
    user_stake_counter.active_stakes = user_stake_counter.active_stakes.saturating_sub(1);
    Ok(UnstakePayout {
        principal,
        completion_bonus: bonus as u64,
        monthly_rewards: stake_record.pending_rr3_rewards,
        total_payout: total as u64,
        fully_unlocked,
    })
}

/// Indices are handed out in order. With an accepted lock, any index other
/// than the number of stakes the owner has opened is refused; a successful open
/// used exactly that number, and the owner's next open must use the one after.
pub proof fn open_indices_are_sequential(
    c: UserStakeCounter,
    owner: Identity,
    stake_index: u32,
    lock: i64,
    now: i64,
)
    requires
        valid_lock(lock),
        !owner.is_unset(),
    ensures
        stake_index != counter_for(c, owner).total_stakes ==> open_error(
            c,
            owner,
            stake_index,
            lock,
            now,
        ) == Some(StakeError::InvalidStakeIndex),
        open_error(c, owner, stake_index, lock, now) is None ==> stake_index == counter_for(
            c,
            owner,
        ).total_stakes && counter_for(counter_after_open(c, owner), owner).total_stakes
            == stake_index + 1,
{
}

/// Every amount keeps a principal of exactly `amount - floor(amount * 333 /
/// 10000)`, never more than the amount, and every successful open locks it.
pub proof fn net_principal_of_open(
    owner: Identity,
    stake_index: u32,
    amount: u64,
    lock: i64,
    now: i64,
)
    ensures
        0 <= commission_of(amount) <= amount,
        net_principal(amount) == amount - amount * 333 / 10000,
        0 <= net_principal(amount) <= amount,
        opened_record(owner, stake_index, amount, lock, now).amount == net_principal(amount),
{
    assert(0 <= amount as int * 333 / 10000 <= amount as int) by (nonlinear_arith)
        requires
            amount >= 0,
    ;
}

/// The owner's counter after a run of opens, each given as its index, lock
/// and time, or `None` if one of them fails.
pub open spec fn counter_after_opens(
    c: UserStakeCounter,
    owner: Identity,
    opens: Seq<(u32, i64, i64)>,
) -> Option<UserStakeCounter>
    decreases opens.len(),
{
    if opens.len() == 0 {
        Some(c)
    } else {
        match counter_after_opens(c, owner, opens.drop_last()) {
            None => None,
            Some(prev) => {
                let (stake_index, lock, now) = opens.last();
                if open_error(prev, owner, stake_index, lock, now) is None {
                    Some(counter_after_open(prev, owner))
                } else {
                    None
                }
            },
        }
    }
}

/// An owner with no counter yet who opens stakes one after another, every open
/// succeeding, used the indices 0, 1, 2, ... in that order, with no gap and no
/// reuse, and ends with as many stakes opened as the run is long.
pub proof fn open_run_uses_consecutive_indices(
    c: UserStakeCounter,
    owner: Identity,
    opens: Seq<(u32, i64, i64)>,
)
    requires
        c.user.is_unset(),
        !owner.is_unset(),
        counter_after_opens(c, owner, opens) is Some,
    ensures
        forall|k: int| 0 <= k < opens.len() ==> #[trigger] opens[k].0 == k,
        counter_for(counter_after_opens(c, owner, opens).unwrap(), owner).total_stakes
            == opens.len(),
        opens.len() > 0 ==> counter_after_opens(c, owner, opens).unwrap().user == owner,
    decreases opens.len(),
{
    if opens.len() > 0 {
        let prefix = opens.drop_last();
        open_run_uses_consecutive_indices(c, owner, prefix);
        assert forall|k: int| 0 <= k < opens.len() implies #[trigger] opens[k].0 == k by {
            if k < prefix.len() {
                assert(opens[k] == prefix[k]);
            }
        }
    }
}

/// A matured three-year stake earns a bonus of one and a half times its
/// principal, rounded down.
pub proof fn three_year_bonus(rec: StakeRecord, now: i64)
    requires
        rec.lock_duration == LOCK_3_YEARS,
        is_matured(rec, now),
    ensures
        bonus_of(rec, now) == rec.amount as int * 150 / 100,
{
    let p = rec.amount as int;
    assert(p * 250 / 100 == p * 150 / 100 + p) by (nonlinear_arith)
        requires
            p >= 0,
    ;
    assert(p * 150 / 100 >= 0) by (nonlinear_arith)
        requires
            p >= 0,
    ;
}

} // verus!

