use crate::account::UserAccount;
use crate::address::{
    assert_valid_user_stake_pda, bind_owner, bound_owner, is_stake_address, is_unset, same_address,
    zero_address, Address,
};
use crate::boost::{
    lemma_purge_keeps_exactly_unexpired, resolve_staking_multiplier, staking_multiplier, unexpired,
    unexpired_boosts,
};
use crate::emission::GlobalConfig;
use crate::error::ArenaError;
use crate::events::{ClaimEvent, StakeEvent, UnstakeEvent};
use crate::PRECISION;
use vstd::prelude::*;

verus! {

/// The pool that shares staker fees by reward per unit of effective stake.
#[derive(Debug, Clone, Copy)]
pub struct StakingPool {
    pub token_mint: Address,
    pub xnt_mint: Address,
    pub staking_vault: Address,
    pub treasury_xnt_vault: Address,
    /// Sum of the effective stake of all open positions.
    pub total_effective_stake: u128,
    /// Reward units per unit of effective stake, scaled by `PRECISION`.
    pub acc_reward_per_share: u128,
}

/// One staked deposit.
#[derive(Debug, Clone, Copy)]
pub struct UserStakePosition {
    pub owner: Address,
    pub amount_staked: u64,
    pub lock_multiplier_bps: u16,
    pub boost_multiplier_bps: u16,
    pub effective_stake: u128,
    /// Rewards already accounted for: effective stake times the accumulator
    /// at the last settlement, over `PRECISION`.
    pub reward_debt: u128,
    pub lock_until_ts: i64,
    /// 0 for a position at the legacy address, numbered from 1 otherwise.
    pub position_id: u32,
}

/// Seconds in a day.
pub const SECONDS_PER_DAY: i64 = 86_400;

/// The lock multiplier of a lock period in days, if the period is offered.
pub open spec fn lock_multiplier_spec(lock_days: u16) -> Option<u16> {
    if lock_days == 7 {
        Some(10500)
    } else if lock_days == 14 {
        Some(11000)
    } else if lock_days == 30 {
        Some(12000)
    } else {
        None
    }
}

/// Principal scaled by the lock and boost multipliers.
pub open spec fn effective_stake(amount: u64, lock_mult: u16, boost_mult: u16) -> nat {
    (amount as nat) * (lock_mult as nat) * (boost_mult as nat) / 10000 / 10000
}

/// Rewards accrued by `effective` units at accumulator `acc`.
pub open spec fn accrued(effective: u128, acc: u128) -> nat {
    (effective as nat) * (acc as nat) / (PRECISION as nat)
}

/// Whether the product behind `accrued` fits a `u128`.
pub open spec fn accrual_fits(effective: u128, acc: u128) -> bool {
    (effective as nat) * (acc as nat) <= u128::MAX
}

/// Rewards owed to `position` at accumulator `acc`, capped at the largest
/// `u64`; nothing when the debt covers the accrual.
pub open spec fn pending_spec(acc: u128, position: UserStakePosition) -> u64 {
    let a = accrued(position.effective_stake, acc);
    let owed: nat = if a > position.reward_debt { (a - position.reward_debt) as nat } else { 0 };
    if owed > u64::MAX { u64::MAX } else { owed as u64 }
}

/// The accumulator after a fee of `deposit` of which `share_bps` goes to
/// stakers: raised by the stakers' part per unit of stake when there is
/// stake to share it; `None` when the sum leaves `u128`.
pub open spec fn acc_after_inflow(acc: u128, total: u128, deposit: u64, share_bps: u16) -> Option<u128> {
    let to_stakers = (deposit as nat) * (share_bps as nat) / 10000;
    if to_stakers > 0 && total > 0 {
        let raised = acc + to_stakers * (PRECISION as nat) / (total as nat);
        if raised > u128::MAX { None } else { Some(raised as u128) }
    } else {
        Some(acc)
    }
}

/// `now` plus `days` days, saturated at the largest timestamp.
pub open spec fn lock_end(now: i64, days: u16) -> i64 {
    if now + (days as int) * 86400 > i64::MAX {
        i64::MAX
    } else {
        (now + (days as int) * 86400) as i64
    }
}

/// A fee never lowers the accumulator, and raises it only when there is
/// stake to share it.
pub proof fn lemma_inflow_never_lowers_accumulator(acc: u128, total: u128, deposit: u64, share_bps: u16)
    ensures
        match acc_after_inflow(acc, total, deposit, share_bps) {
            Some(a) => a >= acc && (total == 0 ==> a == acc),
            None => total > 0,
        },
{
}

/// The lock multiplier of a lock period in days.
pub fn lock_multiplier(lock_days: u16) -> (r: Result<u16, ArenaError>)
    ensures
        match lock_multiplier_spec(lock_days) {
            Some(m) => r == Ok::<u16, ArenaError>(m),
            None => r == Err::<u16, ArenaError>(ArenaError::InvalidLock),
        },
{
    if lock_days == 7 {
        Ok(10_500)
    } else if lock_days == 14 {
        Ok(11_000)
    } else if lock_days == 30 {
        Ok(12_000)
    } else {
        Err(ArenaError::InvalidLock)
    }
}

/// Principal scaled by the lock and boost multipliers, in basis points.
pub fn calculate_effective(amount: u64, lock_mult: u16, boost_mult: u16) -> (r: Result<u128, ArenaError>)
    ensures
        r matches Ok(e) && e as nat == effective_stake(amount, lock_mult, boost_mult),
{
    let a = amount as u128;
    assert((a as nat) * (lock_mult as nat) <= 0xFFFF_FFFF_FFFF_FFFF * 0xFFFF) by (nonlinear_arith)
        requires
            a <= 0xFFFF_FFFF_FFFF_FFFF,
            lock_mult <= 0xFFFF,
    ;
    let p = a * lock_mult as u128;
    assert((p as nat) * (boost_mult as nat) <= 0xFFFF_FFFF_FFFF_FFFF * 0xFFFF * 0xFFFF) by (nonlinear_arith)
        requires
            p <= 0xFFFF_FFFF_FFFF_FFFF * 0xFFFF,
            boost_mult <= 0xFFFF,
    ;
    let q = p * boost_mult as u128;
    Ok(q / 10_000 / 10_000)
}

/// Rewards accrued by `effective` units at accumulator `acc`.
fn accrued_rewards(effective: u128, acc: u128) -> (r: Result<u128, ArenaError>)
    ensures
        accrual_fits(effective, acc) ==> (r matches Ok(v) && v as nat == accrued(effective, acc)),
        !accrual_fits(effective, acc) ==> r == Err::<u128, ArenaError>(ArenaError::MathOverflow),
{
    match effective.checked_mul(acc) {
        Some(p) => Ok(p / PRECISION),
        None => Err(ArenaError::MathOverflow),
    }
}

/// Rewards owed to `user_stake` at accumulator `acc_reward_per_share`.
pub fn pending_rewards(acc_reward_per_share: u128, user_stake: &UserStakePosition) -> (r: Result<u64, ArenaError>)
    ensures
        accrual_fits(user_stake.effective_stake, acc_reward_per_share) ==> r == Ok::<u64, ArenaError>(
            pending_spec(acc_reward_per_share, *user_stake),
        ),
        !accrual_fits(user_stake.effective_stake, acc_reward_per_share) ==> r == Err::<u64, ArenaError>(
            ArenaError::MathOverflow,
        ),
{
    let accumulated = accrued_rewards(user_stake.effective_stake, acc_reward_per_share)?;
    let pending = accumulated.saturating_sub(user_stake.reward_debt);
    if pending > u64::MAX as u128 {
        Ok(u64::MAX)
    } else {
        Ok(pending as u64)
    }
}

/// Pays out what `user_stake` is owed in `staking_pool` and re-baselines its
/// debt. Returns the amount to pay; nothing changes on failure.
pub fn settle_rewards(staking_pool: &StakingPool, user_stake: &mut UserStakePosition) -> (r: Result<
    u64,
    ArenaError,
>)
    ensures
        !accrual_fits(old(user_stake).effective_stake, staking_pool.acc_reward_per_share) ==> r == Err::<
            u64,
            ArenaError,
        >(ArenaError::MathOverflow) && *final(user_stake) == *old(user_stake),
        accrual_fits(old(user_stake).effective_stake, staking_pool.acc_reward_per_share) ==> {
            &&& r == Ok::<u64, ArenaError>(pending_spec(staking_pool.acc_reward_per_share, *old(user_stake)))
            &&& final(user_stake).reward_debt as nat == accrued(
                old(user_stake).effective_stake,
                staking_pool.acc_reward_per_share,
            )
            &&& *final(user_stake) == (UserStakePosition {
                reward_debt: final(user_stake).reward_debt,
                ..*old(user_stake)
            })
        },
{
    let pending = pending_rewards(staking_pool.acc_reward_per_share, user_stake)?;
    let debt = accrued_rewards(user_stake.effective_stake, staking_pool.acc_reward_per_share)?;
    user_stake.reward_debt = debt;
    Ok(pending)
}

/// Right after a settlement nothing more is owed: a second settlement at the
/// same accumulator pays 0.
pub proof fn lemma_settle_twice_pays_nothing(acc: u128, position: UserStakePosition)
    requires
        position.reward_debt as nat == accrued(position.effective_stake, acc),
    ensures
        pending_spec(acc, position) == 0,
{
}

/// The accumulator after a mining fee of `deposit` reaches the pool.
pub fn accumulator_after_inflow(pool: &StakingPool, deposit: u64, share_bps: u16) -> (r: Result<u128, ArenaError>)
    ensures
        match acc_after_inflow(pool.acc_reward_per_share, pool.total_effective_stake, deposit, share_bps) {
            Some(a) => r == Ok::<u128, ArenaError>(a),
            None => r == Err::<u128, ArenaError>(ArenaError::MathOverflow),
        },
{
    let d = deposit as u128;
    assert((d as nat) * (share_bps as nat) <= 0xFFFF_FFFF_FFFF_FFFF * 0xFFFF) by (nonlinear_arith)
        requires
            d <= 0xFFFF_FFFF_FFFF_FFFF,
            share_bps <= 0xFFFF,
    ;
    let to_stakers = d * share_bps as u128 / 10_000;
    if to_stakers > 0 && pool.total_effective_stake > 0 {
        assert(to_stakers <= 0xFFFF_FFFF_FFFF_FFFF * 0xFFFF);
        assert((to_stakers as nat) * (PRECISION as nat) <= 0xFFFF_FFFF_FFFF_FFFF * 0xFFFF * 1_000_000_000_000)
            by (nonlinear_arith)
            requires
                to_stakers <= 0xFFFF_FFFF_FFFF_FFFF * 0xFFFF,
                PRECISION == 1_000_000_000_000,
        ;
        let raised = to_stakers * PRECISION / pool.total_effective_stake;
        match pool.acc_reward_per_share.checked_add(raised) {
            Some(a) => Ok(a),
            None => Err(ArenaError::MathOverflow),
        }
    } else {
        Ok(pool.acc_reward_per_share)
    }
}

/// `a + b`, saturated at the largest `u128`.
pub open spec fn sat_add_u128(a: u128, b: nat) -> u128 {
    if a + b > u128::MAX {
        u128::MAX
    } else {
        (a + b) as u128
    }
}

/// `a - b`, or 0 when `b` is larger.
pub open spec fn sat_sub_u128(a: u128, b: u128) -> u128 {
    if a >= b {
        (a - b) as u128
    } else {
        0
    }
}

/// The id a new position of `user` gets: the next id, and at least 1.
pub open spec fn new_position_id(user: UserAccount) -> u32 {
    if user.next_position_id >= 1 {
        user.next_position_id
    } else {
        1
    }
}

/// Opens a stake of `amount` locked for `lock_days` at `now`, on behalf of
/// `owner`. The staking multiplier is the best live staking boost and stays
/// fixed for the position's life; the position owes nothing for rewards
/// accrued before it. Nothing changes on failure.
pub fn stake(
    staking_pool: &mut StakingPool,
    user_account: &mut UserAccount,
    stake_position: &mut UserStakePosition,
    owner: &Address,
    amount: u64,
    lock_days: u16,
    now: i64,
) -> (r: Result<StakeEvent, ArenaError>)
    ensures
        ({
            let user_owner = bound_owner(old(user_account).owner@, owner@);
            let position_owner = bound_owner(old(stake_position).owner@, owner@);
            let live = unexpired(old(user_account).active_boosts@, now);
            let boost = staking_multiplier(live, now);
            let acc = old(staking_pool).acc_reward_per_share;
            let position_id = new_position_id(*old(user_account));
            let lock: u16 = match lock_multiplier_spec(lock_days) {
                Some(m) => m,
                None => 0,
            };
            let unchanged = *final(staking_pool) == *old(staking_pool) && *final(user_account) == *old(
                user_account,
            ) && *final(stake_position) == *old(stake_position);
            &&& old(user_account).wf() ==> final(user_account).wf()
            &&& user_owner is None ==> r == Err::<StakeEvent, ArenaError>(ArenaError::Unauthorized) && unchanged
            &&& user_owner is Some && lock_multiplier_spec(lock_days) is None ==> r == Err::<
                StakeEvent,
                ArenaError,
            >(ArenaError::InvalidLock) && unchanged
            &&& user_owner is Some && lock_multiplier_spec(lock_days) is Some && position_owner is None
                ==> r == Err::<StakeEvent, ArenaError>(ArenaError::Unauthorized) && unchanged
            &&& user_owner is Some && lock_multiplier_spec(lock_days) is Some && position_owner is Some
                ==> {
                let eff = effective_stake(amount, lock, boost);
                &&& eff * (acc as nat) > u128::MAX ==> r == Err::<StakeEvent, ArenaError>(
                    ArenaError::MathOverflow,
                ) && unchanged
                &&& eff * (acc as nat) <= u128::MAX ==> {
                    &&& r == Ok::<StakeEvent, ArenaError>(
                        StakeEvent { owner: *owner, position_id, amount, lock_days, effective: eff as u128 },
                    )
                    &&& final(stake_position).effective_stake as nat == eff
                    &&& Some(final(stake_position).owner@) == position_owner
                    &&& final(stake_position).amount_staked == amount
                    &&& final(stake_position).lock_multiplier_bps == lock
                    &&& final(stake_position).boost_multiplier_bps == boost
                    &&& final(stake_position).reward_debt as nat == accrued(eff as u128, acc)
                    &&& final(stake_position).lock_until_ts == lock_end(now, lock_days)
                    &&& final(stake_position).position_id == position_id
                    &&& *final(staking_pool) == (StakingPool {
                        total_effective_stake: sat_add_u128(old(staking_pool).total_effective_stake, eff),
                        ..*old(staking_pool)
                    })
                    &&& Some(final(user_account).owner@) == user_owner
                    &&& final(user_account).active_boosts@ == live
                    &&& final(user_account).next_position_id == if position_id < u32::MAX {
                        (position_id + 1) as u32
                    } else {
                        u32::MAX
                    }
                    &&& *final(user_account) == (UserAccount {
                        owner: final(user_account).owner,
                        active_boosts: final(user_account).active_boosts,
                        next_position_id: final(user_account).next_position_id,
                        ..*old(user_account)
                    })
                }
            }
        }),
{
    let live = unexpired_boosts(&user_account.active_boosts, now);
    proof {
        lemma_purge_keeps_exactly_unexpired(old(user_account).active_boosts@, now);
    }
    let user_owner = bind_owner(&user_account.owner, owner)?;
    let position_id: u32 = if user_account.next_position_id >= 1 {
        user_account.next_position_id
    } else {
        1
    };
    let lock_multiplier_bps = lock_multiplier(lock_days)?;
    let boost_multiplier_bps = resolve_staking_multiplier(user_account, now);
    proof {
        crate::boost::lemma_staking_multiplier_ignores_expired(old(user_account).active_boosts@, now);
    }
    let position_owner = bind_owner(&stake_position.owner, owner)?;
    let effective = calculate_effective(amount, lock_multiplier_bps, boost_multiplier_bps)?;
    let reward_debt = accrued_rewards(effective, staking_pool.acc_reward_per_share)?;
    let lock_until_ts: i64 = match now.checked_add(lock_days as i64 * SECONDS_PER_DAY) {
        Some(t) => t,
        None => i64::MAX,
    };
    stake_position.owner = position_owner;
    stake_position.position_id = position_id;
    stake_position.amount_staked = amount;
    stake_position.lock_multiplier_bps = lock_multiplier_bps;
    stake_position.boost_multiplier_bps = boost_multiplier_bps;
    stake_position.effective_stake = effective;
    stake_position.lock_until_ts = lock_until_ts;
    stake_position.reward_debt = reward_debt;
    staking_pool.total_effective_stake = staking_pool.total_effective_stake.saturating_add(effective);
    user_account.owner = user_owner;
    user_account.active_boosts = live;
    user_account.next_position_id = position_id.saturating_add(1);
    Ok(StakeEvent { owner: *owner, position_id, amount, lock_days, effective })
}

/// Pays out what the position at `position_key` has accrued, on behalf of
/// its owner. Nothing changes on failure.
pub fn claim(
    staking_pool: &StakingPool,
    user_stake_position: &mut UserStakePosition,
    owner: &Address,
    program_id: &Address,
    position_key: &Address,
) -> (r: Result<ClaimEvent, ArenaError>)
    ensures
        ({
            let p = *old(user_stake_position);
            let acc = staking_pool.acc_reward_per_share;
            let at_address = is_stake_address(program_id@, owner@, p.position_id, position_key@);
            &&& !at_address ==> r == Err::<ClaimEvent, ArenaError>(ArenaError::InvalidStakePda)
            &&& at_address && p.owner@ != owner@ ==> r == Err::<ClaimEvent, ArenaError>(ArenaError::Unauthorized)
            &&& at_address && p.owner@ == owner@ && !accrual_fits(p.effective_stake, acc) ==> r == Err::<
                ClaimEvent,
                ArenaError,
            >(ArenaError::MathOverflow)
            &&& r is Err ==> *final(user_stake_position) == p
            &&& at_address && p.owner@ == owner@ && accrual_fits(p.effective_stake, acc) ==> {
                &&& r == Ok::<ClaimEvent, ArenaError>(
                    ClaimEvent { owner: *owner, position_id: p.position_id, rewards_claimed: pending_spec(acc, p) },
                )
                &&& final(user_stake_position).reward_debt as nat == accrued(p.effective_stake, acc)
                &&& *final(user_stake_position) == (UserStakePosition {
                    reward_debt: final(user_stake_position).reward_debt,
                    ..p
                })
            }
        }),
{
    let position_id = assert_valid_user_stake_pda(
        program_id,
        owner,
        Some(user_stake_position.position_id),
        position_key,
    )?;
    if !same_address(&user_stake_position.owner, owner) {
        return Err(ArenaError::Unauthorized);
    }
    let claimed = settle_rewards(staking_pool, user_stake_position)?;
    Ok(ClaimEvent { owner: *owner, position_id, rewards_claimed: claimed })
}

/// Closes the position at `position_key` once its lock has ended, on behalf
/// of its owner: pays out its rewards, returns its principal and takes its
/// effective stake out of the pool. Returns the record and the rewards paid;
/// nothing changes on failure.
pub fn unstake(
    staking_pool: &mut StakingPool,
    user_stake_position: &mut UserStakePosition,
    owner: &Address,
    program_id: &Address,
    position_key: &Address,
    now: i64,
) -> (r: Result<(UnstakeEvent, u64), ArenaError>)
    ensures
        ({
            let p = *old(user_stake_position);
            let acc = old(staking_pool).acc_reward_per_share;
            let at_address = is_stake_address(program_id@, owner@, p.position_id, position_key@);
            &&& !at_address ==> r == Err::<(UnstakeEvent, u64), ArenaError>(ArenaError::InvalidStakePda)
            &&& at_address && p.owner@ != owner@ ==> r == Err::<(UnstakeEvent, u64), ArenaError>(
                ArenaError::Unauthorized,
            )
            &&& at_address && p.owner@ == owner@ && now < p.lock_until_ts ==> r == Err::<
                (UnstakeEvent, u64),
                ArenaError,
            >(ArenaError::StakeLocked)
            &&& at_address && p.owner@ == owner@ && now >= p.lock_until_ts && !accrual_fits(
                p.effective_stake,
                acc,
            ) ==> r == Err::<(UnstakeEvent, u64), ArenaError>(ArenaError::MathOverflow)
            &&& r is Err ==> *final(user_stake_position) == p && *final(staking_pool) == *old(staking_pool)
            &&& at_address && p.owner@ == owner@ && now >= p.lock_until_ts && accrual_fits(
                p.effective_stake,
                acc,
            ) ==> {
                &&& r == Ok::<(UnstakeEvent, u64), ArenaError>(
                    (
                        UnstakeEvent { owner: *owner, position_id: p.position_id, amount: p.amount_staked },
                        pending_spec(acc, p),
                    ),
                )
                &&& *final(user_stake_position) == (UserStakePosition {
                    amount_staked: 0,
                    effective_stake: 0,
                    reward_debt: 0,
                    ..p
                })
                &&& *final(staking_pool) == (StakingPool {
                    total_effective_stake: sat_sub_u128(
                        old(staking_pool).total_effective_stake,
                        p.effective_stake,
                    ),
                    ..*old(staking_pool)
                })
            }
        }),
{
    let position_id = assert_valid_user_stake_pda(
        program_id,
        owner,
        Some(user_stake_position.position_id),
        position_key,
    )?;
    if !same_address(&user_stake_position.owner, owner) {
        return Err(ArenaError::Unauthorized);
    }
    if now < user_stake_position.lock_until_ts {
        return Err(ArenaError::StakeLocked);
    }
    let rewards = settle_rewards(staking_pool, user_stake_position)?;
    let amount = user_stake_position.amount_staked;
    let prev_effective = user_stake_position.effective_stake;
    staking_pool.total_effective_stake = staking_pool.total_effective_stake.saturating_sub(prev_effective);
    user_stake_position.amount_staked = 0;
    user_stake_position.effective_stake = 0;
    user_stake_position.reward_debt = 0;
    Ok((UnstakeEvent { owner: *owner, position_id, amount }, rewards))
}

/// Opens the staking pool, on behalf of the admin, once the treasury vault
/// is configured.
pub fn initialize_staking_pool(
    global: &GlobalConfig,
    admin: &Address,
    game_mint: &Address,
    xnt_mint: &Address,
    staking_vault: &Address,
) -> (r: Result<StakingPool, ArenaError>)
    ensures
        admin@ != global.admin@ ==> r == Err::<StakingPool, ArenaError>(ArenaError::Unauthorized),
        admin@ == global.admin@ && global.treasury_xnt_vault@ == zero_address() ==> r == Err::<
            StakingPool,
            ArenaError,
        >(ArenaError::IncompleteConfig),
        admin@ == global.admin@ && global.treasury_xnt_vault@ != zero_address() ==> r == Ok::<
            StakingPool,
            ArenaError,
        >(
            StakingPool {
                token_mint: *game_mint,
                xnt_mint: *xnt_mint,
                staking_vault: *staking_vault,
                treasury_xnt_vault: global.treasury_xnt_vault,
                total_effective_stake: 0,
                acc_reward_per_share: 0,
            },
        ),
{
    if !same_address(admin, &global.admin) {
        return Err(ArenaError::Unauthorized);
    }
    if is_unset(&global.treasury_xnt_vault) {
        return Err(ArenaError::IncompleteConfig);
    }
    Ok(StakingPool {
        token_mint: *game_mint,
        xnt_mint: *xnt_mint,
        staking_vault: *staking_vault,
        treasury_xnt_vault: global.treasury_xnt_vault,
        total_effective_stake: 0,
        acc_reward_per_share: 0,
    })
}

} // verus!
