use crate::account::UserAccount;
use crate::address::{bind_owner, bound_owner, Address};
use crate::boost::{
    after_ticket, apply_mining_point_boost, apply_mining_reward_boost, find_free_rig_ticket,
    lemma_purge_keeps_exactly_unexpired,
    first_ticket_from, mining_multiplied, unexpired, unexpired_boosts, BoostKind,
};
use crate::emission::{sat_add_u64, GlobalConfig};
use crate::error::ArenaError;
use crate::events::MiningEvent;
use crate::rig::{halved, mining_points, mining_points_spec, rig_spec, RigConfig};
use crate::roll::{compute_reward_amount, entropy_bytes, keccak_of, payout, roll_of};
use crate::staking::{acc_after_inflow, accumulator_after_inflow, StakingPool};
use vstd::prelude::*;

verus! {

/// `x`, capped at the largest `u64`.
pub open spec fn cap_u64(x: nat) -> u64 {
    if x > u64::MAX {
        u64::MAX
    } else {
        x as u64
    }
}

/// `a + b`, saturated at the largest `u32`.
pub open spec fn sat_add_u32(a: u32, b: u32) -> u32 {
    if a + b > u32::MAX {
        u32::MAX
    } else {
        (a + b) as u32
    }
}

/// The payout before boosts of a run by `payer` on tier `rig_id` at level
/// `level`, drawn from the slot and the time.
pub open spec fn rolled_payout(rig_id: u8, level: u64, payer: Seq<u8>, slot: u64, now: i64) -> u64 {
    payout(rig_spec(rig_id), level, roll_of(keccak_of(entropy_bytes(slot, now, payer, rig_id))))
}

/// One mining run by `payer` on tier `rig_id` at time `now` and ledger slot
/// `slot`. Expired boosts are dropped; a live free-rig ticket for the tier is
/// used up in place of the fee; the fee's staker share feeds the pool; the
/// rolled payout, scaled by the live reward boosts, is minted and counted;
/// points, scaled by the live points boosts, and statistics are recorded.
/// Returns the record whose fee the caller collects and whose reward it
/// mints. Nothing changes on failure.
pub fn mine_with_rig(
    global: &mut GlobalConfig,
    staking_pool: &mut StakingPool,
    user_account: &mut UserAccount,
    payer: &Address,
    rig_id: u8,
    slot: u64,
    now: i64,
) -> (r: Result<MiningEvent, ArenaError>)
    requires
        old(global).halving_interval > 0,
    ensures
        ({
            let owner = bound_owner(old(user_account).owner@, payer@);
            let live = unexpired(old(user_account).active_boosts@, now);
            let ticket = first_ticket_from(live, rig_id, now, 0);
            let boosts = after_ticket(live, rig_id, now);
            let deposit: u64 = if ticket is Some { 0 } else { rig_spec(rig_id).base_cost_xnt };
            let level = old(global).halving_level;
            let boosted = mining_multiplied(
                boosts,
                BoostKind::MiningRewardBps,
                now,
                rolled_payout(rig_id, level, payer@, slot, now) as nat,
            );
            let reward = cap_u64(boosted);
            let points = cap_u64(
                mining_multiplied(boosts, BoostKind::MiningPointsBps, now, mining_points_spec(rig_id) as nat),
            );
            let new_acc = acc_after_inflow(
                old(staking_pool).acc_reward_per_share,
                old(staking_pool).total_effective_stake,
                deposit,
                old(global).staking_share_bps,
            );
            let unchanged = *final(global) == *old(global) && *final(staking_pool) == *old(staking_pool)
                && *final(user_account) == *old(user_account);
            let old_runs = old(user_account).mining_runs_by_rig@;
            &&& owner is None ==> r == Err::<MiningEvent, ArenaError>(ArenaError::Unauthorized)
            &&& owner is Some && rig_id >= 4 ==> r == Err::<MiningEvent, ArenaError>(ArenaError::InvalidRig)
            &&& owner is Some && rig_id < 4 && new_acc is None ==> r == Err::<MiningEvent, ArenaError>(
                ArenaError::MathOverflow,
            )
            &&& r is Err ==> unchanged
            &&& old(user_account).wf() ==> final(user_account).wf()
            &&& owner is Some && rig_id < 4 && new_acc is Some ==> {
                &&& r == Ok::<MiningEvent, ArenaError>(
                    MiningEvent {
                        user: *payer,
                        rig_id,
                        deposit_xnt: deposit,
                        reward_game: reward,
                        used_free_rig: ticket is Some,
                    },
                )
                &&& final(global).total_minted == sat_add_u64(old(global).total_minted, reward)
                &&& *final(global) == (GlobalConfig {
                    total_minted: final(global).total_minted,
                    halving_level: final(global).total_minted / old(global).halving_interval,
                    ..*old(global)
                })
                &&& Some(final(staking_pool).acc_reward_per_share) == new_acc
                &&& *final(staking_pool) == (StakingPool {
                    acc_reward_per_share: final(staking_pool).acc_reward_per_share,
                    ..*old(staking_pool)
                })
                &&& Some(final(user_account).owner@) == owner
                &&& final(user_account).active_boosts@ == boosts
                &&& final(user_account).mining_xnt_spent == sat_add_u64(old(user_account).mining_xnt_spent, deposit)
                &&& final(user_account).mining_tokens_mined == sat_add_u64(
                    old(user_account).mining_tokens_mined,
                    reward,
                )
                &&& final(user_account).mining_runs_by_rig@ == old_runs.update(
                    rig_id as int,
                    sat_add_u64(old_runs[rig_id as int], 1),
                )
                &&& final(user_account).mining_crit_count == if boosted >= halved(
                    rig_spec(rig_id).base_reward_high,
                    level,
                ) {
                    sat_add_u64(old(user_account).mining_crit_count, 1)
                } else {
                    old(user_account).mining_crit_count
                }
                &&& final(user_account).daily_points == sat_add_u32(old(user_account).daily_points, points as u32)
                &&& final(user_account).lifetime_points == sat_add_u64(old(user_account).lifetime_points, points)
                &&& *final(user_account) == (UserAccount {
                    owner: final(user_account).owner,
                    active_boosts: final(user_account).active_boosts,
                    mining_xnt_spent: final(user_account).mining_xnt_spent,
                    mining_tokens_mined: final(user_account).mining_tokens_mined,
                    mining_runs_by_rig: final(user_account).mining_runs_by_rig,
                    mining_crit_count: final(user_account).mining_crit_count,
                    daily_points: final(user_account).daily_points,
                    lifetime_points: final(user_account).lifetime_points,
                    ..*old(user_account)
                })
            }
        }),
{
    let live = unexpired_boosts(&user_account.active_boosts, now);
    proof {
        lemma_purge_keeps_exactly_unexpired(old(user_account).active_boosts@, now);
    }
    let owner = bind_owner(&user_account.owner, payer)?;
    let rig = match RigConfig::get(rig_id) {
        Some(rig) => rig,
        None => return Err(ArenaError::InvalidRig),
    };
    let halving_level = global.halving_level;
    let ticket = find_free_rig_ticket(&live, rig_id, now);
    let mut boosts = live;
    let mut deposit_xnt = rig.base_cost_xnt;
    let mut used_free_rig = false;
    match ticket {
        Some(i) => {
            boosts.remove(i);
            deposit_xnt = 0;
            used_free_rig = true;
        },
        None => {},
    }
    let new_acc = accumulator_after_inflow(staking_pool, deposit_xnt, global.staking_share_bps)?;

    staking_pool.acc_reward_per_share = new_acc;
    user_account.owner = owner;
    user_account.active_boosts = boosts;
    user_account.mining_xnt_spent = user_account.mining_xnt_spent.saturating_add(deposit_xnt);

    let reward = compute_reward_amount(&rig, halving_level, payer, slot, now, rig_id);
    let boosted_reward = apply_mining_reward_boost(user_account, reward, now);
    let reward_u64: u64 = if boosted_reward > u64::MAX as u128 {
        u64::MAX
    } else {
        boosted_reward as u64
    };
    global.apply_mint(reward_u64);

    let points = apply_mining_point_boost(user_account, mining_points(rig_id) as u128, now);
    let points_u64: u64 = if points > u64::MAX as u128 {
        u64::MAX
    } else {
        points as u64
    };
    user_account.daily_points = user_account.daily_points.saturating_add(points_u64 as u32);
    user_account.lifetime_points = user_account.lifetime_points.saturating_add(points_u64);
    user_account.mining_tokens_mined = user_account.mining_tokens_mined.saturating_add(reward_u64);
    let runs = user_account.mining_runs_by_rig[rig_id as usize];
    user_account.mining_runs_by_rig[rig_id as usize] = runs.saturating_add(1);
    if boosted_reward >= rig.reward_high(halving_level) as u128 {
        user_account.mining_crit_count = user_account.mining_crit_count.saturating_add(1);
    }
    Ok(MiningEvent { user: *payer, rig_id, deposit_xnt, reward_game: reward_u64, used_free_rig })
}

} // verus!
