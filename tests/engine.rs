use mining_arena::account::UserAccount;
use mining_arena::address::{assert_valid_user_stake_pda, Address};
use mining_arena::boost::{
    apply_mining_point_boost, apply_mining_reward_boost, find_free_rig_ticket,
    resolve_staking_multiplier, upsert_boost_config, BoostConfig, BoostConfigArgs, BoostKind,
    UserBoost,
};
use mining_arena::emission::{initialize_global, update_halving, GlobalConfig, InitializeArgs};
use mining_arena::error::ArenaError;
use mining_arena::mining::mine_with_rig;
use mining_arena::rig::RigConfig;
use mining_arena::roll::{compute_reward_amount, entropy_input, roll_from_digest, select_reward};
use mining_arena::staking::{
    accumulator_after_inflow, calculate_effective, claim, initialize_staking_pool, lock_multiplier, pending_rewards,
    settle_rewards, stake, unstake, StakingPool, UserStakePosition,
};
use mining_arena::{DEFAULT_HALVING_INTERVAL, DEFAULT_STAKING_SHARE_BPS, PRECISION};

use anchor_lang::solana_program::keccak;
use anchor_lang::solana_program::pubkey::Pubkey;

fn key(b: u8) -> Address {
    [b; 32]
}

fn account(owner: Address) -> UserAccount {
    UserAccount {
        owner,
        daily_points: 0,
        lifetime_points: 0,
        boost_points: 0,
        mining_xnt_spent: 0,
        mining_tokens_mined: 0,
        mining_runs_by_rig: [0; 4],
        mining_crit_count: 0,
        staking_xnt_earned: 0,
        last_day_id: 0,
        achievements: mining_arena::account::Achievements {
            first_mine: false,
            first_stake: false,
            seven_day_streak: false,
            heavy_operator: false,
        },
        next_position_id: 0,
        active_boosts: Vec::new(),
    }
}

fn boost(kind: BoostKind, value_bps: u16, expires_at_ts: i64) -> UserBoost {
    UserBoost {
        boost_id: 1,
        kind,
        value_bps,
        expires_at_ts,
        rig_id: None,
        applied_to_mining: kind != BoostKind::StakingMultiplierBps,
        applied_to_staking: kind == BoostKind::StakingMultiplierBps,
    }
}

fn config(kind: BoostKind, cost: u64, value_bps: u16, duration: i64) -> BoostConfig {
    BoostConfig { id: 7, kind, cost_boost_points: cost, value_bps, duration_seconds: duration, rig_id: None }
}

fn global() -> GlobalConfig {
    GlobalConfig {
        admin: key(9),
        game_mint: key(2),
        xnt_mint: key(3),
        treasury_xnt_vault: key(4),
        halving_interval: 1000,
        halving_level: 0,
        total_minted: 0,
        staking_share_bps: 3000,
    }
}

fn pool(total: u128, acc: u128) -> StakingPool {
    StakingPool {
        token_mint: key(2),
        xnt_mint: key(3),
        staking_vault: key(5),
        treasury_xnt_vault: key(4),
        total_effective_stake: total,
        acc_reward_per_share: acc,
    }
}

fn position(owner: Address, position_id: u32, effective: u128, debt: u128, lock_until: i64) -> UserStakePosition {
    UserStakePosition {
        owner,
        amount_staked: 500,
        lock_multiplier_bps: 10_000,
        boost_multiplier_bps: 10_000,
        effective_stake: effective,
        reward_debt: debt,
        lock_until_ts: lock_until,
        position_id,
    }
}

fn stake_address(program: &Address, owner: &Address, position_id: u32) -> Address {
    let program = Pubkey::new_from_array(*program);
    let owner = Pubkey::new_from_array(*owner);
    let id = position_id.to_le_bytes();
    let (pda, _) = if position_id == 0 {
        Pubkey::find_program_address(&[b"user-stake", owner.as_ref()], &program)
    } else {
        Pubkey::find_program_address(&[b"user-stake", owner.as_ref(), &id], &program)
    };
    pda.to_bytes()
}

#[test]
fn rig_catalog_values() {
    let r0 = RigConfig::get(0).unwrap();
    assert_eq!((r0.base_cost_xnt, r0.base_reward_low, r0.base_reward_high, r0.prob_high_bps), (50_000_000, 50, 100, 5000));
    let r3 = RigConfig::get(3).unwrap();
    assert_eq!((r3.base_cost_xnt, r3.base_reward_low, r3.base_reward_high), (3_000_000_000, 4200, 4800));
    assert!(RigConfig::get(4).is_none());
}

#[test]
fn halved_rewards_shift_and_reach_zero() {
    let r = RigConfig::get(3).unwrap();
    assert_eq!(r.reward_high(0), 4800);
    assert_eq!(r.reward_high(1), 2400);
    assert_eq!(r.reward_low(3), 525);
    assert_eq!(r.reward_low(13), 0);
    assert_eq!(r.reward_high(63), 0);
    assert_eq!(r.reward_high(64), 0);
    assert_eq!(r.reward_high(200), 0);
}

#[test]
fn payout_follows_draw() {
    let r = RigConfig::get(2).unwrap();
    assert_eq!(select_reward(&r, 0, 4999), 1600);
    assert_eq!(select_reward(&r, 0, 5000), 1400);
    assert_eq!(select_reward(&r, 1, 0), 800);
    assert_eq!(select_reward(&r, 1, 9999), 700);
}

#[test]
fn roll_takes_low_sixteen_bits_mod_ten_thousand() {
    let mut d = [0u8; 32];
    d[0] = 0x10;
    d[1] = 0x27;
    assert_eq!(roll_from_digest(&d), 0);
    d[0] = 0xff;
    d[1] = 0xff;
    assert_eq!(roll_from_digest(&d), 65535 % 10_000);
    d[0] = 7;
    d[1] = 0;
    assert_eq!(roll_from_digest(&d), 7);
}

#[test]
fn entropy_layout_is_little_endian() {
    let bytes = entropy_input(0x0102, -1, &key(5), 3);
    assert_eq!(bytes.len(), 49);
    assert_eq!(&bytes[0..8], &[2, 1, 0, 0, 0, 0, 0, 0]);
    assert_eq!(&bytes[8..16], &[0xff; 8]);
    assert_eq!(&bytes[16..48], &[5u8; 32]);
    assert_eq!(bytes[48], 3);
}

#[test]
fn reward_roll_replays_from_hash() {
    let r = RigConfig::get(1).unwrap();
    for slot in 0..20u64 {
        let data = entropy_input(slot, 1_700_000_000, &key(8), 1);
        let digest = keccak::hash(&data).to_bytes();
        let draw = (u16::from_le_bytes([digest[0], digest[1]])) % 10_000;
        let expected = if draw < 5000 { 400 } else { 300 };
        let got = compute_reward_amount(&r, 0, &key(8), slot, 1_700_000_000, 1);
        assert_eq!(got, expected);
        assert_eq!(got, compute_reward_amount(&r, 0, &key(8), slot, 1_700_000_000, 1));
    }
}

#[test]
fn keccak_digest_is_not_the_input() {
    let data = entropy_input(1, 2, &key(0), 0);
    let digest = keccak::hash(&data).to_bytes();
    let plain = (u16::from_le_bytes([data[0], data[1]])) % 10_000;
    let hashed = (u16::from_le_bytes([digest[0], digest[1]])) % 10_000;
    assert_ne!(plain, hashed);
    let at = |prob: u16| RigConfig { rig_id: 0, base_cost_xnt: 0, base_reward_low: 1, base_reward_high: 2, prob_high_bps: prob };
    assert_eq!(compute_reward_amount(&at(hashed), 0, &key(0), 1, 2, 0), 1);
    assert_eq!(compute_reward_amount(&at(hashed + 1), 0, &key(0), 1, 2, 0), 2);
}

#[test]
fn halving_level_tracks_total_minted() {
    let mut g = global();
    for amount in [300u64, 700, 1, 2500, 0, 12_345] {
        g.apply_mint(amount);
        assert_eq!(g.halving_level, g.total_minted / g.halving_interval);
    }
    assert_eq!(g.total_minted, 15_846);
    assert_eq!(g.halving_level, 15);
    g.apply_mint(u64::MAX);
    assert_eq!(g.total_minted, u64::MAX);
    assert_eq!(g.halving_level, u64::MAX / 1000);
}

#[test]
fn initialize_global_defaults_and_errors() {
    let args = InitializeArgs { admin: key(9), staking_share_bps: 0, halving_interval: 0 };
    let g = initialize_global(&key(9), &key(2), &key(3), &args).unwrap();
    assert_eq!(g.halving_interval, DEFAULT_HALVING_INTERVAL);
    assert_eq!(g.staking_share_bps, DEFAULT_STAKING_SHARE_BPS);
    assert_eq!(g.treasury_xnt_vault, [0u8; 32]);
    assert_eq!(initialize_global(&key(1), &key(2), &key(3), &args).unwrap_err(), ArenaError::Unauthorized);
    let bad = InitializeArgs { admin: key(9), staking_share_bps: 10_001, halving_interval: 5 };
    assert_eq!(initialize_global(&key(9), &key(2), &key(3), &bad).unwrap_err(), ArenaError::InvalidBps);
}

#[test]
fn update_halving_needs_admin() {
    let mut g = global();
    g.total_minted = 5500;
    assert_eq!(update_halving(&mut g, &key(1)), Err(ArenaError::Unauthorized));
    assert_eq!(g.halving_level, 0);
    assert_eq!(update_halving(&mut g, &key(9)), Ok(()));
    assert_eq!(g.halving_level, 5);
}

#[test]
fn staking_pool_needs_treasury() {
    let mut g = global();
    assert!(initialize_staking_pool(&g, &key(9), &key(2), &key(3), &key(5)).is_ok());
    assert_eq!(initialize_staking_pool(&g, &key(1), &key(2), &key(3), &key(5)).unwrap_err(), ArenaError::Unauthorized);
    g.treasury_xnt_vault = [0u8; 32];
    assert_eq!(initialize_staking_pool(&g, &key(9), &key(2), &key(3), &key(5)).unwrap_err(), ArenaError::IncompleteConfig);
}

#[test]
fn two_reward_boosts_compose_in_either_order() {
    let mut a = account(key(1));
    a.active_boosts = vec![boost(BoostKind::MiningRewardBps, 15_000, 0), boost(BoostKind::MiningRewardBps, 20_000, 0)];
    assert_eq!(apply_mining_reward_boost(&a, 100, 0), 300);
    assert_eq!(apply_mining_reward_boost(&a, 1, 0), 3);
    a.active_boosts.reverse();
    assert_eq!(apply_mining_reward_boost(&a, 1, 0), 3);
    assert_eq!(apply_mining_reward_boost(&a, 100, 0), 300);
    a.active_boosts = vec![boost(BoostKind::MiningRewardBps, 15_000, 0), boost(BoostKind::MiningRewardBps, 15_000, 0)];
    assert_eq!(apply_mining_reward_boost(&a, 1, 0), 1u128 * 15_000 * 15_000 / 100_000_000);
    assert_eq!(apply_mining_reward_boost(&a, 1, 0), 2);
}

#[test]
fn reward_boosts_divide_once() {
    let mut a = account(key(1));
    a.active_boosts = vec![
        boost(BoostKind::MiningRewardBps, 5_000, 0),
        boost(BoostKind::MiningRewardBps, 15_000, 0),
    ];
    assert_eq!(apply_mining_reward_boost(&a, 3, 0), 2);
    a.active_boosts.reverse();
    assert_eq!(apply_mining_reward_boost(&a, 3, 0), 2);
    a.active_boosts = vec![boost(BoostKind::MiningRewardBps, 65_535, 0); 8];
    assert_eq!(apply_mining_reward_boost(&a, u64::MAX, 0), 62_763_355_285_370_448_464_200_083);
    a.active_boosts = vec![boost(BoostKind::MiningRewardBps, 30_000, 0); 8];
    assert_eq!(apply_mining_reward_boost(&a, 4800, 0), 4800 * 3u128.pow(8));
    a.active_boosts.push(boost(BoostKind::MiningPointsBps, 30_000, 0));
    a.active_boosts.push(boost(BoostKind::MiningRewardBps, 30_000, 1));
    assert_eq!(apply_mining_reward_boost(&a, 4800, 2), 4800 * 3u128.pow(8));
    assert_eq!(apply_mining_point_boost(&a, 12, 2), 36);
    a.active_boosts = vec![boost(BoostKind::MiningPointsBps, 65_535, 0); 8];
    assert_eq!(apply_mining_point_boost(&a, 12, 0), 40_828_899);
}

#[test]
fn many_boosts_saturate_only_the_result() {
    let mut a = account(key(1));
    a.active_boosts = vec![boost(BoostKind::MiningRewardBps, 65_535, 0); 40];
    assert_eq!(apply_mining_reward_boost(&a, u64::MAX, 0), u128::MAX);
    a.active_boosts = vec![boost(BoostKind::MiningRewardBps, 0, 0), boost(BoostKind::MiningRewardBps, 65_535, 0)];
    assert_eq!(apply_mining_reward_boost(&a, u64::MAX, 0), 0);
}

#[test]
fn mining_run_with_eight_strong_boosts() {
    let mut g = global();
    g.halving_interval = u64::MAX;
    let mut p = pool(0, 0);
    let mut a = account(key(1));
    a.active_boosts = vec![boost(BoostKind::MiningRewardBps, 30_000, 0); 8];
    let ev = mine_with_rig(&mut g, &mut p, &mut a, &key(1), 3, 5, 6).unwrap();
    assert!(ev.reward_game == 4200 * 6561 || ev.reward_game == 4800 * 6561);
    assert_eq!(a.mining_crit_count, 1);
}

#[test]
fn two_points_boosts_compose() {
    let mut a = account(key(1));
    a.active_boosts = vec![boost(BoostKind::MiningPointsBps, 15_000, 0), boost(BoostKind::MiningPointsBps, 15_000, 0)];
    assert_eq!(apply_mining_point_boost(&a, 1, 0), 2);
    assert_eq!(apply_mining_point_boost(&a, 12, 0), 27);
}

#[test]
fn boosts_of_other_kinds_or_expired_do_not_scale() {
    let mut a = account(key(1));
    a.active_boosts = vec![
        boost(BoostKind::MiningPointsBps, 20_000, 0),
        boost(BoostKind::MiningRewardBps, 20_000, 50),
        boost(BoostKind::StakingMultiplierBps, 20_000, 0),
    ];
    assert_eq!(apply_mining_reward_boost(&a, 1000, 100), 1000);
    assert_eq!(apply_mining_reward_boost(&a, 1000, 50), 2000);
    assert_eq!(apply_mining_point_boost(&a, 7, 100), 14);
}

#[test]
fn staking_multiplier_is_largest_live_value() {
    let mut a = account(key(1));
    assert_eq!(resolve_staking_multiplier(&a, 0), 10_000);
    a.active_boosts = vec![boost(BoostKind::StakingMultiplierBps, 10_500, 0), boost(BoostKind::StakingMultiplierBps, 12_000, 0)];
    assert_eq!(resolve_staking_multiplier(&a, 0), 12_000);
    a.active_boosts.push(boost(BoostKind::StakingMultiplierBps, 15_000, 10));
    assert_eq!(resolve_staking_multiplier(&a, 11), 12_000);
    a.active_boosts = vec![boost(BoostKind::StakingMultiplierBps, 9_000, 0)];
    assert_eq!(resolve_staking_multiplier(&a, 0), 9_000);
    a.active_boosts.push(boost(BoostKind::StakingMultiplierBps, 8_000, 0));
    assert_eq!(resolve_staking_multiplier(&a, 0), 9_000);
    a.active_boosts = vec![boost(BoostKind::StakingMultiplierBps, 9_000, 3)];
    assert_eq!(resolve_staking_multiplier(&a, 4), 10_000);
}

#[test]
fn effective_stake_example() {
    assert_eq!(calculate_effective(1000, 12_000, 10_000), Ok(1200));
    assert_eq!(calculate_effective(1000, 10_500, 12_000), Ok(1260));
    assert_eq!(calculate_effective(u64::MAX, 65_535, 65_535), Ok(u64::MAX as u128 * 65_535 * 65_535 / 100_000_000));
}

#[test]
fn lock_table() {
    assert_eq!(lock_multiplier(7), Ok(10_500));
    assert_eq!(lock_multiplier(14), Ok(11_000));
    assert_eq!(lock_multiplier(30), Ok(12_000));
    assert_eq!(lock_multiplier(8), Err(ArenaError::InvalidLock));
    assert_eq!(lock_multiplier(0), Err(ArenaError::InvalidLock));
}

#[test]
fn settle_rebaselines_debt() {
    let p = pool(1200, 3 * PRECISION / 2);
    let mut pos = position(key(1), 1, 1200, 100, 0);
    assert_eq!(pending_rewards(p.acc_reward_per_share, &pos), Ok(1700));
    assert_eq!(settle_rewards(&p, &mut pos), Ok(1700));
    assert_eq!(pos.reward_debt, 1200 * (3 * PRECISION / 2) / PRECISION);
    assert_eq!(settle_rewards(&p, &mut pos), Ok(0));
    assert_eq!(pending_rewards(p.acc_reward_per_share, &pos), Ok(0));
}

#[test]
fn settle_overflow_changes_nothing() {
    let p = pool(1, u128::MAX);
    let mut pos = position(key(1), 1, 2, 5, 0);
    assert_eq!(settle_rewards(&p, &mut pos), Err(ArenaError::MathOverflow));
    assert_eq!(pos.reward_debt, 5);
}

#[test]
fn pending_caps_at_u64() {
    let pos = position(key(1), 1, u64::MAX as u128 * 4, 0, 0);
    assert_eq!(pending_rewards(PRECISION, &pos), Ok(u64::MAX));
}

#[test]
fn stake_opens_position() {
    let mut p = pool(100, 2 * PRECISION);
    let mut a = account([0u8; 32]);
    a.active_boosts = vec![boost(BoostKind::StakingMultiplierBps, 11_000, 0)];
    let mut pos = position([0u8; 32], 0, 0, 0, 0);
    let ev = stake(&mut p, &mut a, &mut pos, &key(1), 1000, 30, 1_000).unwrap();
    assert_eq!(ev.position_id, 1);
    assert_eq!(ev.effective, 1320);
    assert_eq!(pos.owner, key(1));
    assert_eq!(pos.amount_staked, 1000);
    assert_eq!(pos.boost_multiplier_bps, 11_000);
    assert_eq!(pos.reward_debt, 2640);
    assert_eq!(pos.lock_until_ts, 1_000 + 30 * 86_400);
    assert_eq!(p.total_effective_stake, 1420);
    assert_eq!(a.owner, key(1));
    assert_eq!(a.next_position_id, 2);
    assert_eq!(pending_rewards(p.acc_reward_per_share, &pos), Ok(0));
}

#[test]
fn stake_errors_leave_state() {
    let mut p = pool(0, 0);
    let mut a = account(key(2));
    let mut pos = position([0u8; 32], 0, 0, 0, 0);
    assert_eq!(stake(&mut p, &mut a, &mut pos, &key(1), 10, 30, 0).unwrap_err(), ArenaError::Unauthorized);
    let mut a = account(key(1));
    assert_eq!(stake(&mut p, &mut a, &mut pos, &key(1), 10, 10, 0).unwrap_err(), ArenaError::InvalidLock);
    let mut other = position(key(3), 0, 0, 0, 0);
    assert_eq!(stake(&mut p, &mut a, &mut other, &key(1), 10, 7, 0).unwrap_err(), ArenaError::Unauthorized);
    let mut full = pool(0, u128::MAX);
    assert_eq!(stake(&mut full, &mut a, &mut pos, &key(1), 10, 7, 0).unwrap_err(), ArenaError::MathOverflow);
    assert_eq!(a.next_position_id, 0);
    assert_eq!(pos.amount_staked, 500);
    assert_eq!(full.total_effective_stake, 0);
}

#[test]
fn stake_address_check_both_schemes() {
    let program = key(42);
    let owner = key(1);
    let legacy = stake_address(&program, &owner, 0);
    assert_eq!(assert_valid_user_stake_pda(&program, &owner, Some(0), &legacy), Ok(0));
    assert_eq!(assert_valid_user_stake_pda(&program, &owner, None, &legacy), Ok(0));
    let numbered = stake_address(&program, &owner, 3);
    assert_eq!(assert_valid_user_stake_pda(&program, &owner, Some(3), &numbered), Ok(3));
    assert_eq!(assert_valid_user_stake_pda(&program, &owner, Some(4), &numbered), Err(ArenaError::InvalidStakePda));
    assert_eq!(assert_valid_user_stake_pda(&program, &owner, Some(3), &legacy), Err(ArenaError::InvalidStakePda));
}

#[test]
fn claim_pays_pending() {
    let program = key(42);
    let owner = key(1);
    let addr = stake_address(&program, &owner, 2);
    let p = pool(1000, 5 * PRECISION);
    let mut pos = position(owner, 2, 1000, 1000, 0);
    let ev = claim(&p, &mut pos, &owner, &program, &addr).unwrap();
    assert_eq!(ev.rewards_claimed, 4000);
    assert_eq!(ev.position_id, 2);
    assert_eq!(pos.reward_debt, 5000);
    assert_eq!(claim(&p, &mut pos, &owner, &program, &addr).unwrap().rewards_claimed, 0);
    assert_eq!(claim(&p, &mut pos, &owner, &program, &key(0)).unwrap_err(), ArenaError::InvalidStakePda);
    let intruder = key(7);
    let other_addr = stake_address(&program, &intruder, 2);
    assert_eq!(claim(&p, &mut pos, &intruder, &program, &other_addr).unwrap_err(), ArenaError::Unauthorized);
}

#[test]
fn unstake_respects_lock() {
    let program = key(42);
    let owner = key(1);
    let addr = stake_address(&program, &owner, 1);
    let mut p = pool(3000, 2 * PRECISION);
    let mut pos = position(owner, 1, 1200, 1200, 1_000);
    assert_eq!(unstake(&mut p, &mut pos, &owner, &program, &addr, 999).unwrap_err(), ArenaError::StakeLocked);
    assert_eq!(pos.effective_stake, 1200);
    assert_eq!(p.total_effective_stake, 3000);
    let (ev, rewards) = unstake(&mut p, &mut pos, &owner, &program, &addr, 1_000).unwrap();
    assert_eq!(ev.amount, 500);
    assert_eq!(rewards, 1200);
    assert_eq!((pos.amount_staked, pos.effective_stake, pos.reward_debt), (0, 0, 0));
    assert_eq!(p.total_effective_stake, 1800);
}

#[test]
fn purge_keeps_exactly_unexpired() {
    let mut a = account(key(1));
    a.active_boosts = vec![
        boost(BoostKind::MiningRewardBps, 1, 0),
        boost(BoostKind::MiningRewardBps, 2, 99),
        boost(BoostKind::MiningRewardBps, 3, 100),
        boost(BoostKind::MiningRewardBps, 4, 101),
        boost(BoostKind::MiningRewardBps, 5, 1),
    ];
    a.purge_expired(100);
    let kept: Vec<u16> = a.active_boosts.iter().map(|b| b.value_bps).collect();
    assert_eq!(kept, vec![1, 3, 4]);
}

#[test]
fn ninth_boost_is_refused() {
    let mut a = account(key(1));
    a.boost_points = 1000;
    for _ in 0..8 {
        a.activate_boost(&key(1), &config(BoostKind::MiningRewardBps, 10, 11_000, 0), 5).unwrap();
    }
    let before = a.active_boosts.clone();
    let err = a.activate_boost(&key(1), &config(BoostKind::MiningRewardBps, 10, 11_000, 0), 5).unwrap_err();
    assert_eq!(err, ArenaError::TooManyActiveBoosts);
    assert_eq!(a.active_boosts, before);
    assert_eq!(a.boost_points, 920);
}

#[test]
fn activation_after_expiry_frees_room() {
    let mut a = account(key(1));
    a.boost_points = 1000;
    for _ in 0..8 {
        a.activate_boost(&key(1), &config(BoostKind::MiningPointsBps, 1, 11_000, 10), 0).unwrap();
    }
    let ev = a.activate_boost(&key(1), &config(BoostKind::StakingMultiplierBps, 1, 12_000, 60), 11).unwrap();
    assert_eq!(ev.expires_at, 71);
    assert_eq!(a.active_boosts.len(), 1);
    assert!(a.active_boosts[0].applied_to_staking);
    assert!(!a.active_boosts[0].applied_to_mining);
}

#[test]
fn activation_errors() {
    let mut a = account(key(1));
    a.boost_points = 5;
    assert_eq!(a.activate_boost(&key(2), &config(BoostKind::FreeRigTicket, 1, 0, 0), 0).unwrap_err(), ArenaError::Unauthorized);
    assert_eq!(a.activate_boost(&key(1), &config(BoostKind::FreeRigTicket, 6, 0, 0), 0).unwrap_err(), ArenaError::InsufficientBoostPoints);
    assert_eq!(a.boost_points, 5);
    let ev = a.activate_boost(&key(1), &config(BoostKind::FreeRigTicket, 5, 0, 0), 0).unwrap();
    assert_eq!(ev.expires_at, 0);
    assert_eq!(a.boost_points, 0);
    assert!(a.active_boosts[0].applied_to_mining);
}

#[test]
fn free_ticket_search() {
    let mut t = boost(BoostKind::FreeRigTicket, 0, 0);
    t.rig_id = Some(2);
    let boosts = vec![boost(BoostKind::MiningRewardBps, 1, 0), t, boost(BoostKind::FreeRigTicket, 0, 0)];
    assert_eq!(find_free_rig_ticket(&boosts, 2, 0), Some(1));
    assert_eq!(find_free_rig_ticket(&boosts, 1, 0), Some(2));
    assert_eq!(find_free_rig_ticket(&boosts[..1].to_vec(), 1, 0), None);
}

#[test]
fn mining_run_with_fee() {
    let mut g = global();
    let mut p = pool(1000, 0);
    let mut a = account([0u8; 32]);
    let ev = mine_with_rig(&mut g, &mut p, &mut a, &key(1), 0, 10, 20).unwrap();
    assert_eq!(ev.deposit_xnt, 50_000_000);
    assert!(!ev.used_free_rig);
    assert!(ev.reward_game == 50 || ev.reward_game == 100);
    assert_eq!(ev.reward_game, compute_reward_amount(&RigConfig::get(0).unwrap(), 0, &key(1), 10, 20, 0));
    assert_eq!(p.acc_reward_per_share, 15_000_000u128 * PRECISION / 1000);
    assert_eq!(g.total_minted, ev.reward_game);
    assert_eq!(a.owner, key(1));
    assert_eq!(a.mining_xnt_spent, 50_000_000);
    assert_eq!(a.mining_runs_by_rig, [1, 0, 0, 0]);
    assert_eq!(a.daily_points, 1);
    assert_eq!(a.lifetime_points, 1);
    assert_eq!(a.mining_crit_count, if ev.reward_game == 100 { 1 } else { 0 });
}

#[test]
fn mining_run_with_ticket_and_boosts() {
    let mut g = global();
    let mut p = pool(1000, 7);
    let mut a = account(key(1));
    a.active_boosts = vec![
        boost(BoostKind::FreeRigTicket, 0, 0),
        boost(BoostKind::MiningRewardBps, 20_000, 0),
        boost(BoostKind::MiningPointsBps, 30_000, 0),
    ];
    let ev = mine_with_rig(&mut g, &mut p, &mut a, &key(1), 3, 1, 2).unwrap();
    assert!(ev.used_free_rig);
    assert_eq!(ev.deposit_xnt, 0);
    assert!(ev.reward_game == 8400 || ev.reward_game == 9600);
    assert_eq!(p.acc_reward_per_share, 7);
    assert_eq!(a.active_boosts.len(), 2);
    assert_eq!(a.daily_points, 36);
    assert_eq!(a.mining_crit_count, 1);
    assert_eq!(g.halving_level, g.total_minted / 1000);
}

#[test]
fn mining_errors_leave_state() {
    let mut g = global();
    let mut p = pool(1, u128::MAX);
    let mut a = account(key(1));
    assert_eq!(mine_with_rig(&mut g, &mut p, &mut a, &key(2), 0, 0, 0).unwrap_err(), ArenaError::Unauthorized);
    assert_eq!(mine_with_rig(&mut g, &mut p, &mut a, &key(1), 4, 0, 0).unwrap_err(), ArenaError::InvalidRig);
    a.active_boosts = vec![boost(BoostKind::MiningRewardBps, 1, 5)];
    assert_eq!(mine_with_rig(&mut g, &mut p, &mut a, &key(1), 0, 0, 10).unwrap_err(), ArenaError::MathOverflow);
    assert_eq!(a.active_boosts.len(), 1);
    assert_eq!(g.total_minted, 0);
}

#[test]
fn admin_hooks() {
    let g = global();
    let mut a = account([0u8; 32]);
    let ev = mining_arena::account::apply_ranking_results(&g, &key(9), &mut a, &key(1), 40).unwrap();
    assert_eq!(ev.added_boost_points, 40);
    assert_eq!(a.boost_points, 40);
    assert_eq!(a.owner, key(1));
    a.daily_points = 17;
    assert_eq!(mining_arena::account::reset_daily_points(&g, &key(1), &mut a, &key(1), 3), Err(ArenaError::Unauthorized));
    assert_eq!(mining_arena::account::reset_daily_points(&g, &key(9), &mut a, &key(2), 3), Err(ArenaError::Unauthorized));
    assert_eq!(mining_arena::account::reset_daily_points(&g, &key(9), &mut a, &key(1), 3), Ok(()));
    assert_eq!((a.daily_points, a.last_day_id), (0, 3));
    let mut c = config(BoostKind::MiningRewardBps, 1, 1, 1);
    let args = BoostConfigArgs { id: 4, kind: BoostKind::FreeRigTicket, cost_boost_points: 9, value_bps: 0, duration_seconds: 60, rig_id: Some(1) };
    assert_eq!(upsert_boost_config(&g, &key(1), &mut c, &args), Err(ArenaError::Unauthorized));
    assert_eq!(upsert_boost_config(&g, &key(9), &mut c, &args), Ok(()));
    assert_eq!((c.id, c.kind, c.rig_id), (4, BoostKind::FreeRigTicket, Some(1)));
}

#[test]
fn error_messages() {
    assert_eq!(ArenaError::StakeLocked.message(), "Stake still locked");
    assert_eq!(ArenaError::InvalidStakePda.message(), "Invalid stake PDA");
    assert_eq!(BoostKind::default(), BoostKind::MiningRewardBps);
}

#[test]
fn fee_inflow_feeds_accumulator_only_with_stake() {
    assert_eq!(accumulator_after_inflow(&pool(0, 11), 1_000_000, 3000), Ok(11));
    assert_eq!(accumulator_after_inflow(&pool(300_000, 11), 1_000_000, 3000), Ok(11 + PRECISION));
    assert_eq!(accumulator_after_inflow(&pool(300_000, 11), 3, 3000), Ok(11));
    assert_eq!(accumulator_after_inflow(&pool(1, u128::MAX), 10, 10_000), Err(ArenaError::MathOverflow));
}

#[test]
fn open_position_keeps_its_multiplier() {
    let mut p = pool(0, 0);
    let mut a = account(key(1));
    let mut pos = position([0u8; 32], 0, 0, 0, 0);
    stake(&mut p, &mut a, &mut pos, &key(1), 1000, 7, 0).unwrap();
    assert_eq!(pos.effective_stake, 1050);
    a.active_boosts.push(boost(BoostKind::StakingMultiplierBps, 20_000, 0));
    assert_eq!(resolve_staking_multiplier(&a, 0), 20_000);
    assert_eq!(pos.boost_multiplier_bps, 10_000);
    assert_eq!(pos.effective_stake, 1050);
}
