use vstd::arithmetic::power2::{lemma2_to64, lemma_pow2_strictly_increases, pow2};
use vstd::bits::lemma_u64_shr_is_div;
use vstd::prelude::*;

verus! {

/// One tier of the fixed mining catalog.
#[derive(Debug, Clone, Copy, PartialEq, Eq, Structural)]
pub struct RigConfig {
    pub rig_id: u8,
    /// Entry fee, in settlement-token units.
    pub base_cost_xnt: u64,
    /// Low payout before halving, in game-token units.
    pub base_reward_low: u64,
    /// High payout before halving, in game-token units.
    pub base_reward_high: u64,
    /// Chance of the high payout, in basis points.
    pub prob_high_bps: u16,
}

/// Number of tiers in the catalog.
pub const RIG_COUNT: u8 = 4;

/// Points awarded per run of each tier, before boosts.
pub open spec fn mining_points_spec(rig_id: u8) -> u32 {
    if rig_id == 0 {
        1
    } else if rig_id == 1 {
        3
    } else if rig_id == 2 {
        7
    } else {
        12
    }
}

/// Points awarded per run of tier `rig_id`, before boosts.
pub fn mining_points(rig_id: u8) -> (r: u32)
    requires
        rig_id < RIG_COUNT,
    ensures
        r == mining_points_spec(rig_id),
{
    if rig_id == 0 {
        1
    } else if rig_id == 1 {
        3
    } else if rig_id == 2 {
        7
    } else {
        12
    }
}

/// The catalog entry of tier `rig_id`, for ids below `RIG_COUNT`.
pub open spec fn rig_spec(rig_id: u8) -> RigConfig {
    if rig_id == 0 {
        RigConfig { rig_id, base_cost_xnt: 50_000_000, base_reward_low: 50, base_reward_high: 100, prob_high_bps: 5000 }
    } else if rig_id == 1 {
        RigConfig { rig_id, base_cost_xnt: 250_000_000, base_reward_low: 300, base_reward_high: 400, prob_high_bps: 5000 }
    } else if rig_id == 2 {
        RigConfig { rig_id, base_cost_xnt: 1_000_000_000, base_reward_low: 1400, base_reward_high: 1600, prob_high_bps: 5000 }
    } else {
        RigConfig { rig_id, base_cost_xnt: 3_000_000_000, base_reward_low: 4200, base_reward_high: 4800, prob_high_bps: 5000 }
    }
}

/// `value` halved `level` times: a right shift, and 0 once the shift reaches
/// the width of the value.
pub open spec fn halved(value: u64, level: u64) -> u64 {
    if level < 64 {
        value >> level
    } else {
        0
    }
}

impl RigConfig {
    /// Looks up a tier of the catalog; `None` for ids outside it.
    pub fn get(rig_id: u8) -> (r: Option<RigConfig>)
        ensures
            rig_id < RIG_COUNT ==> r == Some(rig_spec(rig_id)),
            rig_id >= RIG_COUNT ==> r is None,
    {
        let factor_xnt: u64 = 1_000_000_000;
        let factor_game: u64 = 100;
        if rig_id == 0 {
            Some(RigConfig {
                rig_id,
                base_cost_xnt: factor_xnt / 20,
                base_reward_low: (factor_game * 50) / 100,
                base_reward_high: (factor_game * 100) / 100,
                prob_high_bps: 5_000,
            })
        } else if rig_id == 1 {
            Some(RigConfig {
                rig_id,
                base_cost_xnt: factor_xnt / 4,
                base_reward_low: factor_game * 3,
                base_reward_high: factor_game * 4,
                prob_high_bps: 5_000,
            })
        } else if rig_id == 2 {
            Some(RigConfig {
                rig_id,
                base_cost_xnt: factor_xnt,
                base_reward_low: factor_game * 14,
                base_reward_high: factor_game * 16,
                prob_high_bps: 5_000,
            })
        } else if rig_id == 3 {
            Some(RigConfig {
                rig_id,
                base_cost_xnt: factor_xnt * 3,
                base_reward_low: factor_game * 42,
                base_reward_high: factor_game * 48,
                prob_high_bps: 5_000,
            })
        } else {
            None
        }
    }

    /// Low payout at halving level `halving_level`.
    pub fn reward_low(&self, halving_level: u64) -> (r: u64)
        ensures
            r == halved(self.base_reward_low, halving_level),
    {
        if halving_level < 64 {
            self.base_reward_low >> halving_level
        } else {
            0
        }
    }

    /// High payout at halving level `halving_level`.
    pub fn reward_high(&self, halving_level: u64) -> (r: u64)
        ensures
            r == halved(self.base_reward_high, halving_level),
    {
        if halving_level < 64 {
            self.base_reward_high >> halving_level
        } else {
            0
        }
    }
}

/// A halved payout is the base divided by two to the level, so it never
/// grows with the level and is zero from level 64 on.
pub proof fn lemma_halved_is_division(value: u64, level: u64)
    ensures
        halved(value, level) as nat == value as nat / pow2(level as nat),
        level >= 64 ==> halved(value, level) == 0,
{
    if level < 64 {
        lemma_u64_shr_is_div(value, level);
    } else {
        lemma2_to64();
        if level > 64 {
            lemma_pow2_strictly_increases(64, level as nat);
        }
        assert(value as nat / pow2(level as nat) == 0) by (nonlinear_arith)
            requires
                (value as nat) < pow2(level as nat),
        {}
    }
}

} // verus!
