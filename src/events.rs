use crate::address::Address;
use vstd::prelude::*;

verus! {

/// Record of one mining run.
#[derive(Debug, Clone, Copy, PartialEq, Eq)]
pub struct MiningEvent {
    pub user: Address,
    pub rig_id: u8,
    /// Fee paid in; 0 when a free-rig ticket was used.
    pub deposit_xnt: u64,
    /// Game tokens minted to the user.
    pub reward_game: u64,
    pub used_free_rig: bool,
}

/// Record of a new stake position.
#[derive(Debug, Clone, Copy, PartialEq, Eq)]
pub struct StakeEvent {
    pub owner: Address,
    pub position_id: u32,
    pub amount: u64,
    pub lock_days: u16,
    pub effective: u128,
}

/// Record of a closed stake position.
#[derive(Debug, Clone, Copy, PartialEq, Eq)]
pub struct UnstakeEvent {
    pub owner: Address,
    pub position_id: u32,
    /// Principal returned.
    pub amount: u64,
}

/// Record of a reward claim.
#[derive(Debug, Clone, Copy, PartialEq, Eq)]
pub struct ClaimEvent {
    pub owner: Address,
    pub position_id: u32,
    pub rewards_claimed: u64,
}

/// Record of a boost activation.
#[derive(Debug, Clone, Copy, PartialEq, Eq)]
pub struct BoostActivatedEvent {
    pub user: Address,
    pub boost_id: u8,
    pub expires_at: i64,
}

/// Record of ranking points granted to a user.
#[derive(Debug, Clone, Copy, PartialEq, Eq)]
pub struct RankingAppliedEvent {
    pub user: Address,
    pub added_boost_points: u64,
}

} // verus!
