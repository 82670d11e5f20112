//! Economic engine of a mining and staking game: halving emission, reward
//! rolls, boost composition and a reward-per-share staking pool.
use vstd::prelude::*;

pub mod account;
pub mod address;
pub mod boost;
pub mod emission;
pub mod digits;
pub mod error;
pub mod events;
pub mod mining;
pub mod rig;
pub mod roll;
pub mod staking;

verus! {

/// Fixed-point scale of the pool's reward-per-share accumulator.
pub const PRECISION: u128 = 1_000_000_000_000;

/// Decimals of the mined game token.
pub const GAME_DECIMALS: u8 = 2;

/// Decimals of the settlement token.
pub const XNT_DECIMALS: u8 = 9;

/// Minted units per halving step when setup gives none.
pub const DEFAULT_HALVING_INTERVAL: u64 = 10_000_000_000;

/// Share of each mining fee routed to stakers when setup gives none.
pub const DEFAULT_STAKING_SHARE_BPS: u16 = 3000;

/// Capacity of a user's active boost list.
pub const MAX_ACTIVE_BOOSTS: usize = 8;

} // verus!
