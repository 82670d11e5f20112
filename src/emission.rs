use crate::address::{same_address, unset_address, zero_address, Address};
use crate::error::ArenaError;
use crate::{DEFAULT_HALVING_INTERVAL, DEFAULT_STAKING_SHARE_BPS};
use vstd::prelude::*;

verus! {

/// Game-wide configuration and the emission counters of the mined token.
#[derive(Debug, Clone, Copy)]
pub struct GlobalConfig {
    pub admin: Address,
    pub game_mint: Address,
    pub xnt_mint: Address,
    pub treasury_xnt_vault: Address,
    /// Minted units per halving step; never 0.
    pub halving_interval: u64,
    /// Completed halvings: `total_minted / halving_interval`.
    pub halving_level: u64,
    pub total_minted: u64,
    /// Share of each mining fee routed to stakers, in basis points.
    pub staking_share_bps: u16,
}

/// Setup parameters; zeros select the defaults.
#[derive(Debug, Clone, Copy)]
pub struct InitializeArgs {
    pub admin: Address,
    pub staking_share_bps: u16,
    pub halving_interval: u64,
}

/// `a + b`, saturated at the largest `u64`.
pub open spec fn sat_add_u64(a: u64, b: u64) -> u64 {
    if a + b > u64::MAX {
        u64::MAX
    } else {
        (a + b) as u64
    }
}

impl GlobalConfig {
    /// The halving level is derived from the minted total, and the fee share
    /// is at most one.
    pub open spec fn wf(&self) -> bool {
        &&& self.halving_interval > 0
        &&& self.halving_level == self.total_minted / self.halving_interval
        &&& self.staking_share_bps <= 10000
    }

    /// Records `amount` newly minted units and re-derives the halving level.
    pub fn apply_mint(&mut self, amount: u64)
        requires
            old(self).halving_interval > 0,
        ensures
            final(self).total_minted == sat_add_u64(old(self).total_minted, amount),
            final(self).halving_level == final(self).total_minted / final(self).halving_interval,
            *final(self) == (GlobalConfig {
                total_minted: final(self).total_minted,
                halving_level: final(self).halving_level,
                ..*old(self)
            }),
    {
        self.total_minted = self.total_minted.saturating_add(amount);
        self.halving_level = self.total_minted / self.halving_interval;
    }
}

/// Builds the configuration, on behalf of `payer`, who must be the admin
/// named in `args`. A zero interval or share selects its default; a share
/// above one is refused.
pub fn initialize_global(payer: &Address, game_mint: &Address, xnt_mint: &Address, args: &InitializeArgs) -> (r: Result<
    GlobalConfig,
    ArenaError,
>)
    ensures
        ({
            let interval: u64 = if args.halving_interval == 0 { DEFAULT_HALVING_INTERVAL } else { args.halving_interval };
            let share: u16 = if args.staking_share_bps == 0 { DEFAULT_STAKING_SHARE_BPS } else { args.staking_share_bps };
            &&& payer@ != args.admin@ ==> r == Err::<GlobalConfig, ArenaError>(ArenaError::Unauthorized)
            &&& payer@ == args.admin@ && share > 10000 ==> r == Err::<GlobalConfig, ArenaError>(ArenaError::InvalidBps)
            &&& payer@ == args.admin@ && share <= 10000 ==> (r matches Ok(g) && {
                &&& g.admin == args.admin
                &&& g.game_mint == *game_mint
                &&& g.xnt_mint == *xnt_mint
                &&& g.treasury_xnt_vault@ == zero_address()
                &&& g.halving_interval == interval
                &&& g.halving_level == 0
                &&& g.total_minted == 0
                &&& g.staking_share_bps == share
                &&& g.wf()
            })
        }),
{
    if !same_address(payer, &args.admin) {
        return Err(ArenaError::Unauthorized);
    }
    let halving_interval = if args.halving_interval == 0 {
        DEFAULT_HALVING_INTERVAL
    } else {
        args.halving_interval
    };
    let staking_share_bps = if args.staking_share_bps == 0 {
        DEFAULT_STAKING_SHARE_BPS
    } else {
        args.staking_share_bps
    };
    if staking_share_bps > 10_000 {
        return Err(ArenaError::InvalidBps);
    }
    Ok(GlobalConfig {
        admin: args.admin,
        game_mint: *game_mint,
        xnt_mint: *xnt_mint,
        treasury_xnt_vault: unset_address(),
        halving_interval,
        halving_level: 0,
        total_minted: 0,
        staking_share_bps,
    })
}

/// Records the treasury vault, on behalf of the admin.
pub fn initialize_treasury_vault(global: &mut GlobalConfig, admin: &Address, vault: &Address) -> (r: Result<(), ArenaError>)
    ensures
        admin@ != old(global).admin@ ==> r == Err::<(), ArenaError>(ArenaError::Unauthorized) && *final(global)
            == *old(global),
        admin@ == old(global).admin@ ==> r == Ok::<(), ArenaError>(()) && *final(global) == (GlobalConfig {
            treasury_xnt_vault: *vault,
            ..*old(global)
        }),
{
    if !same_address(admin, &global.admin) {
        return Err(ArenaError::Unauthorized);
    }
    global.treasury_xnt_vault = *vault;
    Ok(())
}

/// Re-derives the halving level from the minted total, on behalf of the
/// admin.
pub fn update_halving(global: &mut GlobalConfig, admin: &Address) -> (r: Result<(), ArenaError>)
    requires
        old(global).halving_interval > 0,
    ensures
        admin@ != old(global).admin@ ==> r == Err::<(), ArenaError>(ArenaError::Unauthorized) && *final(global)
            == *old(global),
        admin@ == old(global).admin@ ==> r == Ok::<(), ArenaError>(()) && *final(global) == (GlobalConfig {
            halving_level: old(global).total_minted / old(global).halving_interval,
            ..*old(global)
        }),
{
    if !same_address(admin, &global.admin) {
        return Err(ArenaError::Unauthorized);
    }
    global.halving_level = global.total_minted / global.halving_interval;
    Ok(())
}

} // verus!
