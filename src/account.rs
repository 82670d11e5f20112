use crate::address::{bind_owner, bound_owner, same_address, Address};
use crate::boost::{
    lemma_purge_keeps_exactly_unexpired, snapshot, unexpired, unexpired_boosts, BoostConfig, BoostKind,
    UserBoost,
};
use crate::emission::{sat_add_u64, GlobalConfig};
use crate::error::ArenaError;
use crate::events::{BoostActivatedEvent, RankingAppliedEvent};
use crate::MAX_ACTIVE_BOOSTS;
use vstd::prelude::*;

verus! {

/// Milestones a user has reached.
#[derive(Debug, Clone, Copy, PartialEq, Eq, Structural)]
pub struct Achievements {
    pub first_mine: bool,
    pub first_stake: bool,
    pub seven_day_streak: bool,
    pub heavy_operator: bool,
}

/// Per-user state: points, statistics and the active boosts.
#[derive(Debug, Clone)]
pub struct UserAccount {
    pub owner: Address,
    pub daily_points: u32,
    pub lifetime_points: u64,
    /// Points spendable on boosts.
    pub boost_points: u64,
    pub mining_xnt_spent: u64,
    pub mining_tokens_mined: u64,
    pub mining_runs_by_rig: [u64; 4],
    pub mining_crit_count: u64,
    pub staking_xnt_earned: u64,
    pub last_day_id: i64,
    pub achievements: Achievements,
    pub next_position_id: u32,
    pub active_boosts: Vec<UserBoost>,
}

impl UserAccount {
    /// Bounded state: at most `MAX_ACTIVE_BOOSTS` active boosts.
    pub open spec fn wf(&self) -> bool {
        self.active_boosts@.len() <= MAX_ACTIVE_BOOSTS
    }

    /// Drops every boost that has expired at `now`, keeping the others in
    /// order.
    pub fn purge_expired(&mut self, now: i64)
        ensures
            final(self).active_boosts@ == unexpired(old(self).active_boosts@, now),
            *final(self) == (UserAccount { active_boosts: final(self).active_boosts, ..*old(self) }),
            old(self).wf() ==> final(self).wf(),
    {
        self.active_boosts = unexpired_boosts(&self.active_boosts, now);
        proof {
            lemma_purge_keeps_exactly_unexpired(old(self).active_boosts@, now);
        }
    }

    /// Buys boost `config` with points at `now`, on behalf of `signer`.
    /// Expired boosts are dropped first; the list must then have room and
    /// the points must cover the cost. Nothing changes on failure.
    pub fn activate_boost(&mut self, signer: &Address, config: &BoostConfig, now: i64) -> (r: Result<
        BoostActivatedEvent,
        ArenaError,
    >)
        ensures
            ({
                let live = unexpired(old(self).active_boosts@, now);
                let refused = bound_owner(old(self).owner@, signer@) is None || live.len()
                    >= MAX_ACTIVE_BOOSTS || old(self).boost_points < config.cost_boost_points;
                &&& bound_owner(old(self).owner@, signer@) is None ==> r == Err::<
                    BoostActivatedEvent,
                    ArenaError,
                >(ArenaError::Unauthorized)
                &&& bound_owner(old(self).owner@, signer@) is Some && live.len() >= MAX_ACTIVE_BOOSTS
                    ==> r == Err::<BoostActivatedEvent, ArenaError>(ArenaError::TooManyActiveBoosts)
                &&& bound_owner(old(self).owner@, signer@) is Some && live.len() < MAX_ACTIVE_BOOSTS
                    && old(self).boost_points < config.cost_boost_points ==> r == Err::<
                    BoostActivatedEvent,
                    ArenaError,
                >(ArenaError::InsufficientBoostPoints)
                &&& refused ==> *final(self) == *old(self)
                &&& old(self).wf() ==> final(self).wf()
                &&& !refused ==> {
                    &&& r == Ok::<BoostActivatedEvent, ArenaError>(
                        BoostActivatedEvent {
                            user: *signer,
                            boost_id: config.id,
                            expires_at: snapshot(*config, now).expires_at_ts,
                        },
                    )
                    &&& Some(final(self).owner@) == bound_owner(old(self).owner@, signer@)
                    &&& final(self).boost_points == old(self).boost_points - config.cost_boost_points
                    &&& final(self).active_boosts@ == live.push(snapshot(*config, now))
                    &&& *final(self) == (UserAccount {
                        owner: final(self).owner,
                        boost_points: final(self).boost_points,
                        active_boosts: final(self).active_boosts,
                        ..*old(self)
                    })
                }
            }),
    {
        let live = unexpired_boosts(&self.active_boosts, now);
        let owner = match bind_owner(&self.owner, signer) {
            Ok(o) => o,
            Err(e) => return Err(e),
        };
        if live.len() >= MAX_ACTIVE_BOOSTS {
            return Err(ArenaError::TooManyActiveBoosts);
        }
        if self.boost_points < config.cost_boost_points {
            return Err(ArenaError::InsufficientBoostPoints);
        }
        let expires_at: i64 = if config.duration_seconds > 0 {
            match now.checked_add(config.duration_seconds) {
                Some(t) => t,
                None => i64::MAX,
            }
        } else {
            0
        };
        let boost = UserBoost {
            boost_id: config.id,
            kind: config.kind,
            value_bps: config.value_bps,
            expires_at_ts: expires_at,
            rig_id: config.rig_id,
            applied_to_mining: config.kind == BoostKind::MiningRewardBps || config.kind
                == BoostKind::MiningPointsBps || config.kind == BoostKind::FreeRigTicket,
            applied_to_staking: config.kind == BoostKind::StakingMultiplierBps,
        };
        self.owner = owner;
        self.boost_points = self.boost_points - config.cost_boost_points;
        self.active_boosts = live;
        self.active_boosts.push(boost);
        Ok(BoostActivatedEvent { user: *signer, boost_id: config.id, expires_at })
    }
}

/// Grants `boost_points_to_add` boost points to the account of `user`, on
/// behalf of the admin. Nothing changes on failure.
pub fn apply_ranking_results(
    global: &GlobalConfig,
    admin: &Address,
    user_account: &mut UserAccount,
    user: &Address,
    boost_points_to_add: u64,
) -> (r: Result<RankingAppliedEvent, ArenaError>)
    ensures
        ({
            let owner = bound_owner(old(user_account).owner@, user@);
            &&& admin@ != global.admin@ ==> r == Err::<RankingAppliedEvent, ArenaError>(ArenaError::Unauthorized)
            &&& admin@ == global.admin@ && owner is None ==> r == Err::<RankingAppliedEvent, ArenaError>(
                ArenaError::Unauthorized,
            )
            &&& r is Err ==> *final(user_account) == *old(user_account)
            &&& admin@ == global.admin@ && owner is Some ==> {
                &&& r == Ok::<RankingAppliedEvent, ArenaError>(
                    RankingAppliedEvent { user: *user, added_boost_points: boost_points_to_add },
                )
                &&& Some(final(user_account).owner@) == owner
                &&& *final(user_account) == (UserAccount {
                    owner: final(user_account).owner,
                    boost_points: sat_add_u64(old(user_account).boost_points, boost_points_to_add),
                    ..*old(user_account)
                })
            }
        }),
{
    if !same_address(admin, &global.admin) {
        return Err(ArenaError::Unauthorized);
    }
    let owner = bind_owner(&user_account.owner, user)?;
    user_account.owner = owner;
    user_account.boost_points = user_account.boost_points.saturating_add(boost_points_to_add);
    Ok(RankingAppliedEvent { user: *user, added_boost_points: boost_points_to_add })
}

/// Starts day `day_id` for the account of `user`: its daily points go back
/// to 0. On behalf of the admin; nothing changes on failure.
pub fn reset_daily_points(
    global: &GlobalConfig,
    admin: &Address,
    user_account: &mut UserAccount,
    user: &Address,
    day_id: i64,
) -> (r: Result<(), ArenaError>)
    ensures
        ({
            let owner = bound_owner(old(user_account).owner@, user@);
            &&& admin@ != global.admin@ ==> r == Err::<(), ArenaError>(ArenaError::Unauthorized)
            &&& admin@ == global.admin@ && owner is None ==> r == Err::<(), ArenaError>(ArenaError::Unauthorized)
            &&& r is Err ==> *final(user_account) == *old(user_account)
            &&& admin@ == global.admin@ && owner is Some ==> {
                &&& r == Ok::<(), ArenaError>(())
                &&& Some(final(user_account).owner@) == owner
                &&& *final(user_account) == (UserAccount {
                    owner: final(user_account).owner,
                    daily_points: 0,
                    last_day_id: day_id,
                    ..*old(user_account)
                })
            }
        }),
{
    if !same_address(admin, &global.admin) {
        return Err(ArenaError::Unauthorized);
    }
    let owner = bind_owner(&user_account.owner, user)?;
    user_account.owner = owner;
    user_account.daily_points = 0;
    user_account.last_day_id = day_id;
    Ok(())
}

} // verus!
