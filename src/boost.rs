use crate::account::UserAccount;
use crate::address::{same_address, Address};
use crate::digits::{cap_u128, product, scale_exact};
use crate::emission::GlobalConfig;
use crate::error::ArenaError;
use vstd::arithmetic::power::pow;
use vstd::prelude::*;

verus! {

/// What a boost modifies.
#[derive(Debug, Clone, Copy, PartialEq, Eq, Structural)]
pub enum BoostKind {
    MiningRewardBps,
    MiningPointsBps,
    FreeRigTicket,
    StakingMultiplierBps,
}

impl Default for BoostKind {
    fn default() -> (r: BoostKind)
        ensures
            r == BoostKind::MiningRewardBps,
    {
        BoostKind::MiningRewardBps
    }
}

/// A boost definition of the catalog, as administered.
#[derive(Debug, Clone, Copy, PartialEq, Eq, Structural)]
pub struct BoostConfig {
    pub id: u8,
    pub kind: BoostKind,
    pub cost_boost_points: u64,
    pub value_bps: u16,
    /// Lifetime after activation; 0 never expires.
    pub duration_seconds: i64,
    /// The only rig a free-rig ticket is good for, if any.
    pub rig_id: Option<u8>,
}

/// The fields an admin sets on a boost definition.
#[derive(Debug, Clone, Copy, PartialEq, Eq, Structural)]
pub struct BoostConfigArgs {
    pub id: u8,
    pub kind: BoostKind,
    pub cost_boost_points: u64,
    pub value_bps: u16,
    pub duration_seconds: i64,
    pub rig_id: Option<u8>,
}

/// A boost held by a user: a snapshot of its definition at activation.
#[derive(Debug, Clone, Copy, PartialEq, Eq, Structural)]
pub struct UserBoost {
    pub boost_id: u8,
    pub kind: BoostKind,
    pub value_bps: u16,
    /// Absolute expiry; 0 never expires.
    pub expires_at_ts: i64,
    pub rig_id: Option<u8>,
    pub applied_to_mining: bool,
    pub applied_to_staking: bool,
}

/// Whether `b` has expired at time `now`.
pub open spec fn expired(b: UserBoost, now: i64) -> bool {
    b.expires_at_ts > 0 && b.expires_at_ts < now
}

/// Whether `b` may be used on rig `rig_id`.
pub open spec fn fits_rig(b: UserBoost, rig_id: u8) -> bool {
    match b.rig_id {
        Some(id) => id == rig_id,
        None => true,
    }
}

/// Whether `b` is a live mining boost of kind `kind` at `now`.
pub open spec fn live_mining(b: UserBoost, kind: BoostKind, now: i64) -> bool {
    b.applied_to_mining && !expired(b, now) && b.kind == kind
}

/// Whether `b` is a live staking multiplier at `now`.
pub open spec fn live_staking(b: UserBoost, now: i64) -> bool {
    b.applied_to_staking && !expired(b, now) && b.kind == BoostKind::StakingMultiplierBps
}

/// Whether `b` is a live free-rig ticket good for `rig_id` at `now`.
pub open spec fn usable_ticket(b: UserBoost, rig_id: u8, now: i64) -> bool {
    b.kind == BoostKind::FreeRigTicket && !expired(b, now) && fits_rig(b, rig_id)
}

/// Index of the first live free-rig ticket for `rig_id` at or after `i`.
pub open spec fn first_ticket_from(boosts: Seq<UserBoost>, rig_id: u8, now: i64, i: int) -> Option<int>
    decreases boosts.len() - i,
{
    if i < 0 || i >= boosts.len() {
        None
    } else if usable_ticket(boosts[i], rig_id, now) {
        Some(i)
    } else {
        first_ticket_from(boosts, rig_id, now, i + 1)
    }
}

/// The boosts left after a mining run on `rig_id` uses the first live
/// free-rig ticket for it, if there is one.
pub open spec fn after_ticket(boosts: Seq<UserBoost>, rig_id: u8, now: i64) -> Seq<UserBoost> {
    match first_ticket_from(boosts, rig_id, now, 0) {
        Some(i) => boosts.remove(i),
        None => boosts,
    }
}

/// Values of the live mining boosts of kind `kind` in `boosts`, in order.
pub open spec fn live_values(boosts: Seq<UserBoost>, kind: BoostKind, now: i64) -> Seq<u16>
    decreases boosts.len(),
{
    if boosts.len() == 0 {
        Seq::empty()
    } else {
        let prev = live_values(boosts.drop_last(), kind, now);
        if live_mining(boosts.last(), kind, now) {
            prev.push(boosts.last().value_bps)
        } else {
            prev
        }
    }
}

/// `base` scaled by every live mining boost of kind `kind` in `boosts`:
/// `base` times the product of their basis points, over 10000 once per
/// boost, rounded down once and capped at the largest `u128`.
pub open spec fn mining_multiplied(boosts: Seq<UserBoost>, kind: BoostKind, now: i64, base: nat) -> nat {
    let vs = live_values(boosts, kind, now);
    cap_u128(((base * product(vs)) as int / pow(10000, vs.len())) as nat)
}

/// The largest value of a live staking multiplier in `boosts`, if any is
/// live.
pub open spec fn best_staking(boosts: Seq<UserBoost>, now: i64) -> Option<u16>
    decreases boosts.len(),
{
    if boosts.len() == 0 {
        None
    } else {
        let prev = best_staking(boosts.drop_last(), now);
        let b = boosts.last();
        if live_staking(b, now) {
            match prev {
                Some(m) => if b.value_bps > m { Some(b.value_bps) } else { Some(m) },
                None => Some(b.value_bps),
            }
        } else {
            prev
        }
    }
}

/// The staking multiplier of `boosts` at `now`: the largest live staking
/// boost, and 10000 when none is live.
pub open spec fn staking_multiplier(boosts: Seq<UserBoost>, now: i64) -> u16 {
    match best_staking(boosts, now) {
        Some(m) => m,
        None => 10000,
    }
}


/// The boosts of `boosts` that have not expired at `now`, in order.
pub open spec fn unexpired(boosts: Seq<UserBoost>, now: i64) -> Seq<UserBoost> {
    boosts.filter(|b: UserBoost| !expired(b, now))
}

/// The boost held after activating `config` at `now`.
pub open spec fn snapshot(config: BoostConfig, now: i64) -> UserBoost {
    UserBoost {
        boost_id: config.id,
        kind: config.kind,
        value_bps: config.value_bps,
        expires_at_ts: if config.duration_seconds > 0 {
            if now + config.duration_seconds > i64::MAX {
                i64::MAX
            } else {
                (now + config.duration_seconds) as i64
            }
        } else {
            0
        },
        rig_id: config.rig_id,
        applied_to_mining: config.kind == BoostKind::MiningRewardBps || config.kind
            == BoostKind::MiningPointsBps || config.kind == BoostKind::FreeRigTicket,
        applied_to_staking: config.kind == BoostKind::StakingMultiplierBps,
    }
}

impl Default for UserBoost {
    fn default() -> (r: UserBoost)
        ensures
            r == (UserBoost {
                boost_id: 0,
                kind: BoostKind::MiningRewardBps,
                value_bps: 0,
                expires_at_ts: 0,
                rig_id: None,
                applied_to_mining: false,
                applied_to_staking: false,
            }),
    {
        UserBoost {
            boost_id: 0,
            kind: BoostKind::MiningRewardBps,
            value_bps: 0,
            expires_at_ts: 0,
            rig_id: None,
            applied_to_mining: false,
            applied_to_staking: false,
        }
    }
}

impl UserBoost {
    /// Whether the boost has expired at `now`: it has an expiry and `now` is
    /// past it.
    pub fn is_expired(&self, now: i64) -> (r: bool)
        ensures
            r == expired(*self, now),
    {
        self.expires_at_ts > 0 && self.expires_at_ts < now
    }

    /// Whether the boost may be used on rig `rig_id`.
    pub fn applies_to_rig(&self, rig_id: u8) -> (r: bool)
        ensures
            r == fits_rig(*self, rig_id),
    {
        match self.rig_id {
            Some(id) => id == rig_id,
            None => true,
        }
    }
}

/// The boosts of `boosts` that have not expired at `now`, in order.
pub fn unexpired_boosts(boosts: &Vec<UserBoost>, now: i64) -> (r: Vec<UserBoost>)
    ensures
        r@ == unexpired(boosts@, now),
{
    let mut kept: Vec<UserBoost> = Vec::new();
    let mut i: usize = 0;
    while i < boosts.len()
        invariant
            i <= boosts.len(),
            kept@ == unexpired(boosts@.subrange(0, i as int), now),
        decreases boosts.len() - i,
    {
        let b = boosts[i];
        proof {
            boosts@.subrange(0, i as int).lemma_filter_push(b, |x: UserBoost| !expired(x, now));
            assert(boosts@.subrange(0, i + 1) =~= boosts@.subrange(0, i as int).push(b));
        }
        if !b.is_expired(now) {
            kept.push(b);
        }
        i = i + 1;
    }
    assert(boosts@.subrange(0, boosts.len() as int) =~= boosts@);
    kept
}

/// Index of the first live free-rig ticket good for `rig_id`, if any.
pub fn find_free_rig_ticket(boosts: &Vec<UserBoost>, rig_id: u8, now: i64) -> (r: Option<usize>)
    ensures
        match r {
            Some(i) => first_ticket_from(boosts@, rig_id, now, 0) == Some(i as int),
            None => first_ticket_from(boosts@, rig_id, now, 0) is None,
        },
        match r {
            Some(i) => i < boosts.len() && usable_ticket(boosts@[i as int], rig_id, now)
                && forall|j: int| 0 <= j < i ==> !usable_ticket(#[trigger] boosts@[j], rig_id, now),
            None => forall|j: int| 0 <= j < boosts.len() ==> !usable_ticket(#[trigger] boosts@[j], rig_id, now),
        },
{
    let mut i: usize = 0;
    while i < boosts.len()
        invariant
            i <= boosts.len(),
            forall|j: int| 0 <= j < i ==> !usable_ticket(#[trigger] boosts@[j], rig_id, now),
            first_ticket_from(boosts@, rig_id, now, 0) == first_ticket_from(boosts@, rig_id, now, i as int),
        decreases boosts.len() - i,
    {
        let b = &boosts[i];
        if b.kind == BoostKind::FreeRigTicket && !b.is_expired(now) && b.applies_to_rig(rig_id) {
            return Some(i);
        }
        i = i + 1;
    }
    None
}

/// `value * bps / 10000`, the product saturated at the largest `u128`.
/// `base` scaled by each live boost of kind `kind` in `boosts`.
fn multiply_by_boosts(boosts: &Vec<UserBoost>, kind: BoostKind, base: u128, now: i64) -> (r: u128)
    ensures
        r == mining_multiplied(boosts@, kind, now, base as nat),
{
    let mut vs: Vec<u16> = Vec::new();
    let mut i: usize = 0;
    assert(boosts@.subrange(0, 0) =~= Seq::<UserBoost>::empty());
    while i < boosts.len()
        invariant
            i <= boosts.len(),
            vs@ == live_values(boosts@.subrange(0, i as int), kind, now),
        decreases boosts.len() - i,
    {
        let b = &boosts[i];
        assert(boosts@.subrange(0, i + 1).drop_last() =~= boosts@.subrange(0, i as int));
        assert(boosts@.subrange(0, i + 1).last() == *b);
        if b.applied_to_mining && !b.is_expired(now) && b.kind == kind {
            vs.push(b.value_bps);
        }
        i = i + 1;
    }
    assert(boosts@.subrange(0, boosts.len() as int) =~= boosts@);
    scale_exact(base, &vs)
}

/// The mined amount `base` after the user's live mining-reward boosts.
pub fn apply_mining_reward_boost(user: &UserAccount, base: u64, now: i64) -> (r: u128)
    ensures
        r == mining_multiplied(user.active_boosts@, BoostKind::MiningRewardBps, now, base as nat),
{
    multiply_by_boosts(&user.active_boosts, BoostKind::MiningRewardBps, base as u128, now)
}

/// The points `base` after the user's live mining-points boosts.
pub fn apply_mining_point_boost(user: &UserAccount, base: u128, now: i64) -> (r: u128)
    ensures
        r == mining_multiplied(user.active_boosts@, BoostKind::MiningPointsBps, now, base as nat),
{
    multiply_by_boosts(&user.active_boosts, BoostKind::MiningPointsBps, base, now)
}

/// The staking multiplier of the user at `now`: the largest live staking
/// boost, or 10000 when none is live.
pub fn resolve_staking_multiplier(user: &UserAccount, now: i64) -> (r: u16)
    ensures
        r == staking_multiplier(user.active_boosts@, now),
{
    let boosts = &user.active_boosts;
    let mut best: Option<u16> = None;
    let mut i: usize = 0;
    while i < boosts.len()
        invariant
            i <= boosts.len(),
            best == best_staking(boosts@.subrange(0, i as int), now),
        decreases boosts.len() - i,
    {
        let b = &boosts[i];
        assert(boosts@.subrange(0, i + 1).drop_last() =~= boosts@.subrange(0, i as int));
        assert(boosts@.subrange(0, i + 1).last() == *b);
        if b.applied_to_staking && !b.is_expired(now) && b.kind == BoostKind::StakingMultiplierBps {
            best = match best {
                Some(m) => if b.value_bps > m { Some(b.value_bps) } else { Some(m) },
                None => Some(b.value_bps),
            };
        }
        i = i + 1;
    }
    assert(boosts@.subrange(0, boosts.len() as int) =~= boosts@);
    match best {
        Some(m) => m,
        None => 10_000,
    }
}


/// Purging at `now` keeps a boost exactly when it never expires (expiry 0 or
/// below) or its expiry is not before `now`.
pub proof fn lemma_purge_keeps_exactly_unexpired(boosts: Seq<UserBoost>, now: i64)
    ensures
        forall|b: UserBoost| #[trigger] unexpired(boosts, now).contains(b) <==> (boosts.contains(b)
            && (b.expires_at_ts <= 0 || b.expires_at_ts >= now)),
        unexpired(boosts, now).len() <= boosts.len(),
{
    let pred = |x: UserBoost| !expired(x, now);
    boosts.lemma_filter_len(pred);
    assert forall|b: UserBoost| #[trigger] unexpired(boosts, now).contains(b) <==> (boosts.contains(b)
        && (b.expires_at_ts <= 0 || b.expires_at_ts >= now)) by {
        if unexpired(boosts, now).contains(b) {
            boosts.lemma_filter_contains_rev(pred, b);
            let i = choose|i: int| 0 <= i < boosts.filter(pred).len() && boosts.filter(pred)[i] == b;
            boosts.lemma_filter_pred(pred, i);
        }
        if boosts.contains(b) && (b.expires_at_ts <= 0 || b.expires_at_ts >= now) {
            let i = choose|i: int| 0 <= i < boosts.len() && boosts[i] == b;
            boosts.lemma_filter_contains(pred, i);
        }
    }
}

/// Two live mining-reward boosts of values `v1` and `v2` scale a base `b` to
/// `b * v1 * v2 / 10000^2`, in either order.
pub proof fn lemma_reward_boosts_commute(b1: UserBoost, b2: UserBoost, now: i64, base: u64)
    requires
        live_mining(b1, BoostKind::MiningRewardBps, now),
        live_mining(b2, BoostKind::MiningRewardBps, now),
    ensures
        mining_multiplied(seq![b1, b2], BoostKind::MiningRewardBps, now, base as nat) == (base as nat)
            * (b1.value_bps as nat) * (b2.value_bps as nat) / 100_000_000,
        mining_multiplied(seq![b2, b1], BoostKind::MiningRewardBps, now, base as nat) == (base as nat)
            * (b1.value_bps as nat) * (b2.value_bps as nat) / 100_000_000,
{
    lemma_two_boosts(b1, b2, now, base);
    lemma_two_boosts(b2, b1, now, base);
    assert((base as nat) * (b2.value_bps as nat) * (b1.value_bps as nat) == (base as nat) * (
    b1.value_bps as nat) * (b2.value_bps as nat)) by (nonlinear_arith);
}

proof fn lemma_two_boosts(b1: UserBoost, b2: UserBoost, now: i64, base: u64)
    requires
        live_mining(b1, BoostKind::MiningRewardBps, now),
        live_mining(b2, BoostKind::MiningRewardBps, now),
    ensures
        mining_multiplied(seq![b1, b2], BoostKind::MiningRewardBps, now, base as nat) == (base as nat)
            * (b1.value_bps as nat) * (b2.value_bps as nat) / 100_000_000,
{
    let s = seq![b1, b2];
    let kind = BoostKind::MiningRewardBps;
    assert(s.drop_last() =~= seq![b1]);
    assert(seq![b1].drop_last() =~= Seq::<UserBoost>::empty());
    assert(seq![b1].last() == b1);
    assert(s.last() == b2);
    assert(live_values(Seq::<UserBoost>::empty(), kind, now) == Seq::<u16>::empty());
    assert(Seq::<u16>::empty().push(b1.value_bps) =~= seq![b1.value_bps]);
    assert(live_values(seq![b1], kind, now) =~= seq![b1.value_bps]);
    assert(seq![b1.value_bps].push(b2.value_bps) =~= seq![b1.value_bps, b2.value_bps]);
    assert(live_values(s, kind, now) =~= seq![b1.value_bps, b2.value_bps]);
    lemma_two_values(b1.value_bps, b2.value_bps, base as nat);
}

/// A base scaled by exactly two values is the base times both over 10000^2.
proof fn lemma_two_values(v1: u16, v2: u16, base: nat)
    requires
        base <= u64::MAX,
    ensures
        cap_u128(((base * product(seq![v1, v2])) as int / pow(10000, 2)) as nat) == base * (v1 as nat) * (
        v2 as nat) / 100_000_000,
{
    let vs = seq![v1, v2];
    assert(vs.drop_last() =~= seq![v1]);
    assert(seq![v1].drop_last() =~= Seq::<u16>::empty());
    assert(product(Seq::<u16>::empty()) == 1);
    assert(product(seq![v1]) == 1 * (v1 as nat));
    assert(product(vs) == 1 * (v1 as nat) * (v2 as nat));
    reveal(pow);
    assert(pow(10000, 0) == 1);
    assert(pow(10000, 1) == 10000 * pow(10000, 0));
    assert(pow(10000, 2) == 10000 * pow(10000, 1));
    assert(base * (1 * (v1 as nat) * (v2 as nat)) == base * (v1 as nat) * (v2 as nat)) by (nonlinear_arith);
    assert(base * (v1 as nat) * (v2 as nat) <= 0xFFFF_FFFF_FFFF_FFFF * 0xFFFF * 0xFFFF) by (nonlinear_arith)
        requires
            base <= 0xFFFF_FFFF_FFFF_FFFF,
            v1 <= 0xFFFF,
            v2 <= 0xFFFF,
    ;
}

proof fn lemma_live_values_concat(p: Seq<UserBoost>, q: Seq<UserBoost>, kind: BoostKind, now: i64)
    ensures
        live_values(p + q, kind, now) == live_values(p, kind, now) + live_values(q, kind, now),
    decreases q.len(),
{
    if q.len() == 0 {
        assert(p + q =~= p);
        assert(live_values(p, kind, now) + live_values(q, kind, now) =~= live_values(p, kind, now));
    } else {
        lemma_live_values_concat(p, q.drop_last(), kind, now);
        assert((p + q).drop_last() =~= p + q.drop_last());
        assert((p + q).last() == q.last());
        let lp = live_values(p, kind, now);
        let lq = live_values(q.drop_last(), kind, now);
        assert((lp + lq).push(q.last().value_bps) =~= lp + lq.push(q.last().value_bps));
    }
}

proof fn lemma_product_concat(p: Seq<u16>, q: Seq<u16>)
    ensures
        product(p + q) == product(p) * product(q),
    decreases q.len(),
{
    if q.len() == 0 {
        assert(p + q =~= p);
        assert(product(p) * 1 == product(p));
    } else {
        lemma_product_concat(p, q.drop_last());
        assert((p + q).drop_last() =~= p + q.drop_last());
        assert((p + q).last() == q.last());
        assert(product(p) * product(q.drop_last()) * (q.last() as nat) == product(p) * (product(q.drop_last())
            * (q.last() as nat))) by (nonlinear_arith);
    }
}

/// When the live mining-reward boosts of a list are exactly two, of values
/// `v1` and `v2`, whatever other boosts the list holds, a base `b` scales to
/// `b * v1 * v2 / 10000^2`.
pub proof fn lemma_two_live_reward_boosts(boosts: Seq<UserBoost>, now: i64, base: u64)
    requires
        live_values(boosts, BoostKind::MiningRewardBps, now).len() == 2,
    ensures
        ({
            let vs = live_values(boosts, BoostKind::MiningRewardBps, now);
            mining_multiplied(boosts, BoostKind::MiningRewardBps, now, base as nat) == (base as nat) * (
            vs[0] as nat) * (vs[1] as nat) / 100_000_000
        }),
{
    let vs = live_values(boosts, BoostKind::MiningRewardBps, now);
    assert(vs =~= seq![vs[0], vs[1]]);
    lemma_two_values(vs[0], vs[1], base as nat);
}

/// Swapping any two boosts of a list leaves every mining scaling unchanged.
pub proof fn lemma_mining_scaling_ignores_order(
    a: Seq<UserBoost>,
    x: UserBoost,
    b: Seq<UserBoost>,
    y: UserBoost,
    c: Seq<UserBoost>,
    kind: BoostKind,
    now: i64,
    base: nat,
)
    ensures
        mining_multiplied(a + seq![x] + b + seq![y] + c, kind, now, base) == mining_multiplied(
            a + seq![y] + b + seq![x] + c,
            kind,
            now,
            base,
        ),
{
    lemma_live_values_concat(a + seq![x] + b + seq![y], c, kind, now);
    lemma_live_values_concat(a + seq![x] + b, seq![y], kind, now);
    lemma_live_values_concat(a + seq![x], b, kind, now);
    lemma_live_values_concat(a, seq![x], kind, now);
    lemma_live_values_concat(a + seq![y] + b + seq![x], c, kind, now);
    lemma_live_values_concat(a + seq![y] + b, seq![x], kind, now);
    lemma_live_values_concat(a + seq![y], b, kind, now);
    lemma_live_values_concat(a, seq![y], kind, now);
    let va = live_values(a, kind, now);
    let vx = live_values(seq![x], kind, now);
    let vb = live_values(b, kind, now);
    let vy = live_values(seq![y], kind, now);
    let vc = live_values(c, kind, now);
    let s1 = va + vx + vb + vy + vc;
    let s2 = va + vy + vb + vx + vc;
    lemma_product_concat(va + vx + vb + vy, vc);
    lemma_product_concat(va + vx + vb, vy);
    lemma_product_concat(va + vx, vb);
    lemma_product_concat(va, vx);
    lemma_product_concat(va + vy + vb + vx, vc);
    lemma_product_concat(va + vy + vb, vx);
    lemma_product_concat(va + vy, vb);
    lemma_product_concat(va, vy);
    let (pa, px, pb, py, pc) = (product(va), product(vx), product(vb), product(vy), product(vc));
    assert(pa * px * pb * py * pc == pa * py * pb * px * pc) by (nonlinear_arith);
    assert(s1.len() == s2.len());
}

/// With no live staking boost the multiplier is 10000; otherwise it is at
/// least every live staking boost and equal to one of them.
pub proof fn lemma_staking_multiplier_is_max(boosts: Seq<UserBoost>, now: i64)
    ensures
        (forall|i: int| 0 <= i < boosts.len() ==> !live_staking(#[trigger] boosts[i], now)) ==> staking_multiplier(
            boosts,
            now,
        ) == 10000,
        forall|i: int| 0 <= i < boosts.len() && live_staking(#[trigger] boosts[i], now)
            ==> boosts[i].value_bps <= staking_multiplier(boosts, now),
        (exists|i: int| 0 <= i < boosts.len() && live_staking(#[trigger] boosts[i], now)) ==> exists|i: int|
            0 <= i < boosts.len() && live_staking(#[trigger] boosts[i], now) && boosts[i].value_bps
                == staking_multiplier(boosts, now),
{
    lemma_best_staking(boosts, now);
}

proof fn lemma_best_staking(boosts: Seq<UserBoost>, now: i64)
    ensures
        best_staking(boosts, now) is None <==> forall|i: int| 0 <= i < boosts.len() ==> !live_staking(
            #[trigger] boosts[i],
            now,
        ),
        best_staking(boosts, now) matches Some(m) ==> {
            &&& forall|i: int| 0 <= i < boosts.len() && live_staking(#[trigger] boosts[i], now)
                ==> boosts[i].value_bps <= m
            &&& exists|i: int| 0 <= i < boosts.len() && live_staking(#[trigger] boosts[i], now)
                && boosts[i].value_bps == m
        },
    decreases boosts.len(),
{
    if boosts.len() > 0 {
        let rest = boosts.drop_last();
        let n = boosts.len() - 1;
        lemma_best_staking(rest, now);
        assert forall|i: int| 0 <= i < n implies boosts[i] == rest[i] by {}
        assert(boosts[n] == boosts.last());
        if best_staking(boosts, now) is None {
            assert forall|i: int| 0 <= i < boosts.len() implies !live_staking(#[trigger] boosts[i], now) by {
                if i < n {
                    assert(boosts[i] == rest[i]);
                }
            }
        } else {
            let m = best_staking(boosts, now)->Some_0;
            assert forall|i: int| 0 <= i < boosts.len() && live_staking(#[trigger] boosts[i], now)
                implies boosts[i].value_bps <= m by {
                if i < n {
                    assert(boosts[i] == rest[i]);
                }
            }
            if best_staking(boosts, now) == best_staking(rest, now) {
                let i = choose|i: int| 0 <= i < rest.len() && live_staking(#[trigger] rest[i], now)
                    && rest[i].value_bps == m;
                assert(boosts[i] == rest[i]);
            } else {
                assert(live_staking(boosts[n], now) && boosts[n].value_bps == m);
            }
        }
    }
}

/// Expired boosts never count toward the staking multiplier, so dropping
/// them leaves it as it was.
pub proof fn lemma_staking_multiplier_ignores_expired(boosts: Seq<UserBoost>, now: i64)
    ensures
        staking_multiplier(unexpired(boosts, now), now) == staking_multiplier(boosts, now),
{
    lemma_best_staking_ignores_expired(boosts, now);
}

proof fn lemma_best_staking_ignores_expired(boosts: Seq<UserBoost>, now: i64)
    ensures
        best_staking(unexpired(boosts, now), now) == best_staking(boosts, now),
    decreases boosts.len(),
{
    if boosts.len() > 0 {
        let rest = boosts.drop_last();
        let b = boosts.last();
        lemma_best_staking_ignores_expired(rest, now);
        assert(rest.push(b) =~= boosts);
        rest.lemma_filter_push(b, |x: UserBoost| !expired(x, now));
        if !expired(b, now) {
            assert(unexpired(boosts, now).drop_last() =~= unexpired(rest, now));
        }
    }
}


/// Writes a boost definition of the catalog, on behalf of the admin.
/// Nothing changes on failure.
pub fn upsert_boost_config(
    global: &GlobalConfig,
    admin: &Address,
    boost_config: &mut BoostConfig,
    args: &BoostConfigArgs,
) -> (r: Result<(), ArenaError>)
    ensures
        admin@ != global.admin@ ==> r == Err::<(), ArenaError>(ArenaError::Unauthorized) && *final(boost_config)
            == *old(boost_config),
        admin@ == global.admin@ ==> r == Ok::<(), ArenaError>(()) && *final(boost_config) == (BoostConfig {
            id: args.id,
            kind: args.kind,
            cost_boost_points: args.cost_boost_points,
            value_bps: args.value_bps,
            duration_seconds: args.duration_seconds,
            rig_id: args.rig_id,
        }),
{
    if !same_address(admin, &global.admin) {
        return Err(ArenaError::Unauthorized);
    }
    boost_config.id = args.id;
    boost_config.kind = args.kind;
    boost_config.cost_boost_points = args.cost_boost_points;
    boost_config.value_bps = args.value_bps;
    boost_config.duration_seconds = args.duration_seconds;
    boost_config.rig_id = args.rig_id;
    Ok(())
}

} // verus!
