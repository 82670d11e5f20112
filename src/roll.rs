use crate::address::{le_bytes, push_le_bytes, Address};
use crate::rig::{halved, RigConfig};
use vstd::prelude::*;

verus! {

/// The Keccak-256 digest of `data`.
pub uninterp spec fn keccak_of(data: Seq<u8>) -> Seq<u8>;

/// The bytes a reward roll is drawn from: the slot, the timestamp, the
/// player's identity and the rig id, integers little-endian.
pub open spec fn entropy_bytes(slot: u64, now: i64, user: Seq<u8>, rig_id: u8) -> Seq<u8> {
    le_bytes(slot as nat, 8) + le_bytes((now as u64) as nat, 8) + user + seq![rig_id]
}

/// A draw in `[0, 10000)`: the low 16 bits of a digest, little-endian,
/// reduced modulo 10000.
pub open spec fn roll_of(digest: Seq<u8>) -> u16 {
    ((digest[0] as nat + 256 * (digest[1] as nat)) % 10000) as u16
}

/// The payout before boosts for draw `roll`: high when the draw is below the
/// tier's chance, low otherwise, both halved `level` times.
pub open spec fn payout(rig: RigConfig, level: u64, roll: u16) -> u64 {
    if roll < rig.prob_high_bps {
        halved(rig.base_reward_high, level)
    } else {
        halved(rig.base_reward_low, level)
    }
}

/// Relies on solana_program's `keccak::hash`: the Keccak-256 digest of the
/// bytes, which depends on them alone.
#[verifier::external_body]
fn keccak_digest(data: &Vec<u8>) -> (r: [u8; 32])
    ensures
        r@ == keccak_of(data@),
{
    anchor_lang::solana_program::keccak::hash(data.as_slice()).to_bytes()
}

/// The draw taken from a digest.
pub fn roll_from_digest(digest: &[u8; 32]) -> (r: u16)
    ensures
        r == roll_of(digest@),
        r < 10000,
{
    let low: u16 = digest[0] as u16 + 256 * (digest[1] as u16);
    low % 10_000
}

/// The payout before boosts for a given draw.
pub fn select_reward(rig: &RigConfig, halving_level: u64, roll: u16) -> (r: u64)
    ensures
        r == payout(*rig, halving_level, roll),
{
    if roll < rig.prob_high_bps {
        rig.reward_high(halving_level)
    } else {
        rig.reward_low(halving_level)
    }
}

/// The bytes a reward roll is drawn from.
pub fn entropy_input(slot: u64, now: i64, user: &Address, rig_id: u8) -> (r: Vec<u8>)
    ensures
        r@ == entropy_bytes(slot, now, user@, rig_id),
{
    let mut out: Vec<u8> = Vec::new();
    push_le_bytes(&mut out, slot, 8);
    push_le_bytes(&mut out, now as u64, 8);
    let ghost head = out@;
    let mut i: usize = 0;
    while i < 32
        invariant
            i <= 32,
            out@ == head + user@.subrange(0, i as int),
        decreases 32 - i,
    {
        out.push(user[i]);
        assert(out@ =~= head + user@.subrange(0, i + 1));
        i = i + 1;
    }
    out.push(rig_id);
    assert(out@ =~= entropy_bytes(slot, now, user@, rig_id));
    out
}

/// Rolls the payout before boosts of one mining run on `rig`.
pub fn compute_reward_amount(rig: &RigConfig, halving_level: u64, user: &Address, slot: u64, now: i64, rig_id: u8) -> (r: u64)
    ensures
        r == payout(*rig, halving_level, roll_of(keccak_of(entropy_bytes(slot, now, user@, rig_id)))),
{
    let data = entropy_input(slot, now, user, rig_id);
    let digest = keccak_digest(&data);
    let roll = roll_from_digest(&digest);
    select_reward(rig, halving_level, roll)
}

/// A payout before boosts is the tier's low or high payout at the current
/// level, and the high one exactly when the draw is below the tier's chance.
pub proof fn lemma_payout_two_outcomes(rig: RigConfig, level: u64, roll: u16)
    ensures
        payout(rig, level, roll) == halved(rig.base_reward_low, level) || payout(rig, level, roll)
            == halved(rig.base_reward_high, level),
        roll < rig.prob_high_bps ==> payout(rig, level, roll) == halved(rig.base_reward_high, level),
        roll >= rig.prob_high_bps ==> payout(rig, level, roll) == halved(rig.base_reward_low, level),
{
}

} // verus!
