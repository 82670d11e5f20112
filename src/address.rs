use crate::error::ArenaError;
use vstd::prelude::*;

verus! {

/// A 32-byte account identity.
pub type Address = [u8; 32];

/// The all-zero address, which marks an owner not yet bound.
pub open spec fn zero_address() -> Seq<u8> {
    Seq::new(32, |_i: int| 0u8)
}

/// The `n` low bytes of `x`, least significant first.
pub open spec fn le_bytes(x: nat, n: nat) -> Seq<u8>
    decreases n,
{
    if n == 0 {
        Seq::empty()
    } else {
        seq![(x % 256) as u8] + le_bytes(x / 256, (n - 1) as nat)
    }
}

/// Seed that every stake position address is derived from.
pub open spec fn user_stake_seed_spec() -> Seq<u8> {
    seq![117u8, 115, 101, 114, 45, 115, 116, 97, 107, 101]
}

/// The seeds of a stake position address: the legacy scheme for position 0,
/// the numbered scheme for the others.
pub open spec fn stake_seeds(owner: Seq<u8>, position_id: u32) -> Seq<Seq<u8>> {
    if position_id == 0 {
        seq![user_stake_seed_spec(), owner]
    } else {
        seq![user_stake_seed_spec(), owner, le_bytes(position_id as nat, 4)]
    }
}

/// What the program-address search of the ledger runtime yields for `seeds`
/// under `program_id`: the address and its bump, if one exists.
pub uninterp spec fn program_address_of(seeds: Seq<Seq<u8>>, program_id: Seq<u8>) -> Option<(Seq<u8>, u8)>;

/// The owner after a write by `signer`: an unset owner is bound to the
/// signer; a bound one must be the signer.
pub open spec fn bound_owner(owner: Seq<u8>, signer: Seq<u8>) -> Option<Seq<u8>> {
    if owner == zero_address() {
        Some(signer)
    } else if owner == signer {
        Some(owner)
    } else {
        None
    }
}

/// The unset address.
pub fn unset_address() -> (r: Address)
    ensures
        r@ == zero_address(),
{
    let r: Address = [0u8; 32];
    assert(r@ =~= zero_address());
    r
}

/// Whether two addresses are the same.
pub fn same_address(a: &Address, b: &Address) -> (r: bool)
    ensures
        r == (a@ == b@),
{
    let mut i: usize = 0;
    while i < 32
        invariant
            0 <= i <= 32,
            forall|j: int| 0 <= j < i ==> a@[j] == b@[j],
        decreases 32 - i,
    {
        if a[i] != b[i] {
            return false;
        }
        i = i + 1;
    }
    assert(a@ =~= b@);
    true
}

/// Whether `a` is the unset address.
pub fn is_unset(a: &Address) -> (r: bool)
    ensures
        r == (a@ == zero_address()),
{
    let z = unset_address();
    same_address(a, &z)
}

/// Binds an unset owner to `signer`, or checks that a bound owner is it.
pub fn bind_owner(owner: &Address, signer: &Address) -> (r: Result<Address, ArenaError>)
    ensures
        match bound_owner(owner@, signer@) {
            Some(o) => r matches Ok(k) && k@ == o,
            None => r == Err::<Address, ArenaError>(ArenaError::Unauthorized),
        },
{
    if is_unset(owner) {
        Ok(*signer)
    } else if same_address(owner, signer) {
        Ok(*owner)
    } else {
        Err(ArenaError::Unauthorized)
    }
}

/// Appends the `n` low bytes of `x` to `out`, least significant first.
pub fn push_le_bytes(out: &mut Vec<u8>, x: u64, n: usize)
    requires
        n <= 8,
    ensures
        final(out)@ == old(out)@ + le_bytes(x as nat, n as nat),
{
    let mut v: u64 = x;
    let mut i: usize = 0;
    while i < n
        invariant
            i <= n,
            out@ + le_bytes(v as nat, (n - i) as nat) == old(out)@ + le_bytes(x as nat, n as nat),
        decreases n - i,
    {
        let b: u8 = (v % 256) as u8;
        let ghost before = out@;
        out.push(b);
        assert(le_bytes(v as nat, (n - i) as nat) == seq![b] + le_bytes((v / 256) as nat, (n - i - 1) as nat));
        assert(out@ + le_bytes((v / 256) as nat, (n - i - 1) as nat) =~= before + le_bytes(v as nat, (n - i) as nat));
        v = v / 256;
        i = i + 1;
    }
    assert(le_bytes(v as nat, 0) =~= Seq::<u8>::empty());
    assert(out@ =~= out@ + le_bytes(v as nat, 0));
}

/// The bytes of the seed every stake position address is derived from.
pub fn user_stake_seed() -> (r: Vec<u8>)
    ensures
        r@ == user_stake_seed_spec(),
{
    let r: Vec<u8> = vec![117u8, 115, 101, 114, 45, 115, 116, 97, 107, 101];
    assert(r@ =~= user_stake_seed_spec());
    r
}

/// Relies on solana_program's `Pubkey::try_find_program_address`: a search
/// over bump seeds whose outcome depends on the seeds and the program alone.
#[verifier::external_body]
fn find_program_address(seeds: &Vec<Vec<u8>>, program_id: &Address) -> (r: Option<(Address, u8)>)
    ensures
        match r {
            Some((k, bump)) => program_address_of(seeds.deep_view(), program_id@) == Some((k@, bump)),
            None => program_address_of(seeds.deep_view(), program_id@) is None,
        },
{
    let mut slices: Vec<&[u8]> = Vec::new();
    for s in seeds.iter() {
        slices.push(s.as_slice());
    }
    let program = anchor_lang::solana_program::pubkey::Pubkey::new_from_array(*program_id);
    match anchor_lang::solana_program::pubkey::Pubkey::try_find_program_address(&slices, &program) {
        Some((key, bump)) => Some((key.to_bytes(), bump)),
        None => None,
    }
}

/// Whether `stake_account_key` is the address that the stake position
/// `position_id` of `owner` is derived at.
pub open spec fn is_stake_address(program_id: Seq<u8>, owner: Seq<u8>, position_id: u32, stake_account_key: Seq<u8>) -> bool {
    match program_address_of(stake_seeds(owner, position_id), program_id) {
        Some((k, _bump)) => k == stake_account_key,
        None => false,
    }
}

/// Checks that `stake_account_key` is the address of `owner`'s stake
/// position, and returns the position id (0 for the legacy scheme).
pub fn assert_valid_user_stake_pda(
    program_id: &Address,
    owner: &Address,
    maybe_position_id: Option<u32>,
    stake_account_key: &Address,
) -> (r: Result<u32, ArenaError>)
    ensures
        ({
            let id: u32 = match maybe_position_id {
                Some(p) => p,
                None => 0,
            };
            &&& is_stake_address(program_id@, owner@, id, stake_account_key@) ==> r == Ok::<u32, ArenaError>(id)
            &&& !is_stake_address(program_id@, owner@, id, stake_account_key@) ==> r == Err::<u32, ArenaError>(ArenaError::InvalidStakePda)
        }),
{
    let id: u32 = match maybe_position_id {
        Some(p) => p,
        None => 0,
    };
    let mut seeds: Vec<Vec<u8>> = Vec::new();
    seeds.push(user_stake_seed());
    let mut owner_bytes: Vec<u8> = Vec::new();
    let mut i: usize = 0;
    while i < 32
        invariant
            i <= 32,
            owner_bytes@ == owner@.subrange(0, i as int),
        decreases 32 - i,
    {
        owner_bytes.push(owner[i]);
        assert(owner_bytes@ =~= owner@.subrange(0, i + 1));
        i = i + 1;
    }
    assert(owner_bytes@ =~= owner@);
    seeds.push(owner_bytes);
    if id != 0 {
        let mut id_bytes: Vec<u8> = Vec::new();
        push_le_bytes(&mut id_bytes, id as u64, 4);
        assert(id_bytes@ =~= le_bytes(id as nat, 4));
        seeds.push(id_bytes);
    }
    proof {
        assert(seeds@[0].deep_view() =~= user_stake_seed_spec());
        assert(seeds@[1].deep_view() =~= owner@);
        if id != 0 {
            assert(seeds@[2].deep_view() =~= le_bytes(id as nat, 4));
        }
        assert(seeds.deep_view() =~= stake_seeds(owner@, id));
    }
    match find_program_address(&seeds, program_id) {
        Some((key, _bump)) => {
            if same_address(&key, stake_account_key) {
                Ok(id)
            } else {
                Err(ArenaError::InvalidStakePda)
            }
        },
        None => Err(ArenaError::InvalidStakePda),
    }
}

} // verus!
