use vstd::prelude::*;
use crate::keys::Addr;
use crate::keys::addr_eq;
use crate::keys::escrow_seed_vecs;
use crate::keys::escrow_seed_vecs_with_bump;
use crate::keys::escrow_seeds;
use crate::keys::escrow_seeds_with_bump;
use crate::keys::vault_seed_vecs;
use crate::keys::vault_seeds;

verus! {

/// The first (address, bump) pair, searching bumps from 255 downwards, whose
/// derivation lands off the signable-key curve; `None` when no bump works or
/// the seed material itself is out of bounds.
pub uninterp spec fn found_pda(seeds: Seq<Seq<u8>>, program: Seq<u8>) -> Option<(Seq<u8>, u8)>;

/// The address derived from exactly the given seed material (bump already
/// appended); `None` when the result would be a signable key or the seed
/// material is out of bounds.
pub uninterp spec fn pda_of(seeds: Seq<Seq<u8>>, program: Seq<u8>) -> Option<Seq<u8>>;

/// Relies on `pinocchio::Address::try_find_program_address` (the pure,
/// off-curve bump search of solana-address): its result is a function of the
/// seeds and the program identity alone, and the pair it returns is exactly
/// what `create_program_address` yields for the seeds with the bump appended.
#[verifier::external_body]
fn try_find_pda(seeds: &Vec<Vec<u8>>, program: &Addr) -> (r: Option<(Addr, u8)>)
    ensures
        (match r {
            Some((a, b)) => found_pda(seeds.deep_view(), program@) == Some((a@, b)) && pda_of(
                seeds.deep_view().push(seq![b]),
                program@,
            ) == Some(a@),
            None => found_pda(seeds.deep_view(), program@) is None,
        }),
{
    let refs: Vec<&[u8]> = seeds.iter().map(|s| s.as_slice()).collect();
    let program_id = pinocchio::Address::new_from_array(*program);
    pinocchio::Address::try_find_program_address(&refs, &program_id).map(|(a, b)| (
        a.to_bytes(),
        b,
    ))
}

/// Relies on `pinocchio::Address::create_program_address` (solana-address):
/// the derived address is a function of the seeds and the program identity
/// alone; a seed-bound or on-curve failure is reported as `None`.
#[verifier::external_body]
fn create_pda(seeds: &Vec<Vec<u8>>, program: &Addr) -> (r: Option<Addr>)
    ensures
        (match r {
            Some(a) => pda_of(seeds.deep_view(), program@) == Some(a@),
            None => pda_of(seeds.deep_view(), program@) is None,
        }),
{
    let refs: Vec<&[u8]> = seeds.iter().map(|s| s.as_slice()).collect();
    let program_id = pinocchio::Address::new_from_array(*program);
    pinocchio::Address::create_program_address(&refs, &program_id).ok().map(|a| a.to_bytes())
}

/// Searches for the escrow record address of `(maker, seed)` under `program`,
/// returning it with its bump.
pub fn derive_escrow_address(program: &Addr, maker: &Addr, seed: u64) -> (r: Option<(Addr, u8)>)
    ensures
        (match r {
            Some((a, b)) => found_pda(escrow_seeds(*maker, seed), program@) == Some((a@, b))
                && pda_of(escrow_seeds_with_bump(*maker, seed, b), program@) == Some(a@),
            None => found_pda(escrow_seeds(*maker, seed), program@) is None,
        }),
{
    let seeds = escrow_seed_vecs(maker, seed);
    try_find_pda(&seeds, program)
}

/// Recomputes the escrow record address from its stored seed material and
/// bump and compares it with a candidate, as every transition on an existing
/// record must.
pub fn check_escrow_address(program: &Addr, maker: &Addr, seed: u64, bump: u8, candidate: &Addr)
    -> (r: bool)
    ensures
        r <==> pda_of(escrow_seeds_with_bump(*maker, seed, bump), program@) == Some(candidate@),
{
    let seeds = escrow_seed_vecs_with_bump(maker, seed, bump);
    match create_pda(&seeds, program) {
        Some(a) => {
            let r = addr_eq(&a, candidate);
            proof {
                if a@ == candidate@ {
                    assert(a =~= *candidate);
                }
            }
            r
        },
        None => false,
    }
}

/// Searches for the vault address of `owner` under `program`, returning it
/// with its bump.
pub fn derive_vault_address(program: &Addr, owner: &Addr) -> (r: Option<(Addr, u8)>)
    ensures
        (match r {
            Some((a, b)) => found_pda(vault_seeds(*owner), program@) == Some((a@, b)),
            None => found_pda(vault_seeds(*owner), program@) is None,
        }),
{
    let seeds = vault_seed_vecs(owner);
    try_find_pda(&seeds, program)
}

} // verus!
