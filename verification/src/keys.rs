use vstd::prelude::*;
use crate::bytes::u64_le_bytes;
use crate::bytes::u64_to_le;

verus! {

/// A 32-byte account address.
pub type Addr = [u8; 32];

/// Whether two addresses are the same, byte for byte.
pub fn addr_eq(a: &Addr, b: &Addr) -> (r: bool)
    ensures
        r <==> *a == *b,
{
    let mut i: usize = 0;
    while i < 32
        invariant
            i <= 32,
            forall|j: int| 0 <= j < i ==> a@[j] == b@[j],
        decreases 32 - i,
    {
        if a[i] != b[i] {
            assert(a@[i as int] != b@[i as int]);
            assert(*a != *b);
            return false;
        }
        i = i + 1;
    }
    proof {
        assert(a@ =~= b@);
        assert(*a =~= *b);
    }
    true
}

/// The namespace tag of escrow records: the bytes of "escrow".
pub open spec fn escrow_tag() -> Seq<u8> {
    seq![101u8, 115u8, 99u8, 114u8, 111u8, 119u8]
}

/// The namespace tag of single-owner vaults: the bytes of "vault".
pub open spec fn vault_tag() -> Seq<u8> {
    seq![118u8, 97u8, 117u8, 108u8, 116u8]
}

/// The seed material an escrow record's address is derived from:
/// the namespace tag, the maker's address, and the offer's seed number.
pub open spec fn escrow_seeds(maker: Addr, seed: u64) -> Seq<Seq<u8>> {
    seq![escrow_tag(), maker@, u64_le_bytes(seed)]
}

/// The same seed material with a claimed bump appended, as handed to the
/// derivation that re-checks a stored bump.
pub open spec fn escrow_seeds_with_bump(maker: Addr, seed: u64, bump: u8) -> Seq<Seq<u8>> {
    escrow_seeds(maker, seed).push(seq![bump])
}

/// The seed material a single-owner vault's address is derived from.
pub open spec fn vault_seeds(owner: Addr) -> Seq<Seq<u8>> {
    seq![vault_tag(), owner@]
}

fn escrow_tag_vec() -> (r: Vec<u8>)
    ensures
        r@ == escrow_tag(),
{
    let mut r: Vec<u8> = Vec::new();
    r.push(101u8);
    r.push(115u8);
    r.push(99u8);
    r.push(114u8);
    r.push(111u8);
    r.push(119u8);
    proof {
        assert(r@ =~= escrow_tag());
    }
    r
}

fn vault_tag_vec() -> (r: Vec<u8>)
    ensures
        r@ == vault_tag(),
{
    let mut r: Vec<u8> = Vec::new();
    r.push(118u8);
    r.push(97u8);
    r.push(117u8);
    r.push(108u8);
    r.push(116u8);
    proof {
        assert(r@ =~= vault_tag());
    }
    r
}

fn addr_vec(a: &Addr) -> (r: Vec<u8>)
    ensures
        r@ == a@,
{
    let mut r: Vec<u8> = Vec::new();
    let mut i: usize = 0;
    while i < 32
        invariant
            i <= 32,
            r@.len() == i,
            forall|j: int| 0 <= j < i ==> r@[j] == a@[j],
        decreases 32 - i,
    {
        r.push(a[i]);
        i = i + 1;
    }
    proof {
        assert(r@ =~= a@);
    }
    r
}

/// Builds the escrow seed material as byte vectors.
pub fn escrow_seed_vecs(maker: &Addr, seed: u64) -> (r: Vec<Vec<u8>>)
    ensures
        r.deep_view() == escrow_seeds(*maker, seed),
{
    let mut r: Vec<Vec<u8>> = Vec::new();
    r.push(escrow_tag_vec());
    r.push(addr_vec(maker));
    r.push(u64_to_le(seed));
    proof {
        assert(r.deep_view() =~~= escrow_seeds(*maker, seed));
    }
    r
}

/// Builds the escrow seed material with a claimed bump appended.
pub fn escrow_seed_vecs_with_bump(maker: &Addr, seed: u64, bump: u8) -> (r: Vec<Vec<u8>>)
    ensures
        r.deep_view() == escrow_seeds_with_bump(*maker, seed, bump),
{
    let mut r = escrow_seed_vecs(maker, seed);
    let mut tail: Vec<u8> = Vec::new();
    tail.push(bump);
    r.push(tail);
    proof {
        assert(tail@ =~= seq![bump]);
        assert(r.deep_view() =~~= escrow_seeds_with_bump(*maker, seed, bump));
    }
    r
}

/// Builds the vault seed material as byte vectors.
pub fn vault_seed_vecs(owner: &Addr) -> (r: Vec<Vec<u8>>)
    ensures
        r.deep_view() == vault_seeds(*owner),
{
    let mut r: Vec<Vec<u8>> = Vec::new();
    r.push(vault_tag_vec());
    r.push(addr_vec(owner));
    proof {
        assert(r.deep_view() =~~= vault_seeds(*owner));
    }
    r
}

} // verus!
