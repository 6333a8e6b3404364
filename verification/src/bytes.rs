use vstd::prelude::*;

verus! {

/// Byte `i` of the little-endian encoding of `x`.
pub open spec fn le_byte(x: u64, i: int) -> u8 {
    ((x >> ((8 * i) as u64)) & 0xff) as u8
}

/// The 8-byte little-endian encoding of `x`.
pub open spec fn u64_le_bytes(x: u64) -> Seq<u8> {
    Seq::new(8, |i: int| le_byte(x, i))
}

/// The value an 8-byte little-endian field denotes.
pub open spec fn le_val(s: Seq<u8>) -> int
    recommends
        s.len() == 8,
{
    s[0] + 256 * (s[1] + 256 * (s[2] + 256 * (s[3] + 256 * (s[4] + 256 * (s[5] + 256 * (s[6]
        + 256 * s[7]))))))
}

/// Encodes `x` as exactly 8 little-endian bytes.
pub fn u64_to_le(x: u64) -> (r: Vec<u8>)
    ensures
        r@ == u64_le_bytes(x),
{
    let mut r: Vec<u8> = Vec::new();
    let mut i: usize = 0;
    while i < 8
        invariant
            i <= 8,
            r@.len() == i,
            forall|j: int| 0 <= j < i ==> r@[j] == le_byte(x, j),
        decreases 8 - i,
    {
        r.push(((x >> ((8 * i) as u64)) & 0xff) as u8);
        i = i + 1;
    }
    proof {
        assert(r@ =~= u64_le_bytes(x));
    }
    r
}

/// Decodes an 8-byte little-endian field.
pub fn u64_from_le(b: &Vec<u8>) -> (r: u64)
    requires
        b@.len() == 8,
    ensures
        r == le_val(b@),
{
    let r7: u64 = b[7] as u64;
    let r6: u64 = (b[6] as u64) + 256 * r7;
    let r5: u64 = (b[5] as u64) + 256 * r6;
    let r4: u64 = (b[4] as u64) + 256 * r5;
    let r3: u64 = (b[3] as u64) + 256 * r4;
    let r2: u64 = (b[2] as u64) + 256 * r3;
    let r1: u64 = (b[1] as u64) + 256 * r2;
    let r0: u64 = (b[0] as u64) + 256 * r1;
    r0
}

/// Encoding then decoding an amount is the identity: the 8-byte
/// little-endian field denotes exactly the encoded value.
pub proof fn lemma_le_round_trip(x: u64)
    ensures
        le_val(u64_le_bytes(x)) == x,
{
    assert(le_byte(x, 0) + 256 * (le_byte(x, 1) + 256 * (le_byte(x, 2) + 256 * (le_byte(x, 3)
        + 256 * (le_byte(x, 4) + 256 * (le_byte(x, 5) + 256 * (le_byte(x, 6) + 256 * le_byte(
        x,
        7,
    ))))))) == x) by (bit_vector);
}

} // verus!
