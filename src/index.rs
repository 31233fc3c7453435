//! Folding a protein number and a k-mer offset into one integer key.
use vstd::prelude::*;

verus! {

/// Offsets must stay below this scale for keys to be unique.
pub const INDEX_SCALE: u64 = 1_000_000;

/// Why a (protein number, offset) pair has no global index.
#[derive(Debug, Clone, Copy, PartialEq, Eq, Structural)]
pub enum IndexError {
    /// The offset reaches the scale, so the key would collide with the next protein's.
    OffsetTooLarge,
    /// The key does not fit in 64 bits.
    Overflow,
}

/// The global index of offset `o` of protein `p`.
pub open spec fn encode_spec(p: nat, o: nat) -> nat {
    p * (INDEX_SCALE as nat) + o
}

/// The (protein number, offset) pair that global index `g` stands for.
pub open spec fn decode_spec(g: nat) -> (nat, nat) {
    (g / (INDEX_SCALE as nat), g % (INDEX_SCALE as nat))
}

/// Whether the global index of (`p`, `o`) exists and fits in a `u64`.
pub open spec fn encodable(p: nat, o: nat) -> bool {
    o < INDEX_SCALE && encode_spec(p, o) <= u64::MAX
}

/// The global index `protein_number * 1_000_000 + local_offset`; an offset at
/// or beyond the scale, or a key beyond 64 bits, is reported instead of
/// colliding or wrapping.
pub fn encode_index(protein_number: u64, local_offset: u64) -> (r: Result<u64, IndexError>)
    ensures
        local_offset >= INDEX_SCALE <==> r == Err::<u64, IndexError>(IndexError::OffsetTooLarge),
        local_offset < INDEX_SCALE && encode_spec(protein_number as nat, local_offset as nat)
            > u64::MAX <==> r == Err::<u64, IndexError>(IndexError::Overflow),
        r matches Ok(g) ==> encodable(protein_number as nat, local_offset as nat) && g
            == encode_spec(protein_number as nat, local_offset as nat),
        encodable(protein_number as nat, local_offset as nat) ==> r is Ok,
{
    if local_offset >= INDEX_SCALE {
        return Err(IndexError::OffsetTooLarge);
    }
    if protein_number > (u64::MAX - local_offset) / INDEX_SCALE {
        proof {
            lemma_scale_exceeds(protein_number as nat, local_offset as nat);
        }
        return Err(IndexError::Overflow);
    }
    proof {
        lemma_scale_fits(protein_number as nat, local_offset as nat);
    }
    Ok(protein_number * INDEX_SCALE + local_offset)
}

proof fn lemma_scale_exceeds(p: nat, o: nat)
    requires
        o <= u64::MAX,
        p > (u64::MAX - o) / (INDEX_SCALE as int),
    ensures
        encode_spec(p, o) > u64::MAX,
{
    let m = u64::MAX - o;
    let s = INDEX_SCALE as int;
    assert(p >= m / s + 1);
    assert(p * s >= (m / s + 1) * s) by (nonlinear_arith)
        requires
            p >= m / s + 1,
            s > 0,
    ;
    assert((m / s + 1) * s > m) by (nonlinear_arith)
        requires
            s > 0,
            m >= 0,
    ;
}

proof fn lemma_scale_fits(p: nat, o: nat)
    requires
        o <= u64::MAX,
        p <= (u64::MAX - o) / (INDEX_SCALE as int),
    ensures
        encode_spec(p, o) <= u64::MAX,
{
    let m = u64::MAX - o;
    let s = INDEX_SCALE as int;
    assert(p * s <= (m / s) * s) by (nonlinear_arith)
        requires
            p <= m / s,
            s > 0,
    ;
    assert((m / s) * s <= m) by (nonlinear_arith)
        requires
            s > 0,
            m >= 0,
    ;
}

/// The protein number and offset that a global index stands for.
pub fn decode_index(global_index: u64) -> (r: (u64, u64))
    ensures
        (r.0 as nat, r.1 as nat) == decode_spec(global_index as nat),
{
    (global_index / INDEX_SCALE, global_index % INDEX_SCALE)
}

/// Decoding an encoded pair gives the pair back, for every offset below the
/// scale.
pub proof fn lemma_decode_encode(p: nat, o: nat)
    requires
        o < INDEX_SCALE,
    ensures
        decode_spec(encode_spec(p, o)) == (p, o),
{
    let s = INDEX_SCALE as int;
    vstd::arithmetic::div_mod::lemma_fundamental_div_mod_converse(
        encode_spec(p, o) as int,
        s,
        p as int,
        o as int,
    );
}

/// Two pairs with offsets below the scale share a global index only if they
/// are the same pair.
pub proof fn lemma_encode_injective(p1: nat, o1: nat, p2: nat, o2: nat)
    requires
        o1 < INDEX_SCALE,
        o2 < INDEX_SCALE,
        encode_spec(p1, o1) == encode_spec(p2, o2),
    ensures
        p1 == p2 && o1 == o2,
{
    lemma_decode_encode(p1, o1);
    lemma_decode_encode(p2, o2);
}

} // verus!
