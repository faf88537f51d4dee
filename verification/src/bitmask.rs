//! The 64-bit device membership bitmask.
//!
//! The topology-selection call speaks in bitmasks: bit `i` set means device id
//! `i` is a member.  The encoding can only represent ids up to 63; any larger
//! id is rejected before the native library is involved.  Decoding scans set
//! bits low-to-high, so the decoded list is strictly ascending.
use vstd::prelude::*;
use crate::error::DCGMError;

verus! {

/// Whether bit `b` of the mask is set.
pub open spec fn mask_has(mask: u64, b: u32) -> bool {
    b < 64 && (mask >> (b as u64)) & 1 == 1
}

/// Whether a mask encodes exactly the membership of an id sequence.
pub open spec fn spec_encodes(ids: Seq<u32>, mask: u64) -> bool {
    forall|b: u32| b < 64 ==> (mask_has(mask, b) <==> ids.contains(b))
}

/// The set bits of a mask below position `n`, in ascending order.
pub open spec fn spec_mask_bits(mask: u64, n: int) -> Seq<u32>
    decreases n,
{
    if n <= 0 {
        Seq::empty()
    } else if mask_has(mask, (n - 1) as u32) {
        spec_mask_bits(mask, n - 1).push((n - 1) as u32)
    } else {
        spec_mask_bits(mask, n - 1)
    }
}

/// Setting one bit affects exactly that bit.
proof fn lemma_set_bit_effect(m: u64, g: u64, b: u64)
    by (bit_vector)
    requires
        g < 64,
        b < 64,
    ensures
        ((m | (1u64 << g)) >> b) & 1 == 1 <==> (((m >> b) & 1 == 1) || b == g),
{
}

/// The decoded bit list is ascending, bounded by `n`, and holds exactly the
/// set bits below `n`.
proof fn lemma_mask_bits_props(mask: u64, n: int)
    requires
        0 <= n <= 64,
    ensures
        forall|i: int|
            0 <= i < spec_mask_bits(mask, n).len() ==> #[trigger] spec_mask_bits(mask, n)[i]
                < n,
        forall|i: int, j: int|
            0 <= i < j < spec_mask_bits(mask, n).len() ==> spec_mask_bits(mask, n)[i]
                < spec_mask_bits(mask, n)[j],
        forall|b: u32|
            #[trigger] spec_mask_bits(mask, n).contains(b) <==> (b < n && mask_has(mask, b)),
    decreases n,
{
    if n > 0 {
        lemma_mask_bits_props(mask, n - 1);
        let prev = spec_mask_bits(mask, n - 1);
        let cur = spec_mask_bits(mask, n);
        if mask_has(mask, (n - 1) as u32) {
            assert(cur == prev.push((n - 1) as u32));
            assert forall|b: u32| #[trigger] cur.contains(b) implies (b < n && mask_has(
                mask,
                b,
            )) by {
                let k = choose|k: int| 0 <= k < cur.len() && cur[k] == b;
                if k < prev.len() {
                    assert(prev.contains(b));
                } else {
                    assert(b == (n - 1) as u32);
                }
            }
            assert forall|b: u32| b < n && mask_has(mask, b) implies #[trigger] cur.contains(
                b,
            ) by {
                if b < n - 1 {
                    assert(prev.contains(b));
                    let k = choose|k: int| 0 <= k < prev.len() && prev[k] == b;
                    assert(cur[k] == b);
                } else {
                    assert(cur[cur.len() - 1] == b);
                }
            }
        } else {
            assert(cur == prev);
            assert forall|b: u32| b < n && mask_has(mask, b) implies #[trigger] cur.contains(
                b,
            ) by {
                assert(b != (n - 1) as u32);
                assert(prev.contains(b));
            }
        }
    }
}

/// Encodes a set of device ids as a membership bitmask.  Succeeds exactly
/// when every id is at most 63; bit `b` of the result is set exactly when
/// `b` occurs among the ids.
pub fn encode_gpu_bitmask(gpu_ids: &Vec<u32>) -> (r: Result<u64, DCGMError>)
    ensures
        r is Ok <==> (forall|i: int| 0 <= i < gpu_ids@.len() ==> gpu_ids@[i] <= 63),
        r matches Ok(mask) ==> spec_encodes(gpu_ids@, mask),
        r matches Err(e) ==> e.message@ == "gpu value out of bounds"@,
{
    let mut mask: u64 = 0;
    let mut i: usize = 0;
    proof {
        assert forall|b: u32| b < 64 implies !mask_has(0u64, b) by {
            assert((0u64 >> (b as u64)) & 1 == 0) by (bit_vector);
        }
    }
    while i < gpu_ids.len()
        invariant
            0 <= i <= gpu_ids@.len(),
            forall|j: int| 0 <= j < i ==> gpu_ids@[j] <= 63,
            forall|b: u32| b < 64 ==> (mask_has(mask, b) <==> gpu_ids@.take(i as int).contains(b)),
        decreases gpu_ids@.len() - i,
    {
        let g = gpu_ids[i];
        if g > 63 {
            return Err(DCGMError::from_text("gpu value out of bounds"));
        }
        let new_mask = mask | (1u64 << (g as u64));
        proof {
            assert(gpu_ids@.take(i as int + 1) =~= gpu_ids@.take(i as int).push(g));
            assert forall|b: u32| b < 64 implies (mask_has(new_mask, b) <==> gpu_ids@.take(
                i as int + 1,
            ).contains(b)) by {
                lemma_set_bit_effect(mask, g as u64, b as u64);
                let taken = gpu_ids@.take(i as int);
                let pushed = gpu_ids@.take(i as int + 1);
                assert(mask_has(mask, b) <==> taken.contains(b));
                assert(mask_has(new_mask, b) <==> (mask_has(mask, b) || b == g));
                if mask_has(new_mask, b) {
                    if b == g {
                        assert(pushed[pushed.len() - 1] == b);
                        assert(pushed.contains(b));
                    } else {
                        assert(taken.contains(b));
                        let k = choose|k: int| 0 <= k < taken.len() && taken[k] == b;
                        assert(pushed[k] == b);
                        assert(pushed.contains(b));
                    }
                }
                if pushed.contains(b) {
                    let k = choose|k: int| 0 <= k < pushed.len() && pushed[k] == b;
                    if k < taken.len() {
                        assert(taken[k] == b);
                        assert(taken.contains(b));
                    } else {
                        assert(b == g);
                    }
                }
            }
        }
        mask = new_mask;
        i = i + 1;
    }
    proof {
        assert(gpu_ids@.take(gpu_ids@.len() as int) =~= gpu_ids@);
    }
    Ok(mask)
}

/// Decodes a membership bitmask into the device ids of its set bits, scanning
/// low-to-high: the result is strictly ascending and holds id `b` exactly
/// when bit `b` is set.
pub fn decode_gpu_bitmask(mask: u64) -> (r: Vec<u32>)
    ensures
        r@ == spec_mask_bits(mask, 64),
        forall|b: u32| #[trigger] r@.contains(b) <==> mask_has(mask, b),
        forall|i: int, j: int| 0 <= i < j < r@.len() ==> r@[i] < r@[j],
{
    let mut r: Vec<u32> = Vec::new();
    let mut b: u32 = 0;
    while b < 64
        invariant
            b <= 64,
            r@ == spec_mask_bits(mask, b as int),
        decreases 64 - b,
    {
        if (mask >> (b as u64)) & 1 == 1 {
            r.push(b);
        }
        b = b + 1;
    }
    proof {
        lemma_mask_bits_props(mask, 64);
    }
    r
}

/// The membership bitmask round trip loses nothing: for an id set whose
/// members are all at most 63, the decoded form of the encoded mask contains
/// exactly the original ids.
pub proof fn lemma_bitmask_round_trip(ids: Seq<u32>, mask: u64)
    requires
        forall|i: int| 0 <= i < ids.len() ==> ids[i] <= 63,
        spec_encodes(ids, mask),
    ensures
        forall|b: u32| #[trigger] spec_mask_bits(mask, 64).contains(b) <==> ids.contains(b),
{
    lemma_mask_bits_props(mask, 64);
    assert forall|b: u32| ids.contains(b) implies #[trigger] spec_mask_bits(mask, 64).contains(
        b,
    ) by {
        let k = choose|k: int| 0 <= k < ids.len() && ids[k] == b;
        assert(ids[k] <= 63);
    }
}

/// The all-bits-set mask for `n` devices decodes to exactly the device ids
/// `0 .. n-1`, in order.
pub proof fn lemma_decode_full_mask(n: u32)
    requires
        n <= 64,
    ensures
        spec_mask_bits(low_mask(n), 64) =~= Seq::new(n as nat, |i: int| i as u32),
{
    lemma_low_mask_bits(n);
    lemma_decode_low_mask_aux(n, low_mask(n), 64);
}

/// The mask with exactly the low `n` bits set.
pub open spec fn low_mask(n: u32) -> u64 {
    if n >= 64 {
        0xFFFF_FFFF_FFFF_FFFFu64
    } else {
        ((1u64 << (n as u64)) - 1) as u64
    }
}

/// Bit `b` of `low_mask(n)` is set exactly when `b < n`.
proof fn lemma_low_mask_bits(n: u32)
    requires
        n <= 64,
    ensures
        forall|b: u32| b < 64 ==> (mask_has(low_mask(n), b) <==> b < n),
{
    assert forall|b: u32| b < 64 implies (mask_has(low_mask(n), b) <==> b < n) by {
        let bb = b as u64;
        let nn = n as u64;
        if n >= 64 {
            assert((0xFFFF_FFFF_FFFF_FFFFu64 >> bb) & 1 == 1) by (bit_vector)
                requires
                    bb < 64,
            ;
        } else {
            assert(((((1u64 << nn) - 1) as u64) >> bb) & 1 == 1 <==> bb < nn) by (bit_vector)
                requires
                    nn < 64,
                    bb < 64,
            ;
        }
    }
}

/// For a mask whose set bits are exactly those below `n`, the decoded prefix
/// below `m` is the ascending run `0 ..` capped at both `m` and `n`.
proof fn lemma_decode_low_mask_aux(n: u32, mask: u64, m: int)
    requires
        n <= 64,
        0 <= m <= 64,
        forall|b: u32| b < 64 ==> (mask_has(mask, b) <==> b < n),
    ensures
        spec_mask_bits(mask, m) =~= Seq::new(
            (if m <= n { m } else { n as int }) as nat,
            |i: int| i as u32,
        ),
    decreases m,
{
    if m > 0 {
        lemma_decode_low_mask_aux(n, mask, m - 1);
    }
}

} // verus!
