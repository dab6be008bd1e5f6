//! Laws relating the library's operations, stated over the same spec
//! functions the operations' contracts use and proved once for every input.

use vstd::prelude::*;

use crate::context::Context;
use crate::features::{
    spec_or_bytes, spec_padded_byte, spec_requires_unknown, spec_set_require_unknown,
    spec_clear_require_unknown, spec_supports_unknown, spec_unknown_mask_byte,
    ALL_REQUIRED_BITS_MASK,
};
use crate::registry::{lemma_u8_bit_basics, spec_zero_extend};
use crate::wire::{spec_parse_wire, spec_wire_bytes, spec_wire_len};

verus! {

/// The vector of a context's own known feature flags never carries unknown
/// bits: neither the required-bit scan nor the any-bit scan finds one.
pub proof fn lemma_known_has_no_unknown_bits<T: Context>()
    ensures
        !spec_requires_unknown(T::spec_known_feature_flags(), T::spec_known_feature_mask()),
        !spec_supports_unknown(T::spec_known_feature_flags(), T::spec_known_feature_mask()),
{
    T::lemma_known_flags_within_mask();
    let flags = T::spec_known_feature_flags();
    let mask = T::spec_known_feature_mask();
    assert forall|i: int| 0 <= i < flags.len() implies (#[trigger] flags[i])
        & spec_unknown_mask_byte(mask, i) == 0 && flags[i] & (ALL_REQUIRED_BITS_MASK
        & spec_unknown_mask_byte(mask, i)) == 0 by {
        let b = flags[i];
        let m = mask[i];
        assert(b & !m == 0);
        assert(b & !m == 0 ==> b & (0x55u8 & !m) == 0) by (bit_vector);
        assert(spec_unknown_mask_byte(mask, i) == !m);
    }
}

/// Round trip: reading back the wire encoding of any storage-order vector
/// that fits the two-byte length prefix yields the identical byte sequence.
pub proof fn lemma_wire_round_trip(flags: Seq<u8>)
    requires
        flags.len() <= 0xFFFF,
    ensures
        spec_parse_wire(spec_wire_bytes(flags)) == Some(flags),
{
    let n = flags.len() as int;
    let w = spec_wire_bytes(flags);
    assert(w.len() == 2 + n);
    vstd::arithmetic::div_mod::lemma_fundamental_div_mod(n, 256);
    vstd::arithmetic::div_mod::lemma_div_is_ordered(n, 0xFFFF, 256);
    vstd::arithmetic::div_mod::lemma_div_is_ordered(0, n, 256);
    assert(0 <= n / 256 < 256);
    assert(w[0] == (n / 256) as u8 && w[1] == (n % 256) as u8);
    assert(spec_wire_len(w) == n);
    assert(w.subrange(2, 2 + n) =~= flags.reverse());
    assert(flags.reverse().reverse() =~= flags);
    assert(spec_parse_wire(w) == Some(flags));
}

/// Byte-wise OR is commutative.
pub proof fn lemma_or_commutative(a: Seq<u8>, b: Seq<u8>)
    ensures
        spec_or_bytes(a, b) == spec_or_bytes(b, a),
{
    lemma_u8_bit_basics();
    assert(spec_or_bytes(a, b) =~= spec_or_bytes(b, a));
}

/// Byte-wise OR is associative.
pub proof fn lemma_or_associative(a: Seq<u8>, b: Seq<u8>, c: Seq<u8>)
    ensures
        spec_or_bytes(spec_or_bytes(a, b), c) == spec_or_bytes(a, spec_or_bytes(b, c)),
{
    lemma_u8_bit_basics();
    let ab = spec_or_bytes(a, b);
    let bc = spec_or_bytes(b, c);
    let lhs = spec_or_bytes(ab, c);
    let rhs = spec_or_bytes(a, bc);
    assert forall|i: int| 0 <= i < lhs.len() implies lhs[i] == rhs[i] by {
        assert(spec_padded_byte(ab, i) == spec_padded_byte(a, i) | spec_padded_byte(b, i));
        assert(spec_padded_byte(bc, i) == spec_padded_byte(b, i) | spec_padded_byte(c, i));
    }
    assert(lhs =~= rhs);
}

/// The empty vector is a right identity of byte-wise OR: no padding is left
/// behind, the result is the other operand itself.
pub proof fn lemma_or_empty_identity(a: Seq<u8>)
    ensures
        spec_or_bytes(a, Seq::<u8>::empty()) == a,
{
    lemma_u8_bit_basics();
    assert(spec_or_bytes(a, Seq::<u8>::empty()) =~= a);
}

/// `s` with its trailing zero bytes removed.
pub open spec fn spec_trim_trailing_zeros(s: Seq<u8>) -> Seq<u8>
    decreases s.len(),
{
    if s.len() > 0 && s[s.len() - 1] == 0u8 {
        spec_trim_trailing_zeros(s.drop_last())
    } else {
        s
    }
}

/// Setting the unknown required bit on an empty vector and clearing it again
/// returns to the prior state up to trailing zero bytes: the result is the
/// single zero byte, which trims to the empty vector.
pub proof fn lemma_set_then_clear_require_unknown_on_empty()
    ensures
        spec_clear_require_unknown(spec_set_require_unknown(Seq::<u8>::empty())) == seq![0u8],
        spec_trim_trailing_zeros(
            spec_clear_require_unknown(spec_set_require_unknown(Seq::<u8>::empty())),
        ) == Seq::<u8>::empty(),
{
    lemma_u8_bit_basics();
    let padded = spec_zero_extend(Seq::<u8>::empty(), 3);
    assert(padded =~= seq![0u8, 0u8, 0u8]);
    let set = spec_set_require_unknown(Seq::<u8>::empty());
    assert(0u8 | 0x40u8 == 0x40u8);
    assert(set =~= seq![0u8, 0u8, 0x40u8]);
    assert(spec_zero_extend(set, 3) == set);
    assert(0x40u8 & !0x40u8 == 0u8);
    let cleared = set.update(2, set[2] & !0x40u8);
    assert(cleared =~= seq![0u8, 0u8, 0u8]);
    let once = cleared.subrange(0, 2);
    assert(once =~= seq![0u8, 0u8]);
    let twice = once.subrange(0, 1);
    assert(twice =~= seq![0u8]);
    assert(spec_clear_require_unknown(set) == seq![0u8]);
    assert(seq![0u8].drop_last() =~= Seq::<u8>::empty());
    assert(spec_trim_trailing_zeros(Seq::<u8>::empty()) == Seq::<u8>::empty());
    assert(spec_trim_trailing_zeros(seq![0u8]) == spec_trim_trailing_zeros(Seq::<u8>::empty()));
}

/// Unknown-bit detection: a vector whose single set bit lies at position `k`,
/// beyond every byte the context's known mask covers, is reported by the
/// any-bit scan, and by the required-bit scan exactly when `k` is even.
pub proof fn lemma_unknown_bit_detection(flags: Seq<u8>, mask: Seq<u8>, k: int)
    requires
        0 <= k,
        8 * mask.len() <= k,
        flags.len() == k / 8 + 1,
        forall|j: int| 0 <= j < k / 8 ==> flags[j] == 0u8,
        flags[k / 8] == 1u8 << ((k % 8) as u8),
    ensures
        spec_supports_unknown(flags, mask),
        spec_requires_unknown(flags, mask) == (k % 2 == 0),
{
    lemma_u8_bit_basics();
    let q = k / 8;
    let r = k % 8;
    vstd::arithmetic::div_mod::lemma_div_is_ordered(8 * mask.len() as int, k, 8);
    vstd::arithmetic::div_mod::lemma_div_multiples_vanish(mask.len() as int, 8);
    assert(q >= mask.len());
    assert(spec_unknown_mask_byte(mask, q) == 0xFFu8);
    let ru = (k % 8) as u8;
    let b = flags[q];
    assert((1u8 << ru) != 0) by (bit_vector)
        requires
            ru < 8,
    ;
    assert(b & 0xFFu8 == b);
    assert(0 <= q < flags.len() && flags[q] & spec_unknown_mask_byte(mask, q) != 0);
    assert(spec_supports_unknown(flags, mask));
    // The parity of `k` is the parity of its bit position within the byte.
    vstd::arithmetic::div_mod::lemma_fundamental_div_mod(k, 8);
    vstd::arithmetic::div_mod::lemma_add_mod_noop(8 * q, r, 2);
    vstd::arithmetic::div_mod::lemma_mod_multiples_basic(4 * q, 2);
    assert(8 * q == (4 * q) * 2);
    assert((8 * q) % 2 == 0);
    assert(k % 2 == r % 2);
    assert(0x55u8 & 0xFFu8 == 0x55u8) by (bit_vector);
    if k % 2 == 0 {
        assert((1u8 << ru) & 0x55u8 != 0) by (bit_vector)
            requires
                ru < 8 && ru % 2 == 0,
        ;
        assert(flags[q] & (ALL_REQUIRED_BITS_MASK & spec_unknown_mask_byte(mask, q)) != 0);
        assert(spec_requires_unknown(flags, mask));
    } else {
        assert((1u8 << ru) & 0x55u8 == 0) by (bit_vector)
            requires
                ru < 8 && ru % 2 == 1,
        ;
        assert forall|i: int| 0 <= i < flags.len() implies (#[trigger] flags[i])
            & (ALL_REQUIRED_BITS_MASK & spec_unknown_mask_byte(mask, i)) == 0 by {
            if i < q {
                assert(flags[i] == 0u8);
            } else {
                assert(i == q);
                assert(flags[q] & 0x55u8 == 0);
                assert(spec_unknown_mask_byte(mask, i) == 0xFFu8);
            }
        }
        assert(!spec_requires_unknown(flags, mask));
    }
}

} // verus!
