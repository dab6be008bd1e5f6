//! Capability registry: the fixed table of protocol capabilities, each
//! occupying an even ("required") / odd ("optional") bit pair, together with
//! the generic byte-vector operations for querying and updating those bits.

use vstd::prelude::*;

verus! {

// Each capability is declared by its odd (optional) bit index; the required
// bit is the even bit directly below it. The byte offset and the two
// single-bit masks relative to that byte are derived from the bit indices;
// `lemma_registry_bit_pairs` checks the derivation and the bit-pair parity
// for every capability.

/// Odd (optional) bit of `option_data_loss_protect`.
pub const DATA_LOSS_PROTECT_ODD_BIT: u8 = 1;
/// Even (required) bit of `option_data_loss_protect`.
pub const DATA_LOSS_PROTECT_EVEN_BIT: u8 = 0;
/// Byte holding the `option_data_loss_protect` bit pair.
pub const DATA_LOSS_PROTECT_BYTE_OFFSET: usize = 0;
/// Required-bit mask of `option_data_loss_protect`, relative to its byte.
pub const DATA_LOSS_PROTECT_REQUIRED_MASK: u8 = 0x01;
/// Optional-bit mask of `option_data_loss_protect`, relative to its byte.
pub const DATA_LOSS_PROTECT_OPTIONAL_MASK: u8 = 0x02;

/// Odd (optional) bit of `initial_routing_sync`. Per the protocol this
/// capability has no meaningful even counterpart, but it still occupies an
/// even slot under the bit-pair rule; the required bit is simply never set.
pub const INITIAL_ROUTING_SYNC_ODD_BIT: u8 = 3;
/// Even (required) bit of `initial_routing_sync` (reserved, never set).
pub const INITIAL_ROUTING_SYNC_EVEN_BIT: u8 = 2;
/// Byte holding the `initial_routing_sync` bit pair.
pub const INITIAL_ROUTING_SYNC_BYTE_OFFSET: usize = 0;
/// Required-bit mask of `initial_routing_sync`, relative to its byte.
pub const INITIAL_ROUTING_SYNC_REQUIRED_MASK: u8 = 0x04;
/// Optional-bit mask of `initial_routing_sync`, relative to its byte.
pub const INITIAL_ROUTING_SYNC_OPTIONAL_MASK: u8 = 0x08;

/// Odd (optional) bit of `option_upfront_shutdown_script`.
pub const UPFRONT_SHUTDOWN_SCRIPT_ODD_BIT: u8 = 5;
/// Even (required) bit of `option_upfront_shutdown_script`.
pub const UPFRONT_SHUTDOWN_SCRIPT_EVEN_BIT: u8 = 4;
/// Byte holding the `option_upfront_shutdown_script` bit pair.
pub const UPFRONT_SHUTDOWN_SCRIPT_BYTE_OFFSET: usize = 0;
/// Required-bit mask of `option_upfront_shutdown_script`, relative to its byte.
pub const UPFRONT_SHUTDOWN_SCRIPT_REQUIRED_MASK: u8 = 0x10;
/// Optional-bit mask of `option_upfront_shutdown_script`, relative to its byte.
pub const UPFRONT_SHUTDOWN_SCRIPT_OPTIONAL_MASK: u8 = 0x20;

/// Odd (optional) bit of `var_onion_optin`.
pub const VARIABLE_LENGTH_ONION_ODD_BIT: u8 = 9;
/// Even (required) bit of `var_onion_optin`.
pub const VARIABLE_LENGTH_ONION_EVEN_BIT: u8 = 8;
/// Byte holding the `var_onion_optin` bit pair.
pub const VARIABLE_LENGTH_ONION_BYTE_OFFSET: usize = 1;
/// Required-bit mask of `var_onion_optin`, relative to its byte.
pub const VARIABLE_LENGTH_ONION_REQUIRED_MASK: u8 = 0x01;
/// Optional-bit mask of `var_onion_optin`, relative to its byte.
pub const VARIABLE_LENGTH_ONION_OPTIONAL_MASK: u8 = 0x02;

/// Odd (optional) bit of `payment_secret`.
pub const PAYMENT_SECRET_ODD_BIT: u8 = 15;
/// Even (required) bit of `payment_secret`.
pub const PAYMENT_SECRET_EVEN_BIT: u8 = 14;
/// Byte holding the `payment_secret` bit pair.
pub const PAYMENT_SECRET_BYTE_OFFSET: usize = 1;
/// Required-bit mask of `payment_secret`, relative to its byte.
pub const PAYMENT_SECRET_REQUIRED_MASK: u8 = 0x40;
/// Optional-bit mask of `payment_secret`, relative to its byte.
pub const PAYMENT_SECRET_OPTIONAL_MASK: u8 = 0x80;

/// Odd (optional) bit of `basic_mpp`.
pub const BASIC_MPP_ODD_BIT: u8 = 17;
/// Even (required) bit of `basic_mpp`.
pub const BASIC_MPP_EVEN_BIT: u8 = 16;
/// Byte holding the `basic_mpp` bit pair.
pub const BASIC_MPP_BYTE_OFFSET: usize = 2;
/// Required-bit mask of `basic_mpp`, relative to its byte.
pub const BASIC_MPP_REQUIRED_MASK: u8 = 0x01;
/// Optional-bit mask of `basic_mpp`, relative to its byte.
pub const BASIC_MPP_OPTIONAL_MASK: u8 = 0x02;

/// Definition-time check of the bit-pair rule: for every capability the odd
/// bit is odd, the required bit is the even bit directly below it, and the
/// byte offset and single-bit masks are exactly the ones derived from the bit
/// indices.
pub proof fn lemma_registry_bit_pairs()
    ensures
        DATA_LOSS_PROTECT_ODD_BIT % 2 == 1,
        DATA_LOSS_PROTECT_EVEN_BIT == DATA_LOSS_PROTECT_ODD_BIT - 1,
        DATA_LOSS_PROTECT_BYTE_OFFSET as int == DATA_LOSS_PROTECT_EVEN_BIT as int / 8,
        DATA_LOSS_PROTECT_REQUIRED_MASK == 1u8 << (DATA_LOSS_PROTECT_EVEN_BIT % 8),
        DATA_LOSS_PROTECT_OPTIONAL_MASK == 1u8 << (DATA_LOSS_PROTECT_ODD_BIT % 8),
        INITIAL_ROUTING_SYNC_ODD_BIT % 2 == 1,
        INITIAL_ROUTING_SYNC_EVEN_BIT == INITIAL_ROUTING_SYNC_ODD_BIT - 1,
        INITIAL_ROUTING_SYNC_BYTE_OFFSET as int == INITIAL_ROUTING_SYNC_EVEN_BIT as int / 8,
        INITIAL_ROUTING_SYNC_REQUIRED_MASK == 1u8 << (INITIAL_ROUTING_SYNC_EVEN_BIT % 8),
        INITIAL_ROUTING_SYNC_OPTIONAL_MASK == 1u8 << (INITIAL_ROUTING_SYNC_ODD_BIT % 8),
        UPFRONT_SHUTDOWN_SCRIPT_ODD_BIT % 2 == 1,
        UPFRONT_SHUTDOWN_SCRIPT_EVEN_BIT == UPFRONT_SHUTDOWN_SCRIPT_ODD_BIT - 1,
        UPFRONT_SHUTDOWN_SCRIPT_BYTE_OFFSET as int == UPFRONT_SHUTDOWN_SCRIPT_EVEN_BIT as int / 8,
        UPFRONT_SHUTDOWN_SCRIPT_REQUIRED_MASK == 1u8 << (UPFRONT_SHUTDOWN_SCRIPT_EVEN_BIT % 8),
        UPFRONT_SHUTDOWN_SCRIPT_OPTIONAL_MASK == 1u8 << (UPFRONT_SHUTDOWN_SCRIPT_ODD_BIT % 8),
        VARIABLE_LENGTH_ONION_ODD_BIT % 2 == 1,
        VARIABLE_LENGTH_ONION_EVEN_BIT == VARIABLE_LENGTH_ONION_ODD_BIT - 1,
        VARIABLE_LENGTH_ONION_BYTE_OFFSET as int == VARIABLE_LENGTH_ONION_EVEN_BIT as int / 8,
        VARIABLE_LENGTH_ONION_REQUIRED_MASK == 1u8 << (VARIABLE_LENGTH_ONION_EVEN_BIT % 8),
        VARIABLE_LENGTH_ONION_OPTIONAL_MASK == 1u8 << (VARIABLE_LENGTH_ONION_ODD_BIT % 8),
        PAYMENT_SECRET_ODD_BIT % 2 == 1,
        PAYMENT_SECRET_EVEN_BIT == PAYMENT_SECRET_ODD_BIT - 1,
        PAYMENT_SECRET_BYTE_OFFSET as int == PAYMENT_SECRET_EVEN_BIT as int / 8,
        PAYMENT_SECRET_REQUIRED_MASK == 1u8 << (PAYMENT_SECRET_EVEN_BIT % 8),
        PAYMENT_SECRET_OPTIONAL_MASK == 1u8 << (PAYMENT_SECRET_ODD_BIT % 8),
        BASIC_MPP_ODD_BIT % 2 == 1,
        BASIC_MPP_EVEN_BIT == BASIC_MPP_ODD_BIT - 1,
        BASIC_MPP_BYTE_OFFSET as int == BASIC_MPP_EVEN_BIT as int / 8,
        BASIC_MPP_REQUIRED_MASK == 1u8 << (BASIC_MPP_EVEN_BIT % 8),
        BASIC_MPP_OPTIONAL_MASK == 1u8 << (BASIC_MPP_ODD_BIT % 8),
{
    assert(0x01u8 == 1u8 << (0u8 % 8) && 0x02u8 == 1u8 << (1u8 % 8) && 0x04u8 == 1u8 << (2u8 % 8)
        && 0x08u8 == 1u8 << (3u8 % 8) && 0x10u8 == 1u8 << (4u8 % 8) && 0x20u8 == 1u8 << (5u8 % 8)
        && 0x01u8 == 1u8 << (8u8 % 8) && 0x02u8 == 1u8 << (9u8 % 8) && 0x40u8 == 1u8 << (14u8 % 8)
        && 0x80u8 == 1u8 << (15u8 % 8) && 0x01u8 == 1u8 << (16u8 % 8) && 0x02u8 == 1u8 << (17u8 % 8))
        by (bit_vector);
}

/// Whether `flags` advertises the capability with the given byte offset and
/// masks: the byte exists and has the required or the optional bit set.
pub open spec fn spec_supports_feature(
    flags: Seq<u8>,
    byte_offset: int,
    required_mask: u8,
    optional_mask: u8,
) -> bool {
    0 <= byte_offset < flags.len() && flags[byte_offset] & (required_mask | optional_mask) != 0
}

/// True iff `flags` has a byte at `byte_offset` with the required or the
/// optional mask bit set. A vector too short to reach the byte implicitly has
/// all higher bits zero, so this returns false rather than an error.
pub fn supports_feature(
    flags: &Vec<u8>,
    byte_offset: usize,
    required_mask: u8,
    optional_mask: u8,
) -> (b: bool)
    ensures
        b == spec_supports_feature(flags@, byte_offset as int, required_mask, optional_mask),
{
    byte_offset < flags.len() && flags[byte_offset] & (required_mask | optional_mask) != 0
}

/// `flags` grown with zero bytes at the end until it is at least `len` long;
/// a vector already that long is unchanged.
pub open spec fn spec_zero_extend(flags: Seq<u8>, len: int) -> Seq<u8> {
    if flags.len() >= len {
        flags
    } else {
        flags + Seq::new((len - flags.len()) as nat, |i: int| 0u8)
    }
}

/// Appends zero bytes to `flags` until it is at least `len` long.
pub fn zero_extend(flags: &mut Vec<u8>, len: usize)
    ensures
        final(flags)@ == spec_zero_extend(old(flags)@, len as int),
{
    while flags.len() < len
        invariant
            old(flags)@.len() <= flags@.len(),
            flags@.len() <= vstd::math::max(old(flags)@.len() as int, len as int),
            forall|j: int| 0 <= j < old(flags)@.len() ==> flags@[j] == old(flags)@[j],
            forall|j: int| old(flags)@.len() <= j < flags@.len() ==> flags@[j] == 0u8,
        decreases len - flags.len(),
    {
        flags.push(0u8);
    }
    proof {
        assert(flags@ =~= spec_zero_extend(old(flags)@, len as int));
    }
}

/// `flags` with the optional-mask bit set at `byte_offset`, after growing
/// with zero bytes so that the byte exists; no other bit changes.
pub open spec fn spec_set_optional_bit(
    flags: Seq<u8>,
    byte_offset: int,
    optional_mask: u8,
) -> Seq<u8> {
    let padded = spec_zero_extend(flags, byte_offset + 1);
    padded.update(byte_offset, padded[byte_offset] | optional_mask)
}

/// Grows `flags` with zero bytes if needed so that `byte_offset` exists, then
/// sets the optional-mask bit there. Never clears other bits.
pub fn set_optional_bit(flags: &mut Vec<u8>, byte_offset: usize, optional_mask: u8)
    requires
        byte_offset < usize::MAX,
    ensures
        final(flags)@ == spec_set_optional_bit(old(flags)@, byte_offset as int, optional_mask),
{
    zero_extend(flags, byte_offset + 1);
    let b = flags[byte_offset] | optional_mask;
    flags[byte_offset] = b;
}

/// `flags` with both the required- and the optional-mask bits cleared at
/// `byte_offset` if the vector reaches that byte; unchanged otherwise.
pub open spec fn spec_clear_bits(
    flags: Seq<u8>,
    byte_offset: int,
    required_mask: u8,
    optional_mask: u8,
) -> Seq<u8> {
    if 0 <= byte_offset < flags.len() {
        flags.update(byte_offset, flags[byte_offset] & !required_mask & !optional_mask)
    } else {
        flags
    }
}

/// If the vector is long enough, clears the required- and optional-mask bits
/// at `byte_offset`; a no-op (not an error) otherwise.
pub fn clear_bits(flags: &mut Vec<u8>, byte_offset: usize, required_mask: u8, optional_mask: u8)
    ensures
        final(flags)@ == spec_clear_bits(
            old(flags)@,
            byte_offset as int,
            required_mask,
            optional_mask,
        ),
{
    if byte_offset < flags.len() {
        let b = flags[byte_offset] & !required_mask & !optional_mask;
        flags[byte_offset] = b;
    }
}

/// Bitwise facts about bytes that the byte-vector proofs lean on.
pub proof fn lemma_u8_bit_basics()
    by (bit_vector)
    ensures
        forall|x: u8| #[trigger] (x | 0u8) == x,
        forall|x: u8| #[trigger] (0u8 | x) == x,
        forall|x: u8| #[trigger] (x & 0u8) == 0u8,
        forall|x: u8| #[trigger] (0u8 & x) == 0u8,
        forall|x: u8| #[trigger] (x & 0xFFu8) == x,
        forall|x: u8| #[trigger] (x & !x) == 0u8,
        forall|x: u8, y: u8| #[trigger] (x | y) == (y | x),
        forall|x: u8, y: u8, z: u8| #[trigger] ((x | y) | z) == (x | (y | z)),
{
}

} // verus!
