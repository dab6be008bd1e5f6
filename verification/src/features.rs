//! The generic flag container: a byte-vector-backed bitset parameterized by
//! the context it belongs to.

use core::marker::PhantomData;
use vstd::prelude::*;

use crate::context::{
    BasicMPP, ChannelContext, Context, DataLossProtect, InitContext, InitialRoutingSync,
    NodeContext, PaymentSecret, UpfrontShutdownScript, VariableLengthOnion,
};
use crate::registry::{
    clear_bits, lemma_u8_bit_basics, set_optional_bit, spec_clear_bits, spec_set_optional_bit,
    spec_supports_feature, spec_zero_extend, supports_feature, zero_extend, BASIC_MPP_BYTE_OFFSET,
    BASIC_MPP_OPTIONAL_MASK, BASIC_MPP_REQUIRED_MASK, DATA_LOSS_PROTECT_BYTE_OFFSET,
    DATA_LOSS_PROTECT_OPTIONAL_MASK, DATA_LOSS_PROTECT_REQUIRED_MASK,
    INITIAL_ROUTING_SYNC_BYTE_OFFSET, INITIAL_ROUTING_SYNC_OPTIONAL_MASK,
    INITIAL_ROUTING_SYNC_REQUIRED_MASK, PAYMENT_SECRET_BYTE_OFFSET, PAYMENT_SECRET_OPTIONAL_MASK,
    PAYMENT_SECRET_REQUIRED_MASK, UPFRONT_SHUTDOWN_SCRIPT_BYTE_OFFSET,
    UPFRONT_SHUTDOWN_SCRIPT_OPTIONAL_MASK, UPFRONT_SHUTDOWN_SCRIPT_REQUIRED_MASK,
    VARIABLE_LENGTH_ONION_BYTE_OFFSET, VARIABLE_LENGTH_ONION_OPTIONAL_MASK,
    VARIABLE_LENGTH_ONION_REQUIRED_MASK,
};

verus! {

/// Mask selecting every even (required) bit position of a byte.
pub const ALL_REQUIRED_BITS_MASK: u8 = 0x55;

/// Tracks the set of features a node implements, templated by the context in
/// which it appears. The bytes are held least-significant byte first, that
/// is, reversed relative to the wire's most-significant-byte-first order; the
/// context tag carries no runtime data.
pub struct Features<T: Context> {
    flags: Vec<u8>,
    mark: PhantomData<T>,
}

impl<T: Context> View for Features<T> {
    type V = Seq<u8>;

    closed spec fn view(&self) -> Seq<u8> {
        self.flags@
    }
}

/// Features used within an `init` message.
pub type InitFeatures = Features<InitContext>;

/// Features used within a `node_announcement` message.
pub type NodeFeatures = Features<NodeContext>;

/// Features used within a `channel_announcement` message.
pub type ChannelFeatures = Features<ChannelContext>;

/// Copies a flag byte vector.
fn clone_flag_bytes(a: &Vec<u8>) -> (r: Vec<u8>)
    ensures
        r@ == a@,
{
    let mut r: Vec<u8> = Vec::new();
    let mut i: usize = 0;
    while i < a.len()
        invariant
            i <= a@.len(),
            r@ == a@.subrange(0, i as int),
        decreases a@.len() - i,
    {
        r.push(a[i]);
        proof {
            assert(r@ =~= a@.subrange(0, i + 1));
        }
        i += 1;
    }
    proof {
        assert(r@ =~= a@);
    }
    r
}

/// Compares two flag byte vectors for equality of their contents.
fn eq_flag_bytes(a: &Vec<u8>, b: &Vec<u8>) -> (r: bool)
    ensures
        r == (a@ == b@),
{
    if a.len() != b.len() {
        return false;
    }
    let mut i: usize = 0;
    while i < a.len()
        invariant
            i <= a@.len(),
            a@.len() == b@.len(),
            forall|j: int| 0 <= j < i ==> a@[j] == b@[j],
        decreases a@.len() - i,
    {
        if a[i] != b[i] {
            return false;
        }
        i += 1;
    }
    proof {
        assert(a@ =~= b@);
    }
    true
}

impl<T: Context> Clone for Features<T> {
    /// Cloning copies the byte sequence; the context tag carries no data.
    fn clone(&self) -> (r: Self)
        ensures
            r@ == self@,
    {
        Features { flags: clone_flag_bytes(&self.flags), mark: PhantomData }
    }
}

impl<T: Context> PartialEq for Features<T> {
    /// Equality compares the byte sequences only.
    fn eq(&self, o: &Self) -> (r: bool)
        ensures
            r == (self@ == o@),
    {
        eq_flag_bytes(&self.flags, &o.flags)
    }
}

impl<T: Context> vstd::std_specs::cmp::PartialEqSpecImpl for Features<T> {
    open spec fn obeys_eq_spec() -> bool {
        true
    }

    open spec fn eq_spec(&self, o: &Self) -> bool {
        self@ == o@
    }
}

/// The byte the unknown-bit scans mask a vector's byte `i` with: the
/// complement of the context's known-mask byte where the mask reaches, all
/// ones for byte indices beyond the mask's length.
pub open spec fn spec_unknown_mask_byte(mask: Seq<u8>, i: int) -> u8 {
    if 0 <= i < mask.len() {
        !mask[i]
    } else {
        0xFFu8
    }
}

/// Whether some byte of `flags` has a required (even) bit set at a position
/// the known mask does not cover.
pub open spec fn spec_requires_unknown(flags: Seq<u8>, mask: Seq<u8>) -> bool {
    exists|i: int|
        0 <= i < flags.len() && (#[trigger] flags[i]) & (ALL_REQUIRED_BITS_MASK
            & spec_unknown_mask_byte(mask, i)) != 0
}

/// Whether some byte of `flags` has any bit set at a position the known mask
/// does not cover.
pub open spec fn spec_supports_unknown(flags: Seq<u8>, mask: Seq<u8>) -> bool {
    exists|i: int|
        0 <= i < flags.len() && (#[trigger] flags[i]) & spec_unknown_mask_byte(mask, i) != 0
}

/// The projection of `flags` into a context whose known mask is `mask`: the
/// bytes the target has room for, each masked to the bits it recognizes;
/// bytes beyond the mask's length are dropped entirely.
pub open spec fn spec_project_known(flags: Seq<u8>, mask: Seq<u8>) -> Seq<u8> {
    Seq::new(
        vstd::math::min(flags.len() as int, mask.len() as int) as nat,
        |i: int| flags[i] & mask[i],
    )
}

/// Byte `i` of `s`, reading zero beyond the end.
pub open spec fn spec_padded_byte(s: Seq<u8>, i: int) -> u8 {
    if 0 <= i < s.len() {
        s[i]
    } else {
        0u8
    }
}

/// The byte-wise OR of two vectors, the shorter treated as padded with zero
/// bytes up to the longer one's length.
pub open spec fn spec_or_bytes(a: Seq<u8>, b: Seq<u8>) -> Seq<u8> {
    Seq::new(
        vstd::math::max(a.len() as int, b.len() as int) as nat,
        |i: int| spec_padded_byte(a, i) | spec_padded_byte(b, i),
    )
}

/// `flags` grown to at least three bytes, with the even (required) bit 22 set.
pub open spec fn spec_set_require_unknown(flags: Seq<u8>) -> Seq<u8> {
    let padded = spec_zero_extend(flags, 3);
    padded.update(2, padded[2] | 0x40u8)
}

/// `flags` grown to at least three bytes with the even bit 22 cleared, then
/// trimmed of the trailing zero byte once at length three and once more at
/// length two.
pub open spec fn spec_clear_require_unknown(flags: Seq<u8>) -> Seq<u8> {
    let padded = spec_zero_extend(flags, 3);
    let cleared = padded.update(2, padded[2] & !0x40u8);
    let once = if cleared.len() == 3 && cleared[2] == 0 {
        cleared.subrange(0, 2)
    } else {
        cleared
    };
    if once.len() == 2 && once[1] == 0 {
        once.subrange(0, 1)
    } else {
        once
    }
}

impl<T: Context> Features<T> {
    /// Creates a blank vector with no feature bit set.
    pub fn empty() -> (r: Features<T>)
        ensures
            r@ == Seq::<u8>::empty(),
    {
        Features { flags: Vec::new(), mark: PhantomData }
    }

    /// Creates the vector advertising every feature known to this context,
    /// with bytes equal to the context's known feature flags.
    pub fn known() -> (r: Features<T>)
        ensures
            r@ == T::spec_known_feature_flags(),
    {
        Features { flags: T::known_feature_flags(), mark: PhantomData }
    }

    /// Creates a vector from a set of flag bytes already in storage
    /// (least-significant-first) order.
    pub fn from_le_bytes(flags: Vec<u8>) -> (r: Features<T>)
        ensures
            r@ == flags@,
    {
        Features { flags, mark: PhantomData }
    }

    /// The underlying flag bytes, in storage (least-significant-first) order.
    pub fn le_flags(&self) -> (r: &Vec<u8>)
        ensures
            r@ == self@,
    {
        &self.flags
    }

    /// The number of bytes needed to represent the flags present, not
    /// counting the length bytes of the serialized form.
    pub fn byte_count(&self) -> (n: usize)
        ensures
            n == self@.len(),
    {
        self.flags.len()
    }

    /// Projects a handshake-context vector into this context, retaining only
    /// the bytes the target context has room for, each masked to the bits it
    /// recognizes; source bytes beyond the target's known-mask length are
    /// dropped entirely.
    pub fn with_known_relevant_init_flags(init_ctx: &InitFeatures) -> (r: Self)
        ensures
            r@ == spec_project_known(init_ctx@, T::spec_known_feature_mask()),
    {
        let mask = T::known_feature_mask();
        let mut flags: Vec<u8> = Vec::new();
        let mut i: usize = 0;
        while i < init_ctx.flags.len() && i < mask.len()
            invariant
                mask@ == T::spec_known_feature_mask(),
                i <= init_ctx@.len(),
                i <= mask@.len(),
                flags@.len() == i,
                forall|j: int| 0 <= j < i ==> flags@[j] == init_ctx@[j] & mask@[j],
            decreases init_ctx@.len() - i,
        {
            flags.push(init_ctx.flags[i] & mask[i]);
            i += 1;
        }
        proof {
            assert(flags@ =~= spec_project_known(init_ctx@, T::spec_known_feature_mask()));
        }
        Features { flags, mark: PhantomData }
    }

    /// Whether any byte of the vector has a required (even) bit set at a
    /// position this context's known mask does not cover; bytes beyond the
    /// mask's length count as entirely unknown.
    pub fn requires_unknown_bits(&self) -> (b: bool)
        ensures
            b == spec_requires_unknown(self@, T::spec_known_feature_mask()),
    {
        let mask = T::known_feature_mask();
        let mut i: usize = 0;
        while i < self.flags.len()
            invariant
                mask@ == T::spec_known_feature_mask(),
                i <= self@.len(),
                forall|j: int|
                    0 <= j < i ==> (#[trigger] self@[j]) & (ALL_REQUIRED_BITS_MASK
                        & spec_unknown_mask_byte(mask@, j)) == 0,
            decreases self@.len() - i,
        {
            let unknown = if i < mask.len() {
                !mask[i]
            } else {
                0xFFu8
            };
            if self.flags[i] & (ALL_REQUIRED_BITS_MASK & unknown) != 0 {
                return true;
            }
            i += 1;
        }
        false
    }

    /// Whether any byte of the vector has any bit, required or optional, set
    /// at a position this context's known mask does not cover.
    pub fn supports_unknown_bits(&self) -> (b: bool)
        ensures
            b == spec_supports_unknown(self@, T::spec_known_feature_mask()),
    {
        let mask = T::known_feature_mask();
        let mut i: usize = 0;
        while i < self.flags.len()
            invariant
                mask@ == T::spec_known_feature_mask(),
                i <= self@.len(),
                forall|j: int|
                    0 <= j < i ==> (#[trigger] self@[j]) & spec_unknown_mask_byte(mask@, j) == 0,
            decreases self@.len() - i,
        {
            let unknown = if i < mask.len() {
                !mask[i]
            } else {
                0xFFu8
            };
            if self.flags[i] & unknown != 0 {
                return true;
            }
            i += 1;
        }
        false
    }

    /// Sets an even (required) bit unknown to every context defined here:
    /// bit 22, growing the vector to three bytes if needed.
    pub fn set_require_unknown_bits(&mut self)
        ensures
            final(self)@ == spec_set_require_unknown(old(self)@),
    {
        zero_extend(&mut self.flags, 3);
        let b = self.flags[2] | 0x40u8;
        self.flags[2] = b;
    }

    /// Clears the unknown required bit 22 again, trimming the trailing zero
    /// byte once at length three and once more at length two.
    pub fn clear_require_unknown_bits(&mut self)
        ensures
            final(self)@ == spec_clear_require_unknown(old(self)@),
    {
        zero_extend(&mut self.flags, 3);
        let b = self.flags[2] & !0x40u8;
        self.flags[2] = b;
        if self.flags.len() == 3 && self.flags[2] == 0 {
            self.flags.truncate(2);
        }
        if self.flags.len() == 2 && self.flags[1] == 0 {
            self.flags.truncate(1);
        }
    }
}

impl InitFeatures {
    /// ORs another handshake vector into this one: the shorter operand is
    /// grown with zero bytes to the longer one's length, then the vectors are
    /// combined byte by byte.
    pub fn or(self, o: InitFeatures) -> (r: InitFeatures)
        ensures
            r@ == spec_or_bytes(self@, o@),
    {
        let ghost a = self@;
        let ghost b = o@;
        let mut flags = self.flags;
        let o_flags = o.flags;
        zero_extend(&mut flags, o_flags.len());
        let mut i: usize = 0;
        while i < o_flags.len()
            invariant
                o_flags@ == b,
                i <= b.len(),
                flags@.len() == spec_or_bytes(a, b).len(),
                forall|j: int| 0 <= j < i ==> flags@[j] == spec_or_bytes(a, b)[j],
                forall|j: int|
                    i <= j < flags@.len() ==> flags@[j] == spec_zero_extend(a, b.len() as int)[j],
            decreases b.len() - i,
        {
            let v = flags[i] | o_flags[i];
            flags[i] = v;
            i += 1;
        }
        proof {
            lemma_u8_bit_basics();
            assert(flags@ =~= spec_or_bytes(a, b));
        }
        Features { flags, mark: PhantomData }
    }
}

impl<T: DataLossProtect> Features<T> {
    /// Whether this vector advertises `option_data_loss_protect`.
    pub fn supports_data_loss_protect(&self) -> (b: bool)
        ensures
            b == spec_supports_feature(
                self@,
                DATA_LOSS_PROTECT_BYTE_OFFSET as int,
                DATA_LOSS_PROTECT_REQUIRED_MASK,
                DATA_LOSS_PROTECT_OPTIONAL_MASK,
            ),
    {
        supports_feature(
            &self.flags,
            DATA_LOSS_PROTECT_BYTE_OFFSET,
            DATA_LOSS_PROTECT_REQUIRED_MASK,
            DATA_LOSS_PROTECT_OPTIONAL_MASK,
        )
    }
}

impl<T: UpfrontShutdownScript> Features<T> {
    /// Whether this vector advertises `option_upfront_shutdown_script`.
    pub fn supports_upfront_shutdown_script(&self) -> (b: bool)
        ensures
            b == spec_supports_feature(
                self@,
                UPFRONT_SHUTDOWN_SCRIPT_BYTE_OFFSET as int,
                UPFRONT_SHUTDOWN_SCRIPT_REQUIRED_MASK,
                UPFRONT_SHUTDOWN_SCRIPT_OPTIONAL_MASK,
            ),
    {
        supports_feature(
            &self.flags,
            UPFRONT_SHUTDOWN_SCRIPT_BYTE_OFFSET,
            UPFRONT_SHUTDOWN_SCRIPT_REQUIRED_MASK,
            UPFRONT_SHUTDOWN_SCRIPT_OPTIONAL_MASK,
        )
    }

    /// Clears both `option_upfront_shutdown_script` bits, if the vector
    /// reaches their byte.
    pub fn unset_upfront_shutdown_script(&mut self)
        ensures
            final(self)@ == spec_clear_bits(
                old(self)@,
                UPFRONT_SHUTDOWN_SCRIPT_BYTE_OFFSET as int,
                UPFRONT_SHUTDOWN_SCRIPT_REQUIRED_MASK,
                UPFRONT_SHUTDOWN_SCRIPT_OPTIONAL_MASK,
            ),
    {
        clear_bits(
            &mut self.flags,
            UPFRONT_SHUTDOWN_SCRIPT_BYTE_OFFSET,
            UPFRONT_SHUTDOWN_SCRIPT_REQUIRED_MASK,
            UPFRONT_SHUTDOWN_SCRIPT_OPTIONAL_MASK,
        );
    }
}

impl<T: VariableLengthOnion> Features<T> {
    /// Whether this vector advertises `var_onion_optin`.
    pub fn supports_variable_length_onion(&self) -> (b: bool)
        ensures
            b == spec_supports_feature(
                self@,
                VARIABLE_LENGTH_ONION_BYTE_OFFSET as int,
                VARIABLE_LENGTH_ONION_REQUIRED_MASK,
                VARIABLE_LENGTH_ONION_OPTIONAL_MASK,
            ),
    {
        supports_feature(
            &self.flags,
            VARIABLE_LENGTH_ONION_BYTE_OFFSET,
            VARIABLE_LENGTH_ONION_REQUIRED_MASK,
            VARIABLE_LENGTH_ONION_OPTIONAL_MASK,
        )
    }
}

impl<T: InitialRoutingSync> Features<T> {
    /// Whether this vector advertises `initial_routing_sync`.
    pub fn initial_routing_sync(&self) -> (b: bool)
        ensures
            b == spec_supports_feature(
                self@,
                INITIAL_ROUTING_SYNC_BYTE_OFFSET as int,
                INITIAL_ROUTING_SYNC_REQUIRED_MASK,
                INITIAL_ROUTING_SYNC_OPTIONAL_MASK,
            ),
    {
        supports_feature(
            &self.flags,
            INITIAL_ROUTING_SYNC_BYTE_OFFSET,
            INITIAL_ROUTING_SYNC_REQUIRED_MASK,
            INITIAL_ROUTING_SYNC_OPTIONAL_MASK,
        )
    }

    /// Clears both `initial_routing_sync` bits, if the vector reaches their
    /// byte.
    pub fn clear_initial_routing_sync(&mut self)
        ensures
            final(self)@ == spec_clear_bits(
                old(self)@,
                INITIAL_ROUTING_SYNC_BYTE_OFFSET as int,
                INITIAL_ROUTING_SYNC_REQUIRED_MASK,
                INITIAL_ROUTING_SYNC_OPTIONAL_MASK,
            ),
    {
        clear_bits(
            &mut self.flags,
            INITIAL_ROUTING_SYNC_BYTE_OFFSET,
            INITIAL_ROUTING_SYNC_REQUIRED_MASK,
            INITIAL_ROUTING_SYNC_OPTIONAL_MASK,
        );
    }

    /// Sets the optional `initial_routing_sync` bit, growing the vector if
    /// needed.
    pub fn set_initial_routing_sync(&mut self)
        ensures
            final(self)@ == spec_set_optional_bit(
                old(self)@,
                INITIAL_ROUTING_SYNC_BYTE_OFFSET as int,
                INITIAL_ROUTING_SYNC_OPTIONAL_MASK,
            ),
    {
        set_optional_bit(
            &mut self.flags,
            INITIAL_ROUTING_SYNC_BYTE_OFFSET,
            INITIAL_ROUTING_SYNC_OPTIONAL_MASK,
        );
    }
}

impl<T: PaymentSecret> Features<T> {
    /// Whether this vector advertises `payment_secret`.
    pub fn supports_payment_secret(&self) -> (b: bool)
        ensures
            b == spec_supports_feature(
                self@,
                PAYMENT_SECRET_BYTE_OFFSET as int,
                PAYMENT_SECRET_REQUIRED_MASK,
                PAYMENT_SECRET_OPTIONAL_MASK,
            ),
    {
        supports_feature(
            &self.flags,
            PAYMENT_SECRET_BYTE_OFFSET,
            PAYMENT_SECRET_REQUIRED_MASK,
            PAYMENT_SECRET_OPTIONAL_MASK,
        )
    }
}

impl<T: BasicMPP> Features<T> {
    /// Whether this vector advertises `basic_mpp`.
    pub fn supports_basic_mpp(&self) -> (b: bool)
        ensures
            b == spec_supports_feature(
                self@,
                BASIC_MPP_BYTE_OFFSET as int,
                BASIC_MPP_REQUIRED_MASK,
                BASIC_MPP_OPTIONAL_MASK,
            ),
    {
        supports_feature(
            &self.flags,
            BASIC_MPP_BYTE_OFFSET,
            BASIC_MPP_REQUIRED_MASK,
            BASIC_MPP_OPTIONAL_MASK,
        )
    }
}

} // verus!
