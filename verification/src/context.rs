//! Contexts: the message types a flag vector can belong to, each with its
//! derived table of known feature flags and known feature mask, and the
//! marker traits saying which capabilities apply in which context.

use vstd::prelude::*;

use crate::registry::{
    spec_supports_feature, BASIC_MPP_BYTE_OFFSET, BASIC_MPP_OPTIONAL_MASK, BASIC_MPP_REQUIRED_MASK,
    DATA_LOSS_PROTECT_BYTE_OFFSET, DATA_LOSS_PROTECT_OPTIONAL_MASK, DATA_LOSS_PROTECT_REQUIRED_MASK,
    INITIAL_ROUTING_SYNC_BYTE_OFFSET, INITIAL_ROUTING_SYNC_OPTIONAL_MASK,
    INITIAL_ROUTING_SYNC_REQUIRED_MASK, PAYMENT_SECRET_BYTE_OFFSET, PAYMENT_SECRET_OPTIONAL_MASK,
    PAYMENT_SECRET_REQUIRED_MASK, UPFRONT_SHUTDOWN_SCRIPT_BYTE_OFFSET,
    UPFRONT_SHUTDOWN_SCRIPT_OPTIONAL_MASK, UPFRONT_SHUTDOWN_SCRIPT_REQUIRED_MASK,
    VARIABLE_LENGTH_ONION_BYTE_OFFSET, VARIABLE_LENGTH_ONION_OPTIONAL_MASK,
    VARIABLE_LENGTH_ONION_REQUIRED_MASK,
};

verus! {

/// The context in which a flag vector is applicable. A context statically
/// determines two byte tables derived from the capability registry:
///
/// * the known feature flags, where byte `i` is the bitwise OR of the
///   required mask of every capability required in this context at byte
///   offset `i` and the optional mask of every capability optional there; and
/// * the known feature mask, where byte `i` has both bit positions set for
///   every capability known to this context at offset `i`, regardless of
///   whether the capability is required or optional.
pub trait Context: Sized {
    /// The known feature flags of this context, as a byte sequence.
    spec fn spec_known_feature_flags() -> Seq<u8>;

    /// The known feature mask of this context, as a byte sequence.
    spec fn spec_known_feature_mask() -> Seq<u8>;

    /// The two tables run in step, and every known flag bit lies within the
    /// known mask: the flags select a subset of the mask's bit positions.
    proof fn lemma_known_flags_within_mask()
        ensures
            Self::spec_known_feature_flags().len() == Self::spec_known_feature_mask().len(),
            forall|i: int|
                #![trigger Self::spec_known_feature_flags()[i]]
                0 <= i < Self::spec_known_feature_flags().len()
                    ==> Self::spec_known_feature_flags()[i]
                        & !Self::spec_known_feature_mask()[i] == 0,
    ;

    /// The known feature flags as an owned byte vector.
    fn known_feature_flags() -> (v: Vec<u8>)
        ensures
            v@ == Self::spec_known_feature_flags(),
    ;

    /// The known feature mask as an owned byte vector.
    fn known_feature_mask() -> (v: Vec<u8>)
        ensures
            v@ == Self::spec_known_feature_mask(),
    ;
}

/// The handshake (`init` message) context.
pub struct InitContext {}

/// The `node_announcement` message context.
pub struct NodeContext {}

/// The `channel_announcement` message context; no capability is known here.
pub struct ChannelContext {}

impl Context for InitContext {
    open spec fn spec_known_feature_flags() -> Seq<u8> {
        seq![
            DATA_LOSS_PROTECT_OPTIONAL_MASK | INITIAL_ROUTING_SYNC_OPTIONAL_MASK
                | UPFRONT_SHUTDOWN_SCRIPT_OPTIONAL_MASK,
            VARIABLE_LENGTH_ONION_OPTIONAL_MASK | PAYMENT_SECRET_OPTIONAL_MASK,
            BASIC_MPP_OPTIONAL_MASK,
        ]
    }

    open spec fn spec_known_feature_mask() -> Seq<u8> {
        seq![
            DATA_LOSS_PROTECT_REQUIRED_MASK | DATA_LOSS_PROTECT_OPTIONAL_MASK
                | INITIAL_ROUTING_SYNC_REQUIRED_MASK | INITIAL_ROUTING_SYNC_OPTIONAL_MASK
                | UPFRONT_SHUTDOWN_SCRIPT_REQUIRED_MASK | UPFRONT_SHUTDOWN_SCRIPT_OPTIONAL_MASK,
            VARIABLE_LENGTH_ONION_REQUIRED_MASK | VARIABLE_LENGTH_ONION_OPTIONAL_MASK
                | PAYMENT_SECRET_REQUIRED_MASK | PAYMENT_SECRET_OPTIONAL_MASK,
            BASIC_MPP_REQUIRED_MASK | BASIC_MPP_OPTIONAL_MASK,
        ]
    }

    proof fn lemma_known_flags_within_mask() {
        lemma_init_context_table();
        assert(0x2Au8 & !0x3Fu8 == 0 && 0x82u8 & !0xC3u8 == 0 && 0x02u8 & !0x03u8 == 0)
            by (bit_vector);
        assert forall|i: int|
            #![trigger Self::spec_known_feature_flags()[i]]
            0 <= i < Self::spec_known_feature_flags().len() implies Self::spec_known_feature_flags()[i]
            & !Self::spec_known_feature_mask()[i] == 0 by {
            if i == 0 {
            } else if i == 1 {
            } else {
                assert(i == 2);
            }
        }
    }

    fn known_feature_flags() -> (v: Vec<u8>) {
        let mut v: Vec<u8> = Vec::new();
        v.push(
            DATA_LOSS_PROTECT_OPTIONAL_MASK | INITIAL_ROUTING_SYNC_OPTIONAL_MASK
                | UPFRONT_SHUTDOWN_SCRIPT_OPTIONAL_MASK,
        );
        v.push(VARIABLE_LENGTH_ONION_OPTIONAL_MASK | PAYMENT_SECRET_OPTIONAL_MASK);
        v.push(BASIC_MPP_OPTIONAL_MASK);
        proof {
            assert(v@ =~= Self::spec_known_feature_flags());
        }
        v
    }

    fn known_feature_mask() -> (v: Vec<u8>) {
        let mut v: Vec<u8> = Vec::new();
        v.push(
            DATA_LOSS_PROTECT_REQUIRED_MASK | DATA_LOSS_PROTECT_OPTIONAL_MASK
                | INITIAL_ROUTING_SYNC_REQUIRED_MASK | INITIAL_ROUTING_SYNC_OPTIONAL_MASK
                | UPFRONT_SHUTDOWN_SCRIPT_REQUIRED_MASK | UPFRONT_SHUTDOWN_SCRIPT_OPTIONAL_MASK,
        );
        v.push(
            VARIABLE_LENGTH_ONION_REQUIRED_MASK | VARIABLE_LENGTH_ONION_OPTIONAL_MASK
                | PAYMENT_SECRET_REQUIRED_MASK | PAYMENT_SECRET_OPTIONAL_MASK,
        );
        v.push(BASIC_MPP_REQUIRED_MASK | BASIC_MPP_OPTIONAL_MASK);
        proof {
            assert(v@ =~= Self::spec_known_feature_mask());
        }
        v
    }
}

impl Context for NodeContext {
    open spec fn spec_known_feature_flags() -> Seq<u8> {
        seq![
            DATA_LOSS_PROTECT_OPTIONAL_MASK | UPFRONT_SHUTDOWN_SCRIPT_OPTIONAL_MASK,
            VARIABLE_LENGTH_ONION_OPTIONAL_MASK | PAYMENT_SECRET_OPTIONAL_MASK,
            BASIC_MPP_OPTIONAL_MASK,
        ]
    }

    open spec fn spec_known_feature_mask() -> Seq<u8> {
        seq![
            DATA_LOSS_PROTECT_REQUIRED_MASK | DATA_LOSS_PROTECT_OPTIONAL_MASK
                | UPFRONT_SHUTDOWN_SCRIPT_REQUIRED_MASK | UPFRONT_SHUTDOWN_SCRIPT_OPTIONAL_MASK,
            VARIABLE_LENGTH_ONION_REQUIRED_MASK | VARIABLE_LENGTH_ONION_OPTIONAL_MASK
                | PAYMENT_SECRET_REQUIRED_MASK | PAYMENT_SECRET_OPTIONAL_MASK,
            BASIC_MPP_REQUIRED_MASK | BASIC_MPP_OPTIONAL_MASK,
        ]
    }

    proof fn lemma_known_flags_within_mask() {
        lemma_node_context_table();
        assert(0x22u8 & !0x33u8 == 0 && 0x82u8 & !0xC3u8 == 0 && 0x02u8 & !0x03u8 == 0)
            by (bit_vector);
        assert forall|i: int|
            #![trigger Self::spec_known_feature_flags()[i]]
            0 <= i < Self::spec_known_feature_flags().len() implies Self::spec_known_feature_flags()[i]
            & !Self::spec_known_feature_mask()[i] == 0 by {
            if i == 0 {
            } else if i == 1 {
            } else {
                assert(i == 2);
            }
        }
    }

    fn known_feature_flags() -> (v: Vec<u8>) {
        let mut v: Vec<u8> = Vec::new();
        v.push(DATA_LOSS_PROTECT_OPTIONAL_MASK | UPFRONT_SHUTDOWN_SCRIPT_OPTIONAL_MASK);
        v.push(VARIABLE_LENGTH_ONION_OPTIONAL_MASK | PAYMENT_SECRET_OPTIONAL_MASK);
        v.push(BASIC_MPP_OPTIONAL_MASK);
        proof {
            assert(v@ =~= Self::spec_known_feature_flags());
        }
        v
    }

    fn known_feature_mask() -> (v: Vec<u8>) {
        let mut v: Vec<u8> = Vec::new();
        v.push(
            DATA_LOSS_PROTECT_REQUIRED_MASK | DATA_LOSS_PROTECT_OPTIONAL_MASK
                | UPFRONT_SHUTDOWN_SCRIPT_REQUIRED_MASK | UPFRONT_SHUTDOWN_SCRIPT_OPTIONAL_MASK,
        );
        v.push(
            VARIABLE_LENGTH_ONION_REQUIRED_MASK | VARIABLE_LENGTH_ONION_OPTIONAL_MASK
                | PAYMENT_SECRET_REQUIRED_MASK | PAYMENT_SECRET_OPTIONAL_MASK,
        );
        v.push(BASIC_MPP_REQUIRED_MASK | BASIC_MPP_OPTIONAL_MASK);
        proof {
            assert(v@ =~= Self::spec_known_feature_mask());
        }
        v
    }
}

impl Context for ChannelContext {
    open spec fn spec_known_feature_flags() -> Seq<u8> {
        Seq::empty()
    }

    open spec fn spec_known_feature_mask() -> Seq<u8> {
        Seq::empty()
    }

    proof fn lemma_known_flags_within_mask() {
    }

    fn known_feature_flags() -> (v: Vec<u8>) {
        let v: Vec<u8> = Vec::new();
        proof {
            assert(v@ =~= Self::spec_known_feature_flags());
        }
        v
    }

    fn known_feature_mask() -> (v: Vec<u8>) {
        let v: Vec<u8> = Vec::new();
        proof {
            assert(v@ =~= Self::spec_known_feature_mask());
        }
        v
    }
}

/// Byte values of the handshake context's tables.
pub proof fn lemma_init_context_table()
    ensures
        InitContext::spec_known_feature_flags() == seq![0x2Au8, 0x82u8, 0x02u8],
        InitContext::spec_known_feature_mask() == seq![0x3Fu8, 0xC3u8, 0x03u8],
{
    assert(0x02u8 | 0x08u8 | 0x20u8 == 0x2Au8 && 0x02u8 | 0x80u8 == 0x82u8
        && 0x01u8 | 0x02u8 | 0x04u8 | 0x08u8 | 0x10u8 | 0x20u8 == 0x3Fu8
        && 0x01u8 | 0x02u8 | 0x40u8 | 0x80u8 == 0xC3u8 && 0x01u8 | 0x02u8 == 0x03u8)
        by (bit_vector);
    assert(InitContext::spec_known_feature_flags() =~= seq![0x2Au8, 0x82u8, 0x02u8]);
    assert(InitContext::spec_known_feature_mask() =~= seq![0x3Fu8, 0xC3u8, 0x03u8]);
}

/// Byte values of the node-announcement context's tables.
pub proof fn lemma_node_context_table()
    ensures
        NodeContext::spec_known_feature_flags() == seq![0x22u8, 0x82u8, 0x02u8],
        NodeContext::spec_known_feature_mask() == seq![0x33u8, 0xC3u8, 0x03u8],
{
    assert(0x02u8 | 0x20u8 == 0x22u8 && 0x02u8 | 0x80u8 == 0x82u8
        && 0x01u8 | 0x02u8 | 0x10u8 | 0x20u8 == 0x33u8
        && 0x01u8 | 0x02u8 | 0x40u8 | 0x80u8 == 0xC3u8 && 0x01u8 | 0x02u8 == 0x03u8)
        by (bit_vector);
    assert(NodeContext::spec_known_feature_flags() =~= seq![0x22u8, 0x82u8, 0x02u8]);
    assert(NodeContext::spec_known_feature_mask() =~= seq![0x33u8, 0xC3u8, 0x03u8]);
}

/// `option_data_loss_protect` applies in this context. Implementing the trait
/// obliges the context to show that its known flags advertise the capability.
pub trait DataLossProtect: Context {
    /// The context's known feature flags advertise `option_data_loss_protect`.
    proof fn lemma_known_supports_data_loss_protect()
        ensures
            spec_supports_feature(
                Self::spec_known_feature_flags(),
                DATA_LOSS_PROTECT_BYTE_OFFSET as int,
                DATA_LOSS_PROTECT_REQUIRED_MASK,
                DATA_LOSS_PROTECT_OPTIONAL_MASK,
            ),
    ;
}

/// `initial_routing_sync` applies in this context.
pub trait InitialRoutingSync: Context {
    /// The context's known feature flags advertise `initial_routing_sync`.
    proof fn lemma_known_supports_initial_routing_sync()
        ensures
            spec_supports_feature(
                Self::spec_known_feature_flags(),
                INITIAL_ROUTING_SYNC_BYTE_OFFSET as int,
                INITIAL_ROUTING_SYNC_REQUIRED_MASK,
                INITIAL_ROUTING_SYNC_OPTIONAL_MASK,
            ),
    ;
}

/// `option_upfront_shutdown_script` applies in this context.
pub trait UpfrontShutdownScript: Context {
    /// The context's known feature flags advertise
    /// `option_upfront_shutdown_script`.
    proof fn lemma_known_supports_upfront_shutdown_script()
        ensures
            spec_supports_feature(
                Self::spec_known_feature_flags(),
                UPFRONT_SHUTDOWN_SCRIPT_BYTE_OFFSET as int,
                UPFRONT_SHUTDOWN_SCRIPT_REQUIRED_MASK,
                UPFRONT_SHUTDOWN_SCRIPT_OPTIONAL_MASK,
            ),
    ;
}

/// `var_onion_optin` applies in this context.
pub trait VariableLengthOnion: Context {
    /// The context's known feature flags advertise `var_onion_optin`.
    proof fn lemma_known_supports_variable_length_onion()
        ensures
            spec_supports_feature(
                Self::spec_known_feature_flags(),
                VARIABLE_LENGTH_ONION_BYTE_OFFSET as int,
                VARIABLE_LENGTH_ONION_REQUIRED_MASK,
                VARIABLE_LENGTH_ONION_OPTIONAL_MASK,
            ),
    ;
}

/// `payment_secret` applies in this context.
pub trait PaymentSecret: Context {
    /// The context's known feature flags advertise `payment_secret`.
    proof fn lemma_known_supports_payment_secret()
        ensures
            spec_supports_feature(
                Self::spec_known_feature_flags(),
                PAYMENT_SECRET_BYTE_OFFSET as int,
                PAYMENT_SECRET_REQUIRED_MASK,
                PAYMENT_SECRET_OPTIONAL_MASK,
            ),
    ;
}

/// `basic_mpp` applies in this context.
pub trait BasicMPP: Context {
    /// The context's known feature flags advertise `basic_mpp`.
    proof fn lemma_known_supports_basic_mpp()
        ensures
            spec_supports_feature(
                Self::spec_known_feature_flags(),
                BASIC_MPP_BYTE_OFFSET as int,
                BASIC_MPP_REQUIRED_MASK,
                BASIC_MPP_OPTIONAL_MASK,
            ),
    ;
}

/// The capability bits that the handshake context's known flag bytes carry.
proof fn lemma_init_capability_bits()
    ensures
        0x2Au8 & (0x01u8 | 0x02u8) != 0,
        0x2Au8 & (0x04u8 | 0x08u8) != 0,
        0x2Au8 & (0x10u8 | 0x20u8) != 0,
        0x82u8 & (0x01u8 | 0x02u8) != 0,
        0x82u8 & (0x40u8 | 0x80u8) != 0,
        0x02u8 & (0x01u8 | 0x02u8) != 0,
{
    assert(0x2Au8 & (0x01u8 | 0x02u8) != 0 && 0x2Au8 & (0x04u8 | 0x08u8) != 0
        && 0x2Au8 & (0x10u8 | 0x20u8) != 0 && 0x82u8 & (0x01u8 | 0x02u8) != 0
        && 0x82u8 & (0x40u8 | 0x80u8) != 0 && 0x02u8 & (0x01u8 | 0x02u8) != 0) by (bit_vector);
}

/// The capability bits that the node context's known flag bytes carry.
proof fn lemma_node_capability_bits()
    ensures
        0x22u8 & (0x01u8 | 0x02u8) != 0,
        0x22u8 & (0x10u8 | 0x20u8) != 0,
        0x82u8 & (0x01u8 | 0x02u8) != 0,
        0x82u8 & (0x40u8 | 0x80u8) != 0,
        0x02u8 & (0x01u8 | 0x02u8) != 0,
{
    assert(0x22u8 & (0x01u8 | 0x02u8) != 0 && 0x22u8 & (0x10u8 | 0x20u8) != 0
        && 0x82u8 & (0x01u8 | 0x02u8) != 0 && 0x82u8 & (0x40u8 | 0x80u8) != 0
        && 0x02u8 & (0x01u8 | 0x02u8) != 0) by (bit_vector);
}

impl DataLossProtect for InitContext {
    proof fn lemma_known_supports_data_loss_protect() {
        lemma_init_context_table();
        lemma_init_capability_bits();
    }
}

impl InitialRoutingSync for InitContext {
    proof fn lemma_known_supports_initial_routing_sync() {
        lemma_init_context_table();
        lemma_init_capability_bits();
    }
}

impl UpfrontShutdownScript for InitContext {
    proof fn lemma_known_supports_upfront_shutdown_script() {
        lemma_init_context_table();
        lemma_init_capability_bits();
    }
}

impl VariableLengthOnion for InitContext {
    proof fn lemma_known_supports_variable_length_onion() {
        lemma_init_context_table();
        lemma_init_capability_bits();
    }
}

impl PaymentSecret for InitContext {
    proof fn lemma_known_supports_payment_secret() {
        lemma_init_context_table();
        lemma_init_capability_bits();
    }
}

impl BasicMPP for InitContext {
    proof fn lemma_known_supports_basic_mpp() {
        lemma_init_context_table();
        lemma_init_capability_bits();
    }
}

impl DataLossProtect for NodeContext {
    proof fn lemma_known_supports_data_loss_protect() {
        lemma_node_context_table();
        lemma_node_capability_bits();
    }
}

impl UpfrontShutdownScript for NodeContext {
    proof fn lemma_known_supports_upfront_shutdown_script() {
        lemma_node_context_table();
        lemma_node_capability_bits();
    }
}

impl VariableLengthOnion for NodeContext {
    proof fn lemma_known_supports_variable_length_onion() {
        lemma_node_context_table();
        lemma_node_capability_bits();
    }
}

impl PaymentSecret for NodeContext {
    proof fn lemma_known_supports_payment_secret() {
        lemma_node_context_table();
        lemma_node_capability_bits();
    }
}

impl BasicMPP for NodeContext {
    proof fn lemma_known_supports_basic_mpp() {
        lemma_node_context_table();
        lemma_node_capability_bits();
    }
}

} // verus!
