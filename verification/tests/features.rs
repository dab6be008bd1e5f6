use lightning_features::{ChannelFeatures, Features, InitFeatures, NodeFeatures};

#[test]
fn sanity_test_our_features() {
    assert!(!ChannelFeatures::known().requires_unknown_bits());
    assert!(!ChannelFeatures::known().supports_unknown_bits());
    assert!(!InitFeatures::known().requires_unknown_bits());
    assert!(!InitFeatures::known().supports_unknown_bits());
    assert!(!NodeFeatures::known().requires_unknown_bits());
    assert!(!NodeFeatures::known().supports_unknown_bits());

    assert!(InitFeatures::known().supports_upfront_shutdown_script());
    assert!(NodeFeatures::known().supports_upfront_shutdown_script());

    assert!(InitFeatures::known().supports_data_loss_protect());
    assert!(NodeFeatures::known().supports_data_loss_protect());

    assert!(InitFeatures::known().supports_variable_length_onion());
    assert!(NodeFeatures::known().supports_variable_length_onion());

    assert!(InitFeatures::known().supports_payment_secret());
    assert!(NodeFeatures::known().supports_payment_secret());

    assert!(InitFeatures::known().supports_basic_mpp());
    assert!(NodeFeatures::known().supports_basic_mpp());

    let mut init_features = InitFeatures::known();
    assert!(init_features.initial_routing_sync());
    init_features.clear_initial_routing_sync();
    assert!(!init_features.initial_routing_sync());
}

#[test]
fn sanity_test_unkown_bits_testing() {
    let mut features = ChannelFeatures::known();
    features.set_require_unknown_bits();
    assert!(features.requires_unknown_bits());
    features.clear_require_unknown_bits();
    assert!(!features.requires_unknown_bits());
}

#[test]
fn test_node_with_known_relevant_init_flags() {
    // Create an InitFeatures with initial_routing_sync supported.
    let init_features = InitFeatures::known();
    assert!(init_features.initial_routing_sync());

    // Attempt to pull out non-node-context feature flags from these InitFeatures.
    let res = NodeFeatures::with_known_relevant_init_flags(&init_features);

    {
        // Check that the flags are as expected: optional_data_loss_protect,
        // option_upfront_shutdown_script, var_onion_optin, payment_secret, and
        // basic_mpp.
        assert_eq!(res.le_flags().len(), 3);
        assert_eq!(res.le_flags()[0], 0b00100010);
        assert_eq!(res.le_flags()[1], 0b10000010);
        assert_eq!(res.le_flags()[2], 0b00000010);
    }

    // Check that the initial_routing_sync feature was correctly blanked out.
    let new_features: InitFeatures = Features::from_le_bytes(res.le_flags().clone());
    assert!(!new_features.initial_routing_sync());
}

#[test]
fn known_init_flag_bytes() {
    let known = InitFeatures::known();
    assert_eq!(known.byte_count(), 3);
    assert_eq!(known.le_flags()[0], 0b00101010);
    assert_eq!(known.le_flags()[1], 0b10000010);
    assert_eq!(known.le_flags()[2], 0b00000010);
}

#[test]
fn empty_has_no_bytes_and_supports_nothing() {
    let empty = InitFeatures::empty();
    assert_eq!(empty.byte_count(), 0);
    assert!(empty.le_flags().is_empty());
    assert!(!empty.supports_data_loss_protect());
    assert!(!empty.supports_upfront_shutdown_script());
    assert!(!empty.supports_variable_length_onion());
    assert!(!empty.supports_payment_secret());
    assert!(!empty.supports_basic_mpp());
    assert!(!empty.initial_routing_sync());
    assert!(!empty.requires_unknown_bits());
    assert!(!empty.supports_unknown_bits());
}

#[test]
fn clone_and_equality_compare_bytes_only() {
    let a = InitFeatures::known();
    let b = a.clone();
    assert!(a == b);
    assert!(a != InitFeatures::empty());

    let c: InitFeatures = Features::from_le_bytes(vec![0x2A, 0x82, 0x02]);
    assert!(a == c);
}

#[test]
fn set_then_clear_initial_routing_sync() {
    let mut features = InitFeatures::empty();
    features.set_initial_routing_sync();
    assert_eq!(features.le_flags().clone(), vec![0b00001000]);
    assert!(features.initial_routing_sync());
    features.clear_initial_routing_sync();
    assert_eq!(features.le_flags().clone(), vec![0b00000000]);
    assert!(!features.initial_routing_sync());
}

#[test]
fn unset_upfront_shutdown_script_clears_both_bits() {
    let mut features: InitFeatures = Features::from_le_bytes(vec![0b00110010]);
    assert!(features.supports_upfront_shutdown_script());
    features.unset_upfront_shutdown_script();
    assert_eq!(features.le_flags().clone(), vec![0b00000010]);
    assert!(!features.supports_upfront_shutdown_script());
    assert!(features.supports_data_loss_protect());
}

#[test]
fn set_then_clear_require_unknown_bits_trims_to_one_zero_byte() {
    let mut features = ChannelFeatures::empty();
    features.set_require_unknown_bits();
    assert_eq!(features.le_flags().clone(), vec![0x00, 0x00, 0x40]);
    features.clear_require_unknown_bits();
    assert_eq!(features.le_flags().clone(), vec![0x00]);
    assert!(!features.requires_unknown_bits());
    assert!(!features.supports_unknown_bits());
}

#[test]
fn unknown_bit_detection_beyond_mask() {
    // Bit 24 (even) lies beyond every context's three mask bytes.
    let even: NodeFeatures = Features::from_le_bytes(vec![0, 0, 0, 0x01]);
    assert!(even.supports_unknown_bits());
    assert!(even.requires_unknown_bits());

    // Bit 25 (odd) is reported as unknown but not as required.
    let odd: NodeFeatures = Features::from_le_bytes(vec![0, 0, 0, 0x02]);
    assert!(odd.supports_unknown_bits());
    assert!(!odd.requires_unknown_bits());

    // The channel context knows nothing, so even bit 0 is unknown there.
    let low: ChannelFeatures = Features::from_le_bytes(vec![0x01]);
    assert!(low.supports_unknown_bits());
    assert!(low.requires_unknown_bits());
}

#[test]
fn projection_drops_bytes_beyond_target_mask() {
    let wide: InitFeatures = Features::from_le_bytes(vec![0xFF, 0xFF, 0xFF, 0xFF, 0xFF]);
    let projected = NodeFeatures::with_known_relevant_init_flags(&wide);
    assert_eq!(projected.le_flags().clone(), vec![0x33, 0xC3, 0x03]);
}
