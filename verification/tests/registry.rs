use poseidon_params::{
    build_parameter_set, build_variable_length_parameter_set, Arity, ParameterStore,
    PoseidonArity, PoseidonMDArity, PoseidonParams, MERKLE_TREE_ARITY,
    VARIABLE_LENGTH_ELEMENT_COUNT,
};

const SUPPORTED: [Arity; 7] = [
    Arity::A2,
    Arity::A4,
    Arity::A8,
    Arity::A11,
    Arity::A16,
    Arity::A24,
    Arity::A36,
];

const SUPPORTED_VALUES: [usize; 7] = [2, 4, 8, 11, 16, 24, 36];

#[test]
fn fresh_store_builds_on_first_access() {
    let mut store = ParameterStore::new();
    assert_eq!(store.construction_count(), 0);
    let set = store.get_or_init(Arity::A2);
    assert_eq!(set.arity, 2);
    assert_eq!(set.constant_length, None);
    assert!(matches!(set.payload, PoseidonParams::Arity2(_)));
    assert_eq!(store.construction_count(), 1);
}

#[test]
fn sequential_calls_construct_once() {
    let mut store = ParameterStore::new();
    let first_arity = store.get_or_init(Arity::A4).arity;
    assert_eq!(first_arity, 4);
    let second_arity = store.get_or_init(Arity::A4).arity;
    assert_eq!(second_arity, 4);
    assert_eq!(store.construction_count(), 1);
}

#[test]
fn fifty_first_accessors_construct_once() {
    let mut store = ParameterStore::new();
    let mut i: usize = 0;
    while i < 50 {
        let set = store.get_or_init(Arity::A8);
        assert_eq!(set.arity, 8);
        assert_eq!(set.constant_length, None);
        assert!(matches!(set.payload, PoseidonParams::Arity8(_)));
        i += 1;
    }
    assert_eq!(store.construction_count(), 1);
}

#[test]
fn scenario_four_eight_four() {
    let mut store = ParameterStore::new();
    let first = store.get_or_init(Arity::A4).arity;
    let second = store.get_or_init(Arity::A8).arity;
    let third = store.get_or_init(Arity::A4).arity;
    assert_eq!(first, 4);
    assert_eq!(second, 8);
    assert_eq!(third, 4);
    assert_ne!(first, second);
    assert_eq!(store.construction_count(), 2);
}

#[test]
fn every_supported_arity_has_its_own_set() {
    let mut store = ParameterStore::new();
    for (arity, expected) in SUPPORTED.iter().zip(SUPPORTED_VALUES.iter()) {
        let set = store.get_or_init(*arity);
        assert_eq!(set.arity, *expected);
        assert_eq!(set.constant_length, None);
    }
    assert_eq!(store.construction_count(), 7);
    for i in 0..SUPPORTED.len() {
        for j in 0..SUPPORTED.len() {
            if i != j {
                let left = store.get_or_init(SUPPORTED[i]).arity;
                let right = store.get_or_init(SUPPORTED[j]).arity;
                assert_ne!(left, right);
            }
        }
    }
    assert_eq!(store.construction_count(), 7);
}

#[test]
fn payload_variant_matches_arity() {
    let mut store = ParameterStore::new();
    assert!(matches!(
        store.get_or_init(Arity::A2).payload,
        PoseidonParams::Arity2(_)
    ));
    assert!(matches!(
        store.get_or_init(Arity::A4).payload,
        PoseidonParams::Arity4(_)
    ));
    assert!(matches!(
        store.get_or_init(Arity::A8).payload,
        PoseidonParams::Arity8(_)
    ));
    assert!(matches!(
        store.get_or_init(Arity::A11).payload,
        PoseidonParams::Arity11(_)
    ));
    assert!(matches!(
        store.get_or_init(Arity::A16).payload,
        PoseidonParams::Arity16(_)
    ));
    assert!(matches!(
        store.get_or_init(Arity::A24).payload,
        PoseidonParams::Arity24(_)
    ));
    assert!(matches!(
        store.get_or_init(Arity::A36).payload,
        PoseidonParams::Arity36(_)
    ));
}

#[test]
fn variable_length_set_is_distinct() {
    let mut store = ParameterStore::new();
    let var_arity;
    let var_length;
    {
        let var = store.get_or_init_variable_length();
        var_arity = var.arity;
        var_length = var.constant_length;
        assert!(var.is_constant_length());
        assert!(matches!(var.payload, PoseidonParams::ConstantLength15(_)));
    }
    assert_eq!(var_arity, VARIABLE_LENGTH_ELEMENT_COUNT);
    assert_eq!(var_length, Some(VARIABLE_LENGTH_ELEMENT_COUNT));
    assert_eq!(store.construction_count(), 1);
    for arity in SUPPORTED.iter() {
        let fixed = store.get_or_init(*arity);
        assert!(!fixed.is_constant_length());
        assert!(fixed.arity != var_arity || fixed.constant_length != var_length);
    }
}

#[test]
fn variable_length_memoized() {
    let mut store = ParameterStore::new();
    store.get_or_init_variable_length();
    store.get_or_init_variable_length();
    assert_eq!(store.construction_count(), 1);
}

#[test]
fn builds_are_deterministic_within_a_process() {
    let mut first_store = ParameterStore::new();
    let mut second_store = ParameterStore::new();
    let first = first_store.get_or_init(Arity::A11);
    let second = second_store.get_or_init(Arity::A11);
    assert_eq!(first.arity, second.arity);
    assert_eq!(first.constant_length, second.constant_length);
    assert!(matches!(first.payload, PoseidonParams::Arity11(_)));
    assert!(matches!(second.payload, PoseidonParams::Arity11(_)));
}

#[test]
fn direct_builders_label_their_output() {
    for (arity, expected) in SUPPORTED.iter().zip(SUPPORTED_VALUES.iter()) {
        let set = build_parameter_set(*arity);
        assert_eq!(set.arity, *expected);
        assert_eq!(set.constant_length, None);
    }
    let var = build_variable_length_parameter_set();
    assert_eq!(var.arity, VARIABLE_LENGTH_ELEMENT_COUNT);
    assert_eq!(var.constant_length, Some(VARIABLE_LENGTH_ELEMENT_COUNT));
}

#[test]
fn reserved_arity_is_unsupported() {
    assert!(!Arity::A0.is_supported());
    assert_eq!(Arity::A0.as_usize(), 0);
    for arity in SUPPORTED.iter() {
        assert!(arity.is_supported());
    }
}

#[test]
fn merkle_tree_arity_constant() {
    assert_eq!(MERKLE_TREE_ARITY, 2);
    assert_eq!(Arity::A2.as_usize(), MERKLE_TREE_ARITY);
}

#[test]
fn capability_resolves_to_the_right_entry() {
    let mut store = ParameterStore::new();
    assert_eq!(
        poseidon_params::U2::PARAMETERS(&mut store).arity,
        2
    );
    assert_eq!(
        poseidon_params::U4::PARAMETERS(&mut store).arity,
        4
    );
    assert_eq!(
        poseidon_params::U8::PARAMETERS(&mut store).arity,
        8
    );
    assert_eq!(
        poseidon_params::U11::PARAMETERS(&mut store).arity,
        11
    );
    assert_eq!(
        poseidon_params::U16::PARAMETERS(&mut store).arity,
        16
    );
    assert_eq!(
        poseidon_params::U24::PARAMETERS(&mut store).arity,
        24
    );
    assert_eq!(
        poseidon_params::U36::PARAMETERS(&mut store).arity,
        36
    );
    assert_eq!(store.construction_count(), 7);
}

#[test]
fn capability_and_store_share_entries() {
    let mut store = ParameterStore::new();
    store.get_or_init(Arity::A2);
    assert_eq!(store.construction_count(), 1);
    let via_tag = poseidon_params::PoseidonBinaryArity::PARAMETERS(&mut store).arity;
    assert_eq!(via_tag, 2);
    assert_eq!(store.construction_count(), 1);
}

#[test]
fn md_alias_binds_arity_thirty_six() {
    let mut store = ParameterStore::new();
    let set = PoseidonMDArity::PARAMETERS(&mut store);
    assert_eq!(set.arity, 36);
    assert!(matches!(set.payload, PoseidonParams::Arity36(_)));
}
