use std::str::FromStr;

use revm::primitives::hardfork::SpecId;
use taiko_revm::spec::{name, EthSpecId, TaikoSpecId};

fn eth(spec: SpecId) -> EthSpecId {
    EthSpecId { id: spec as u8 }
}

#[test]
fn test_taiko_spec_id_eth_spec_compatibility() {
    // Define test cases: (TaikoSpecId, enabled in ETH specs, enabled in Taiko specs)
    let test_cases = [(
        TaikoSpecId::ONTAKE,
        vec![
            (SpecId::MERGE, true),
            (SpecId::SHANGHAI, true),
            (SpecId::CANCUN, false),
            (SpecId::default(), false),
        ],
        vec![
            (TaikoSpecId::KATLA, true),
            (TaikoSpecId::HEKLA, true),
            (TaikoSpecId::ONTAKE, true),
            (TaikoSpecId::PACAYA, false),
        ],
    )];

    for (taiko_spec, eth_tests, taiko_tests) in test_cases {
        // Test ETH spec compatibility
        for (eth_spec, expected) in eth_tests {
            assert_eq!(
                taiko_spec.into_eth_spec().is_enabled_in(eth(eth_spec)),
                expected,
                "{:?} should {} be enabled in ETH {:?}",
                taiko_spec,
                if expected { "" } else { "not " },
                eth_spec
            );
        }

        // Test Taiko spec compatibility
        for (other_taiko_spec, expected) in taiko_tests {
            assert_eq!(
                taiko_spec.is_enabled_in(other_taiko_spec),
                expected,
                "{:?} should {} be enabled in OP {:?}",
                taiko_spec,
                if expected { "" } else { "not " },
                other_taiko_spec
            );
        }
    }
}

#[test]
fn eth_spec_is_revm_shanghai() {
    assert_eq!(EthSpecId::SHANGHAI_ID, SpecId::SHANGHAI as u8);
    for spec in [
        TaikoSpecId::KATLA,
        TaikoSpecId::HEKLA,
        TaikoSpecId::ONTAKE,
        TaikoSpecId::PACAYA,
    ] {
        let eth_spec = spec.into_eth_spec();
        assert_eq!(SpecId::try_from_u8(eth_spec.id), Some(SpecId::SHANGHAI));
        // The order agrees with revm's own `is_enabled_in`.
        for other in [SpecId::FRONTIER, SpecId::LONDON, SpecId::SHANGHAI, SpecId::CANCUN, SpecId::OSAKA] {
            assert_eq!(
                eth_spec.is_enabled_in(eth(other)),
                SpecId::SHANGHAI.is_enabled_in(other)
            );
        }
    }
}

#[test]
fn taiko_forks_are_ordered() {
    let all = [
        TaikoSpecId::KATLA,
        TaikoSpecId::HEKLA,
        TaikoSpecId::ONTAKE,
        TaikoSpecId::PACAYA,
    ];
    for (i, a) in all.iter().enumerate() {
        assert_eq!(a.ordinal(), i as u8);
        assert!(a.is_enabled_in(*a));
        for (j, b) in all.iter().enumerate() {
            assert_eq!(a.is_enabled_in(*b), j <= i);
        }
    }
    assert!(TaikoSpecId::PACAYA.is_enabled_in(TaikoSpecId::KATLA));
    assert!(!TaikoSpecId::KATLA.is_enabled_in(TaikoSpecId::HEKLA));
}

#[test]
fn fork_names_round_trip() {
    for spec in [
        TaikoSpecId::KATLA,
        TaikoSpecId::HEKLA,
        TaikoSpecId::ONTAKE,
        TaikoSpecId::PACAYA,
    ] {
        let s: &'static str = spec.into();
        assert_eq!(s, spec.name());
        assert_eq!(TaikoSpecId::from_str(s).ok(), Some(spec));
        assert_eq!(TaikoSpecId::from_name(s), Some(spec));
    }
    assert_eq!(TaikoSpecId::KATLA.name(), "Katla");
    assert_eq!(TaikoSpecId::HEKLA.name(), "Hekla");
    assert_eq!(TaikoSpecId::ONTAKE.name(), "Ontake");
    assert_eq!(TaikoSpecId::PACAYA.name(), "Pacaya");
    assert_eq!(name::PACAYA, "Pacaya");
}

#[test]
fn unknown_fork_names_are_rejected() {
    for s in ["", "katla", "KATLA", "Katl", "Katlaa", "Shanghai", "Pacaya ", "Ontake\0"] {
        assert!(TaikoSpecId::from_str(s).is_err(), "{s:?} should not parse");
        assert_eq!(TaikoSpecId::from_name(s), None);
    }
}
