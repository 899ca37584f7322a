use sc2::ids::{
    AbilityId, BuffId, EffectId, UnitTypeId, UpgradeId, ABILITY_ID_COUNT, BUFF_ID_COUNT,
    EFFECT_ID_COUNT, UNIT_TYPE_ID_COUNT, UPGRADE_ID_COUNT,
};

#[test]
fn known_codes_resolve_to_themselves() {
    for code in 0..ABILITY_ID_COUNT {
        assert_eq!(AbilityId::from_u32(code).unwrap().to_u32(), code);
    }
    for code in 0..UNIT_TYPE_ID_COUNT {
        assert_eq!(UnitTypeId::from_u32(code).unwrap().to_u32(), code);
    }
    for code in 0..UPGRADE_ID_COUNT {
        assert_eq!(UpgradeId::from_u32(code).unwrap().to_u32(), code);
    }
    for code in 0..BUFF_ID_COUNT {
        assert_eq!(BuffId::from_u32(code).unwrap().to_u32(), code);
    }
    for code in 0..EFFECT_ID_COUNT {
        assert_eq!(EffectId::from_u32(code).unwrap().to_u32(), code);
    }
}

#[test]
fn unknown_codes_do_not_resolve() {
    assert_eq!(AbilityId::from_u32(3797), None);
    assert_eq!(UnitTypeId::from_u32(1943), None);
    assert_eq!(UpgradeId::from_u32(296), None);
    assert_eq!(BuffId::from_u32(289), None);
    assert_eq!(EffectId::from_u32(13), None);
    assert_eq!(AbilityId::from_u32(u32::MAX), None);
    assert_eq!(EffectId::from_u32(u32::MAX), None);
}

#[test]
fn last_known_codes_resolve() {
    assert_eq!(AbilityId::from_u32(3796).unwrap().to_u32(), 3796);
    assert_eq!(UnitTypeId::from_u32(1942).unwrap().to_u32(), 1942);
    assert_eq!(UpgradeId::from_u32(295).unwrap().to_u32(), 295);
    assert_eq!(BuffId::from_u32(288).unwrap().to_u32(), 288);
    assert_eq!(EffectId::from_u32(12), Some(EffectId::LurkerMP));
}

#[test]
fn effects_have_the_engine_codes() {
    assert_eq!(EffectId::from_u32(0), Some(EffectId::Null));
    assert_eq!(EffectId::from_u32(1), Some(EffectId::PsiStormPersistent));
    assert_eq!(EffectId::from_u32(6), Some(EffectId::ScannerSweep));
    assert_eq!(EffectId::from_u32(7), Some(EffectId::NukePersistent));
    assert_eq!(EffectId::from_u32(11), Some(EffectId::RavagerCorrosiveBileCP));
    assert_eq!(EffectId::BlindingCloudCP.to_u32(), 10);
    assert_eq!(EffectId::GuardianShieldPersistent.to_u32(), 2);
}

#[test]
fn optional_fields_resolve_or_vanish() {
    assert_eq!(AbilityId::from_field(None), None);
    assert_eq!(AbilityId::from_field(Some(5000)), None);
    assert_eq!(AbilityId::from_field(Some(16)), AbilityId::from_u32(16));
    assert_eq!(UnitTypeId::from_field(Some(48)).unwrap().to_u32(), 48);
    assert_eq!(EffectId::from_field(Some(6)), Some(EffectId::ScannerSweep));
}

#[test]
fn identifiers_with_the_same_code_are_equal() {
    assert_eq!(UnitTypeId::from_u32(48), UnitTypeId::from_u32(48));
    assert_ne!(UnitTypeId::from_u32(48), UnitTypeId::from_u32(49));
}
