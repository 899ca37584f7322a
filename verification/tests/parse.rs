use sc2::ids::{AbilityId, BuffId, EffectId, UnitTypeId, UpgradeId};
use sc2::parse::{number_into_code, ParseEnumError};
use sc2::player::{AIBuild, Difficulty, Race};

#[test]
fn races_parse_from_their_names() {
    assert_eq!(Race::from_name("Terran"), Ok(Race::Terran));
    assert_eq!(Race::from_name("Zerg"), Ok(Race::Zerg));
    assert_eq!(Race::from_name("Protoss"), Ok(Race::Protoss));
    assert_eq!(Race::from_name("Random"), Ok(Race::Random));
    assert_eq!("Zerg".parse::<Race>(), Ok(Race::Zerg));
}

#[test]
fn other_texts_are_refused() {
    assert_eq!(Race::from_name("terran"), Err(ParseEnumError));
    assert_eq!(Race::from_name(""), Err(ParseEnumError));
    assert_eq!(Race::from_name("Terran "), Err(ParseEnumError));
    assert_eq!("Human".parse::<Race>(), Err(ParseEnumError));
    assert_eq!(Difficulty::from_name("Impossible"), Err(ParseEnumError));
    assert_eq!(AIBuild::from_name("Random"), Err(ParseEnumError));
    assert_eq!(EffectId::from_name("nuke"), Err(ParseEnumError));
}

#[test]
fn difficulties_parse_from_their_names() {
    let all = [
        ("VeryEasy", Difficulty::VeryEasy),
        ("Easy", Difficulty::Easy),
        ("Medium", Difficulty::Medium),
        ("MediumHard", Difficulty::MediumHard),
        ("Hard", Difficulty::Hard),
        ("Harder", Difficulty::Harder),
        ("VeryHard", Difficulty::VeryHard),
        ("CheatVision", Difficulty::CheatVision),
        ("CheatMoney", Difficulty::CheatMoney),
        ("CheatInsane", Difficulty::CheatInsane),
    ];
    for (name, difficulty) in all {
        assert_eq!(Difficulty::from_name(name), Ok(difficulty));
        assert_eq!(name.parse::<Difficulty>(), Ok(difficulty));
        assert_eq!(format!("{:?}", difficulty), name);
    }
}

#[test]
fn builds_parse_from_their_names() {
    let all = [
        ("RandomBuild", AIBuild::RandomBuild),
        ("Rush", AIBuild::Rush),
        ("Timing", AIBuild::Timing),
        ("Power", AIBuild::Power),
        ("Macro", AIBuild::Macro),
        ("Air", AIBuild::Air),
    ];
    for (name, build) in all {
        assert_eq!(AIBuild::from_name(name), Ok(build));
        assert_eq!(name.parse::<AIBuild>(), Ok(build));
    }
}

#[test]
fn effects_parse_from_their_names() {
    for code in 0..13 {
        let effect = EffectId::from_u32(code).unwrap();
        let name = format!("{:?}", effect);
        assert_eq!(EffectId::from_name(&name), Ok(effect));
        assert_eq!(name.parse::<EffectId>(), Ok(effect));
    }
    assert_eq!(EffectId::from_name("NukePersistent"), Ok(EffectId::NukePersistent));
}

#[test]
fn the_error_says_what_failed() {
    assert_eq!(ParseEnumError.message(), "failed to parse enum");
}

#[test]
fn identifiers_parse_from_their_codes() {
    assert_eq!(AbilityId::from_name("16"), Ok(AbilityId::from_u32(16).unwrap()));
    assert_eq!(AbilityId::from_name("3796"), Ok(AbilityId::from_u32(3796).unwrap()));
    assert_eq!(UnitTypeId::from_name("48"), Ok(UnitTypeId::from_u32(48).unwrap()));
    assert_eq!(UpgradeId::from_name("+15"), Ok(UpgradeId::from_u32(15).unwrap()));
    assert_eq!(BuffId::from_name("0"), Ok(BuffId::from_u32(0).unwrap()));
    assert_eq!("0027".parse::<BuffId>(), Ok(BuffId::from_u32(27).unwrap()));
    assert_eq!("1942".parse::<UnitTypeId>(), Ok(UnitTypeId::from_u32(1942).unwrap()));
    assert_eq!("7".parse::<AbilityId>(), Ok(AbilityId::from_u32(7).unwrap()));
    assert_eq!("7".parse::<UpgradeId>(), Ok(UpgradeId::from_u32(7).unwrap()));
}

#[test]
fn effects_parse_from_their_codes_too() {
    assert_eq!(EffectId::from_name("7"), Ok(EffectId::NukePersistent));
    assert_eq!(EffectId::from_name("0"), Ok(EffectId::Null));
    assert_eq!("12".parse::<EffectId>(), Ok(EffectId::LurkerMP));
    assert_eq!(EffectId::from_name("13"), Err(ParseEnumError));
    assert_eq!(EffectId::from_name("-1"), Err(ParseEnumError));
}

#[test]
fn codes_outside_the_space_are_refused() {
    assert_eq!(AbilityId::from_name("3797"), Err(ParseEnumError));
    assert_eq!(UnitTypeId::from_name("1943"), Err(ParseEnumError));
    assert_eq!(UpgradeId::from_name("296"), Err(ParseEnumError));
    assert_eq!(BuffId::from_name("289"), Err(ParseEnumError));
    assert_eq!(AbilityId::from_name("-1"), Err(ParseEnumError));
    assert_eq!(AbilityId::from_name("4294967296"), Err(ParseEnumError));
    assert_eq!(AbilityId::from_name("99999999999999999999999"), Err(ParseEnumError));
}

#[test]
fn texts_that_are_no_numbers_are_refused() {
    assert_eq!(AbilityId::from_name(""), Err(ParseEnumError));
    assert_eq!(AbilityId::from_name("Attack"), Err(ParseEnumError));
    assert_eq!(UnitTypeId::from_name("4 8"), Err(ParseEnumError));
    assert_eq!(UnitTypeId::from_name("48.0"), Err(ParseEnumError));
    assert_eq!(BuffId::from_name("0x1b"), Err(ParseEnumError));
}

#[test]
fn parsed_numbers_are_codes_where_they_fit() {
    assert_eq!(number_into_code(None), None);
    assert_eq!(number_into_code(Some(0)), Some(0));
    assert_eq!(number_into_code(Some(4_294_967_295)), Some(u32::MAX));
    assert_eq!(number_into_code(Some(4_294_967_296)), None);
    assert_eq!(number_into_code(Some(-1)), None);
    assert_eq!(number_into_code(Some(i64::MIN)), None);
    assert_eq!(number_into_code(Some(i64::MAX)), None);
    assert_eq!(AbilityId::from_number(Some(16)), Ok(AbilityId::from_u32(16).unwrap()));
    assert_eq!(AbilityId::from_number(None), Err(ParseEnumError));
    assert_eq!(EffectId::from_number(Some(6)), Ok(EffectId::ScannerSweep));
    assert_eq!(EffectId::from_number(Some(13)), Err(ParseEnumError));
    assert_eq!(UnitTypeId::from_number(Some(-48)), Err(ParseEnumError));
    assert_eq!(UpgradeId::from_number(Some(295)), Ok(UpgradeId::from_u32(295).unwrap()));
    assert_eq!(BuffId::from_number(Some(289)), Err(ParseEnumError));
}

#[test]
fn a_sign_needs_digits_behind_it() {
    assert_eq!(BuffId::from_name("+"), Err(ParseEnumError));
    assert_eq!(BuffId::from_name("-"), Err(ParseEnumError));
    assert_eq!(BuffId::from_name("+-5"), Err(ParseEnumError));
    assert_eq!(BuffId::from_name("--5"), Err(ParseEnumError));
    assert_eq!(BuffId::from_name("5+"), Err(ParseEnumError));
    assert_eq!(BuffId::from_name(" 5"), Err(ParseEnumError));
    assert_eq!(BuffId::from_name("5_0"), Err(ParseEnumError));
    assert_eq!(BuffId::from_name("٥"), Err(ParseEnumError));
}

#[test]
fn zeros_in_front_do_not_count() {
    assert_eq!(BuffId::from_name("-0"), Ok(BuffId::from_u32(0).unwrap()));
    assert_eq!(BuffId::from_name("+0"), Ok(BuffId::from_u32(0).unwrap()));
    assert_eq!(
        BuffId::from_name("0000000000000000000000000000027"),
        Ok(BuffId::from_u32(27).unwrap())
    );
    assert_eq!(EffectId::from_name("+007"), Ok(EffectId::NukePersistent));
    assert_eq!(BuffId::from_name("9223372036854775807"), Err(ParseEnumError));
    assert_eq!(BuffId::from_name("9223372036854775808"), Err(ParseEnumError));
    assert_eq!(BuffId::from_name("-9223372036854775808"), Err(ParseEnumError));
    assert_eq!(BuffId::from_name("-9223372036854775809"), Err(ParseEnumError));
}
