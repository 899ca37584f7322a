use sc2::player::{AIBuild, Difficulty, PlayerType, Race};

#[test]
fn races_follow_the_schema() {
    assert_eq!(Race::from_proto(1), Race::Terran);
    assert_eq!(Race::from_proto(2), Race::Zerg);
    assert_eq!(Race::from_proto(3), Race::Protoss);
    assert_eq!(Race::from_proto(4), Race::Random);
}

#[test]
fn no_race_and_unknown_races_are_random() {
    assert_eq!(Race::from_proto(0), Race::Random);
    assert_eq!(Race::from_proto(5), Race::Random);
    assert_eq!(Race::from_proto(-1), Race::Random);
    assert_eq!(Race::default(), Race::Random);
}

#[test]
fn player_types_follow_the_schema() {
    assert_eq!(PlayerType::from_proto(1), PlayerType::Participant);
    assert_eq!(PlayerType::from_proto(2), PlayerType::Computer);
    assert_eq!(PlayerType::from_proto(3), PlayerType::Observer);
    assert_eq!(PlayerType::from_proto(0), PlayerType::Participant);
    assert_eq!(PlayerType::from_proto(4), PlayerType::Participant);
}

#[test]
fn difficulties_follow_the_schema() {
    let all = [
        Difficulty::VeryEasy,
        Difficulty::Easy,
        Difficulty::Medium,
        Difficulty::MediumHard,
        Difficulty::Hard,
        Difficulty::Harder,
        Difficulty::VeryHard,
        Difficulty::CheatVision,
        Difficulty::CheatMoney,
        Difficulty::CheatInsane,
    ];
    for (index, difficulty) in all.iter().enumerate() {
        assert_eq!(Difficulty::from_proto(index as i32 + 1), *difficulty);
    }
    assert_eq!(Difficulty::from_proto(0), Difficulty::VeryEasy);
    assert_eq!(Difficulty::from_proto(11), Difficulty::VeryEasy);
}

#[test]
fn builds_follow_the_schema() {
    let all = [
        AIBuild::RandomBuild,
        AIBuild::Rush,
        AIBuild::Timing,
        AIBuild::Power,
        AIBuild::Macro,
        AIBuild::Air,
    ];
    for (index, build) in all.iter().enumerate() {
        assert_eq!(AIBuild::from_proto(index as i32 + 1), *build);
    }
    assert_eq!(AIBuild::from_proto(0), AIBuild::RandomBuild);
    assert_eq!(AIBuild::from_proto(7), AIBuild::RandomBuild);
}
