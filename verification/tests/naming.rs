use sc2::naming::{checker_name, checker_name_with, name_from_words, WORD};

fn name(variant: &str) -> String {
    checker_name(variant).unwrap()
}

#[test]
fn accessors_are_named_in_snake_case() {
    assert_eq!(name("Light"), "is_light");
    assert_eq!(name("PointOrUnit"), "is_point_or_unit");
    assert_eq!(name("CheatVision"), "is_cheat_vision");
    assert_eq!(name("Curriculum"), "is_curriculum");
    assert_eq!(name("MediumHard"), "is_medium_hard");
}

#[test]
fn upper_case_letters_and_digits_start_words() {
    assert_eq!(name("BlindingCloudCP"), "is_blinding_cloud_c_p");
    assert_eq!(name("Level2Armor"), "is_level2_armor");
    assert_eq!(name("2Fast"), "is_2_fast");
    assert_eq!(name("AIBuild"), "is_a_i_build");
    assert_eq!(name("X"), "is_x");
    assert_eq!(name("A1b2"), "is_a1b2");
}

#[test]
fn what_starts_no_word_is_left_out() {
    assert_eq!(name(""), "is_");
    assert_eq!(name("lower"), "is_");
    assert_eq!(name("lowerThenUpper"), "is_then_upper");
    assert_eq!(name("With_Underscore"), "is_with_underscore");
}

#[test]
fn words_are_joined_in_lower_case() {
    let words = vec!["Point".to_string(), "OR".to_string(), "unit9".to_string()];
    assert_eq!(name_from_words(&words), "is_point_or_unit9");
    assert_eq!(name_from_words(&["One".to_string()].to_vec()), "is_one");
    assert_eq!(name_from_words(&Vec::new()), "is_");
    assert_eq!(name_from_words(&["É".to_string(), "Z".to_string()].to_vec()), "is_É_z");
}

#[test]
fn another_pattern_cuts_other_words() {
    assert_eq!(checker_name_with("[a-z]+", "oneTWOthree"), Some("is_one_three".to_string()));
    assert_eq!(checker_name_with(WORD, "TargetType"), Some("is_target_type".to_string()));
}

#[test]
fn a_pattern_that_is_no_pattern_gives_no_name() {
    assert_eq!(checker_name_with("[A-Z", "Light"), None);
    assert_eq!(checker_name_with("(", "Light"), None);
}
