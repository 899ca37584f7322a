use sc2::float::Float;
use sc2::score::{Category, MissingScoreDetails, Score, ScoreType, Vital};
use sc2::wire;

fn float(value: f32) -> Float {
    Float::from_bits(value.to_bits())
}

fn zero_category() -> Category {
    Category {
        none: float(0.0),
        army: float(0.0),
        economy: float(0.0),
        technology: float(0.0),
        upgrade: float(0.0),
    }
}

fn zero_vital() -> Vital {
    Vital { life: float(0.0), shields: float(0.0), energy: float(0.0) }
}

#[test]
fn a_score_without_details_is_refused() {
    let score = wire::Score { score_type: Some(2), score: Some(1000), score_details: None };
    assert_eq!(Score::from_proto(&score), Err(MissingScoreDetails));
    assert_eq!(Score::from_proto(&wire::Score::default()), Err(MissingScoreDetails));
    assert_eq!(MissingScoreDetails.message(), "Score details not found");
}

#[test]
fn empty_details_decode_to_zeros() {
    let score = wire::Score {
        score_type: None,
        score: None,
        score_details: Some(wire::ScoreDetails::default()),
    };
    let decoded = Score::from_proto(&score).unwrap();
    assert_eq!(decoded.score_type, ScoreType::Curriculum);
    assert_eq!(decoded.total_score, 0);
    assert_eq!(decoded.idle_production_time, float(0.0));
    assert_eq!(decoded.current_effective_apm, float(0.0));
    assert_eq!(decoded.food_used, zero_category());
    assert_eq!(decoded.total_used_vespene, zero_category());
    assert_eq!(decoded.total_healed, zero_vital());
}

#[test]
fn a_score_decodes_field_by_field() {
    let category = |base: f32| wire::CategoryScoreDetails {
        none: Some(float(base)),
        army: Some(float(base + 1.0)),
        economy: Some(float(base + 2.0)),
        technology: Some(float(base + 3.0)),
        upgrade: Some(float(base + 4.0)),
    };
    let decoded_category = |base: f32| Category {
        none: float(base),
        army: float(base + 1.0),
        economy: float(base + 2.0),
        technology: float(base + 3.0),
        upgrade: float(base + 4.0),
    };
    let vital = |base: f32| wire::VitalScoreDetails {
        life: Some(float(base)),
        shields: Some(float(base + 0.25)),
        energy: Some(float(base + 0.5)),
    };
    let decoded_vital = |base: f32| Vital {
        life: float(base),
        shields: float(base + 0.25),
        energy: float(base + 0.5),
    };
    let score = wire::Score {
        score_type: Some(2),
        score: Some(-7),
        score_details: Some(wire::ScoreDetails {
            idle_production_time: Some(float(1.0)),
            idle_worker_time: Some(float(2.0)),
            total_value_units: Some(float(3.0)),
            total_value_structures: Some(float(4.0)),
            killed_value_units: Some(float(5.0)),
            killed_value_structures: Some(float(6.0)),
            collected_minerals: Some(float(7.0)),
            collected_vespene: Some(float(8.0)),
            collection_rate_minerals: Some(float(9.0)),
            collection_rate_vespene: Some(float(10.0)),
            spent_minerals: Some(float(11.0)),
            spent_vespene: Some(float(12.0)),
            food_used: Some(category(100.0)),
            killed_minerals: Some(category(110.0)),
            killed_vespene: Some(category(120.0)),
            lost_minerals: Some(category(130.0)),
            lost_vespene: Some(category(140.0)),
            friendly_fire_minerals: Some(category(150.0)),
            friendly_fire_vespene: Some(category(160.0)),
            used_minerals: Some(category(170.0)),
            used_vespene: Some(category(180.0)),
            total_used_minerals: Some(category(190.0)),
            total_used_vespene: None,
            total_damage_dealt: Some(vital(200.0)),
            total_damage_taken: Some(vital(210.0)),
            total_healed: None,
            current_apm: Some(float(13.0)),
            current_effective_apm: Some(float(14.0)),
        }),
    };
    assert_eq!(
        Score::from_proto(&score),
        Ok(Score {
            score_type: ScoreType::Melee,
            total_score: -7,
            idle_production_time: float(1.0),
            idle_worker_time: float(2.0),
            total_value_units: float(3.0),
            total_value_structures: float(4.0),
            killed_value_units: float(5.0),
            killed_value_structures: float(6.0),
            collected_minerals: float(7.0),
            collected_vespene: float(8.0),
            collection_rate_minerals: float(9.0),
            collection_rate_vespene: float(10.0),
            spent_minerals: float(11.0),
            spent_vespene: float(12.0),
            food_used: decoded_category(100.0),
            killed_minerals: decoded_category(110.0),
            killed_vespene: decoded_category(120.0),
            lost_minerals: decoded_category(130.0),
            lost_vespene: decoded_category(140.0),
            friendly_fire_minerals: decoded_category(150.0),
            friendly_fire_vespene: decoded_category(160.0),
            used_minerals: decoded_category(170.0),
            used_vespene: decoded_category(180.0),
            total_used_minerals: decoded_category(190.0),
            total_used_vespene: zero_category(),
            total_damage_dealt: decoded_vital(200.0),
            total_damage_taken: decoded_vital(210.0),
            total_healed: zero_vital(),
            current_apm: float(13.0),
            current_effective_apm: float(14.0),
        })
    );
}

#[test]
fn parts_left_out_are_zero() {
    let category = Category::from_proto(&wire::CategoryScoreDetails {
        army: Some(float(3.5)),
        ..Default::default()
    });
    assert_eq!(category, Category { army: float(3.5), ..zero_category() });
    let vital = Vital::from_proto(&wire::VitalScoreDetails {
        energy: Some(float(-2.0)),
        ..Default::default()
    });
    assert_eq!(vital, Vital { energy: float(-2.0), ..zero_vital() });
}

#[test]
fn score_types_follow_the_schema() {
    assert_eq!(ScoreType::from_proto(1), ScoreType::Curriculum);
    assert_eq!(ScoreType::from_proto(2), ScoreType::Melee);
    assert_eq!(ScoreType::from_proto(0), ScoreType::Curriculum);
    assert_eq!(ScoreType::from_proto(3), ScoreType::Curriculum);
    assert_eq!(ScoreType::default(), ScoreType::Curriculum);
    assert!(ScoreType::Curriculum.is_curriculum());
    assert!(!ScoreType::Curriculum.is_melee());
    assert!(ScoreType::Melee.is_melee());
    assert!(!ScoreType::Melee.is_curriculum());
}
