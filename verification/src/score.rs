//! The score of a step.
//!
//! The engine attaches a score to every observation: a total, its kind, and the
//! details it was computed from. A score without details breaks the engine's
//! contract, and decoding it fails rather than filling the details with zeros.

use crate::float::Float;
use crate::wire;
use crate::wire::{code_or_default, float_or_zero, take_code, take_float};
use vstd::prelude::*;

verus! {

/// The kind of a score.
#[derive(Clone, Copy, Debug, PartialEq, Eq, Structural)]
pub enum ScoreType {
    /// A score that the map computes.
    Curriculum,
    /// The value of what the player owns and has gathered.
    Melee,
}

impl ScoreType {
    /// The kind for a number of the schema: 1 is curriculum and 2 melee. Every other
    /// number reads as the default, `Curriculum`.
    pub open spec fn of_code(code: i32) -> ScoreType {
        match code {
            2 => ScoreType::Melee,
            _ => ScoreType::Curriculum,
        }
    }

    pub fn from_proto(code: i32) -> (score_type: ScoreType)
        ensures
            score_type == ScoreType::of_code(code),
    {
        match code {
            2 => ScoreType::Melee,
            _ => ScoreType::Curriculum,
        }
    }

    #[inline]
    pub fn is_curriculum(self) -> (is: bool)
        ensures
            is == (self == ScoreType::Curriculum),
    {
        matches!(self, ScoreType::Curriculum)
    }

    #[inline]
    pub fn is_melee(self) -> (is: bool)
        ensures
            is == (self == ScoreType::Melee),
    {
        matches!(self, ScoreType::Melee)
    }
}

impl Default for ScoreType {
    fn default() -> (score_type: ScoreType)
        ensures
            score_type == ScoreType::Curriculum,
    {
        ScoreType::Curriculum
    }
}

/// A score split by the category of what it counts.
#[derive(Clone, Copy, Debug, PartialEq, Eq, Structural)]
pub struct Category {
    /// What belongs to no category.
    pub none: Float,
    pub army: Float,
    pub economy: Float,
    pub technology: Float,
    pub upgrade: Float,
}

impl Category {
    /// What a record of the wire schema decodes to. A part that was left out is zero.
    pub open spec fn of(category: wire::CategoryScoreDetails) -> Category {
        Category {
            none: float_or_zero(category.none),
            army: float_or_zero(category.army),
            economy: float_or_zero(category.economy),
            technology: float_or_zero(category.technology),
            upgrade: float_or_zero(category.upgrade),
        }
    }

    /// What an optional record decodes to. A record that was left out reads as one
    /// with every part left out.
    pub open spec fn of_field(field: Option<wire::CategoryScoreDetails>) -> Category {
        match field {
            Some(category) => Category::of(category),
            None => Category::of(
                wire::CategoryScoreDetails {
                    none: None,
                    army: None,
                    economy: None,
                    technology: None,
                    upgrade: None,
                },
            ),
        }
    }

    pub fn from_proto(category: &wire::CategoryScoreDetails) -> (decoded: Category)
        ensures
            decoded == Category::of(*category),
    {
        Category {
            none: take_float(category.none),
            army: take_float(category.army),
            economy: take_float(category.economy),
            technology: take_float(category.technology),
            upgrade: take_float(category.upgrade),
        }
    }

    fn from_field(field: &Option<wire::CategoryScoreDetails>) -> (decoded: Category)
        ensures
            decoded == Category::of_field(*field),
    {
        match field {
            Some(category) => Category::from_proto(category),
            None => Category {
                none: Float::zero(),
                army: Float::zero(),
                economy: Float::zero(),
                technology: Float::zero(),
                upgrade: Float::zero(),
            },
        }
    }
}

/// A score split by the vital it concerns.
#[derive(Clone, Copy, Debug, PartialEq, Eq, Structural)]
pub struct Vital {
    pub life: Float,
    pub shields: Float,
    pub energy: Float,
}

impl Vital {
    /// What a record of the wire schema decodes to. A part that was left out is zero.
    pub open spec fn of(vital: wire::VitalScoreDetails) -> Vital {
        Vital {
            life: float_or_zero(vital.life),
            shields: float_or_zero(vital.shields),
            energy: float_or_zero(vital.energy),
        }
    }

    /// What an optional record decodes to. A record that was left out reads as one
    /// with every part left out.
    pub open spec fn of_field(field: Option<wire::VitalScoreDetails>) -> Vital {
        match field {
            Some(vital) => Vital::of(vital),
            None => Vital::of(wire::VitalScoreDetails { life: None, shields: None, energy: None }),
        }
    }

    pub fn from_proto(vital: &wire::VitalScoreDetails) -> (decoded: Vital)
        ensures
            decoded == Vital::of(*vital),
    {
        Vital {
            life: take_float(vital.life),
            shields: take_float(vital.shields),
            energy: take_float(vital.energy),
        }
    }

    fn from_field(field: &Option<wire::VitalScoreDetails>) -> (decoded: Vital)
        ensures
            decoded == Vital::of_field(*field),
    {
        match field {
            Some(vital) => Vital::from_proto(vital),
            None => Vital { life: Float::zero(), shields: Float::zero(), energy: Float::zero() },
        }
    }
}

/// A score arrived without its details.
#[derive(Clone, Copy, Debug, PartialEq, Eq, Structural)]
pub struct MissingScoreDetails;

impl MissingScoreDetails {
    /// What went wrong, in words.
    pub fn message(&self) -> (message: &'static str)
        ensures
            message@ == "Score details not found"@,
    {
        "Score details not found"
    }
}

/// The score of a step, with its details.
#[derive(Clone, Copy, Debug, PartialEq, Eq, Structural)]
pub struct Score {
    pub score_type: ScoreType,
    pub total_score: i32,
    pub idle_production_time: Float,
    pub idle_worker_time: Float,
    pub total_value_units: Float,
    pub total_value_structures: Float,
    pub killed_value_units: Float,
    pub killed_value_structures: Float,
    pub collected_minerals: Float,
    pub collected_vespene: Float,
    pub collection_rate_minerals: Float,
    pub collection_rate_vespene: Float,
    pub spent_minerals: Float,
    pub spent_vespene: Float,
    pub food_used: Category,
    pub killed_minerals: Category,
    pub killed_vespene: Category,
    pub lost_minerals: Category,
    pub lost_vespene: Category,
    pub friendly_fire_minerals: Category,
    pub friendly_fire_vespene: Category,
    pub used_minerals: Category,
    pub used_vespene: Category,
    pub total_used_minerals: Category,
    pub total_used_vespene: Category,
    pub total_damage_dealt: Vital,
    pub total_damage_taken: Vital,
    pub total_healed: Vital,
    pub current_apm: Float,
    pub current_effective_apm: Float,
}

impl Score {
    /// What a score of the wire schema and its details decode to.
    pub open spec fn of(score: wire::Score, details: wire::ScoreDetails) -> Score {
        Score {
            score_type: ScoreType::of_code(code_or_default(score.score_type)),
            total_score: score.score.unwrap_or(0),
            idle_production_time: float_or_zero(details.idle_production_time),
            idle_worker_time: float_or_zero(details.idle_worker_time),
            total_value_units: float_or_zero(details.total_value_units),
            total_value_structures: float_or_zero(details.total_value_structures),
            killed_value_units: float_or_zero(details.killed_value_units),
            killed_value_structures: float_or_zero(details.killed_value_structures),
            collected_minerals: float_or_zero(details.collected_minerals),
            collected_vespene: float_or_zero(details.collected_vespene),
            collection_rate_minerals: float_or_zero(details.collection_rate_minerals),
            collection_rate_vespene: float_or_zero(details.collection_rate_vespene),
            spent_minerals: float_or_zero(details.spent_minerals),
            spent_vespene: float_or_zero(details.spent_vespene),
            food_used: Category::of_field(details.food_used),
            killed_minerals: Category::of_field(details.killed_minerals),
            killed_vespene: Category::of_field(details.killed_vespene),
            lost_minerals: Category::of_field(details.lost_minerals),
            lost_vespene: Category::of_field(details.lost_vespene),
            friendly_fire_minerals: Category::of_field(details.friendly_fire_minerals),
            friendly_fire_vespene: Category::of_field(details.friendly_fire_vespene),
            used_minerals: Category::of_field(details.used_minerals),
            used_vespene: Category::of_field(details.used_vespene),
            total_used_minerals: Category::of_field(details.total_used_minerals),
            total_used_vespene: Category::of_field(details.total_used_vespene),
            total_damage_dealt: Vital::of_field(details.total_damage_dealt),
            total_damage_taken: Vital::of_field(details.total_damage_taken),
            total_healed: Vital::of_field(details.total_healed),
            current_apm: float_or_zero(details.current_apm),
            current_effective_apm: float_or_zero(details.current_effective_apm),
        }
    }

    /// Decodes a score. This fails exactly where the score has no details.
    pub fn from_proto(score: &wire::Score) -> (decoded: Result<Score, MissingScoreDetails>)
        ensures
            decoded == match score.score_details {
                Some(details) => Ok::<Score, MissingScoreDetails>(Score::of(*score, details)),
                None => Err::<Score, MissingScoreDetails>(MissingScoreDetails),
            },
    {
        let details = match &score.score_details {
            Some(details) => details,
            None => {
                return Err(MissingScoreDetails);
            },
        };
        Ok(
            Score {
                score_type: ScoreType::from_proto(take_code(score.score_type)),
                total_score: match score.score {
                    Some(total) => total,
                    None => 0,
                },
                idle_production_time: take_float(details.idle_production_time),
                idle_worker_time: take_float(details.idle_worker_time),
                total_value_units: take_float(details.total_value_units),
                total_value_structures: take_float(details.total_value_structures),
                killed_value_units: take_float(details.killed_value_units),
                killed_value_structures: take_float(details.killed_value_structures),
                collected_minerals: take_float(details.collected_minerals),
                collected_vespene: take_float(details.collected_vespene),
                collection_rate_minerals: take_float(details.collection_rate_minerals),
                collection_rate_vespene: take_float(details.collection_rate_vespene),
                spent_minerals: take_float(details.spent_minerals),
                spent_vespene: take_float(details.spent_vespene),
                food_used: Category::from_field(&details.food_used),
                killed_minerals: Category::from_field(&details.killed_minerals),
                killed_vespene: Category::from_field(&details.killed_vespene),
                lost_minerals: Category::from_field(&details.lost_minerals),
                lost_vespene: Category::from_field(&details.lost_vespene),
                friendly_fire_minerals: Category::from_field(&details.friendly_fire_minerals),
                friendly_fire_vespene: Category::from_field(&details.friendly_fire_vespene),
                used_minerals: Category::from_field(&details.used_minerals),
                used_vespene: Category::from_field(&details.used_vespene),
                total_used_minerals: Category::from_field(&details.total_used_minerals),
                total_used_vespene: Category::from_field(&details.total_used_vespene),
                total_damage_dealt: Vital::from_field(&details.total_damage_dealt),
                total_damage_taken: Vital::from_field(&details.total_damage_taken),
                total_healed: Vital::from_field(&details.total_healed),
                current_apm: take_float(details.current_apm),
                current_effective_apm: take_float(details.current_effective_apm),
            },
        )
    }
}

} // verus!
