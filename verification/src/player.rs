//! Who takes part in a game: races, player kinds and the settings of computer opponents.
//!
//! The engine sends each of these as the number of a value of its schema. A number
//! that the schema does not hold, as a newer engine may send, reads as the schema's
//! default, the first value it declares.

use vstd::prelude::*;

verus! {

/// A race a player can choose.
#[derive(Clone, Copy, Debug, PartialEq, Eq, Hash, Structural)]
pub enum Race {
    Terran,
    Zerg,
    Protoss,
    Random,
}

impl Race {
    /// The race for a number of the schema: 1 is Terran, 2 Zerg, 3 Protoss and 4 Random.
    /// The schema's default, "no race", and every other number read as `Random`.
    pub open spec fn of_code(code: i32) -> Race {
        match code {
            1 => Race::Terran,
            2 => Race::Zerg,
            3 => Race::Protoss,
            _ => Race::Random,
        }
    }

    pub fn from_proto(code: i32) -> (race: Race)
        ensures
            race == Race::of_code(code),
    {
        match code {
            1 => Race::Terran,
            2 => Race::Zerg,
            3 => Race::Protoss,
            _ => Race::Random,
        }
    }
}

impl Default for Race {
    fn default() -> (race: Race)
        ensures
            race == Race::Random,
    {
        Race::Random
    }
}

/// The kind of a player.
#[derive(Clone, Copy, Debug, PartialEq, Eq, Hash, Structural)]
pub enum PlayerType {
    /// A human or a bot that plays through the interface.
    Participant,
    /// The engine's built-in opponent.
    Computer,
    /// A spectator.
    Observer,
}

impl PlayerType {
    /// The kind for a number of the schema: 1 is a participant, 2 a computer and
    /// 3 an observer. Every other number reads as the default, a participant.
    pub open spec fn of_code(code: i32) -> PlayerType {
        match code {
            2 => PlayerType::Computer,
            3 => PlayerType::Observer,
            _ => PlayerType::Participant,
        }
    }

    pub fn from_proto(code: i32) -> (kind: PlayerType)
        ensures
            kind == PlayerType::of_code(code),
    {
        match code {
            2 => PlayerType::Computer,
            3 => PlayerType::Observer,
            _ => PlayerType::Participant,
        }
    }
}

/// The strength of a computer opponent.
#[derive(Clone, Copy, Debug, PartialEq, Eq, Hash, Structural)]
pub enum Difficulty {
    VeryEasy,
    Easy,
    Medium,
    MediumHard,
    Hard,
    Harder,
    VeryHard,
    CheatVision,
    CheatMoney,
    CheatInsane,
}

impl Difficulty {
    /// The difficulty for a number of the schema, which counts them from 1 in the
    /// order of declaration. Every other number reads as the default, `VeryEasy`.
    pub open spec fn of_code(code: i32) -> Difficulty {
        match code {
            2 => Difficulty::Easy,
            3 => Difficulty::Medium,
            4 => Difficulty::MediumHard,
            5 => Difficulty::Hard,
            6 => Difficulty::Harder,
            7 => Difficulty::VeryHard,
            8 => Difficulty::CheatVision,
            9 => Difficulty::CheatMoney,
            10 => Difficulty::CheatInsane,
            _ => Difficulty::VeryEasy,
        }
    }

    pub fn from_proto(code: i32) -> (difficulty: Difficulty)
        ensures
            difficulty == Difficulty::of_code(code),
    {
        match code {
            2 => Difficulty::Easy,
            3 => Difficulty::Medium,
            4 => Difficulty::MediumHard,
            5 => Difficulty::Hard,
            6 => Difficulty::Harder,
            7 => Difficulty::VeryHard,
            8 => Difficulty::CheatVision,
            9 => Difficulty::CheatMoney,
            10 => Difficulty::CheatInsane,
            _ => Difficulty::VeryEasy,
        }
    }
}

/// The opening that a computer opponent follows.
#[derive(Clone, Copy, Debug, PartialEq, Eq, Hash, Structural)]
pub enum AIBuild {
    RandomBuild,
    Rush,
    Timing,
    Power,
    Macro,
    Air,
}

impl AIBuild {
    /// The build for a number of the schema, which counts them from 1 in the order
    /// of declaration. Every other number reads as the default, `RandomBuild`.
    pub open spec fn of_code(code: i32) -> AIBuild {
        match code {
            2 => AIBuild::Rush,
            3 => AIBuild::Timing,
            4 => AIBuild::Power,
            5 => AIBuild::Macro,
            6 => AIBuild::Air,
            _ => AIBuild::RandomBuild,
        }
    }

    pub fn from_proto(code: i32) -> (build: AIBuild)
        ensures
            build == AIBuild::of_code(code),
    {
        match code {
            2 => AIBuild::Rush,
            3 => AIBuild::Timing,
            4 => AIBuild::Power,
            5 => AIBuild::Macro,
            6 => AIBuild::Air,
            _ => AIBuild::RandomBuild,
        }
    }
}

} // verus!
