//! Reading the values of an enumeration from text.
//!
//! A value is written as the name of its variant, letter for letter. An identifier
//! can be written as its code too, in decimal digits. Any other text is refused with
//! a [`ParseEnumError`].

use crate::ids::{AbilityId, BuffId, EffectId, UnitTypeId, UpgradeId};
use crate::player::{AIBuild, Difficulty, Race};
use std::str::FromStr;
use vstd::prelude::*;

verus! {

/// A text that names no value of the enumeration.
#[derive(Clone, Copy, Debug, PartialEq, Eq, Structural)]
pub struct ParseEnumError;

impl ParseEnumError {
    /// What went wrong, in words.
    pub fn message(&self) -> (message: &'static str)
        ensures
            message@ == "failed to parse enum"@,
    {
        "failed to parse enum"
    }
}

/// `str::eq`: two texts are equal exactly if they hold the same characters.
#[verifier::external_body]
fn same_text(left: &str, right: &str) -> (same: bool)
    ensures
        same == (left@ == right@),
{
    left == right
}

/// Whether a character is one of the ten decimal digits.
pub open spec fn is_digit(letter: char) -> bool {
    '0' <= letter <= '9'
}

/// Whether a text is made of decimal digits only.
pub open spec fn all_digits(digits: Seq<char>) -> bool {
    forall|i: int| 0 <= i < digits.len() ==> is_digit(#[trigger] digits[i])
}

/// The number that a text of decimal digits writes.
pub open spec fn decimal_value(digits: Seq<char>) -> nat
    decreases digits.len(),
{
    if digits.len() == 0 {
        0
    } else {
        (decimal_value(digits.drop_last()) * 10 + (digits.last() as int - '0' as int)) as nat
    }
}

/// What `str::parse` reads a text as, where the target is `i64`: the text is one
/// or more decimal digits, with or without a `+` or `-` in front, and nothing
/// else; it reads as the number it writes where that number fits, and as `None`
/// otherwise.
pub open spec fn parsed_i64(text: Seq<char>) -> Option<i64> {
    let signed = text.len() > 0 && (text[0] == '+' || text[0] == '-');
    let digits = if signed {
        text.skip(1)
    } else {
        text
    };
    let value = if signed && text[0] == '-' {
        -(decimal_value(digits) as int)
    } else {
        decimal_value(digits) as int
    };
    if digits.len() > 0 && all_digits(digits) && i64::MIN <= value <= i64::MAX {
        Some(value as i64)
    } else {
        None
    }
}

/// `str::parse::<i64>`, with the error dropped.
#[verifier::external_body]
fn parse_i64(text: &str) -> (number: Option<i64>)
    ensures
        number == parsed_i64(text@),
{
    match text.parse::<i64>() {
        Ok(number) => Some(number),
        Err(_) => None,
    }
}

/// The code that a parsed number gives: the number itself where it is one.
pub open spec fn code_of_number(number: Option<i64>) -> Option<u32> {
    match number {
        Some(code) => if 0 <= code <= u32::MAX {
            Some(code as u32)
        } else {
            None
        },
        None => None,
    }
}

/// The code that a parsed number gives.
pub fn number_into_code(number: Option<i64>) -> (code: Option<u32>)
    ensures
        code == code_of_number(number),
{
    match number {
        Some(code) => if 0 <= code && code <= 0xffff_ffff {
            Some(code as u32)
        } else {
            None
        },
        None => None,
    }
}

impl Race {
    /// The race that a text names: the one whose variant is written so.
    pub open spec fn named(text: Seq<char>) -> Result<Race, ParseEnumError> {
        if text == "Terran"@ {
            Ok(Race::Terran)
        } else if text == "Zerg"@ {
            Ok(Race::Zerg)
        } else if text == "Protoss"@ {
            Ok(Race::Protoss)
        } else if text == "Random"@ {
            Ok(Race::Random)
        } else {
            Err(ParseEnumError)
        }
    }

    /// Reads a race from the name of its variant.
    pub fn from_name(s: &str) -> (parsed: Result<Race, ParseEnumError>)
        ensures
            parsed == Race::named(s@),
    {
        if same_text(s, "Terran") {
            Ok(Race::Terran)
        } else if same_text(s, "Zerg") {
            Ok(Race::Zerg)
        } else if same_text(s, "Protoss") {
            Ok(Race::Protoss)
        } else if same_text(s, "Random") {
            Ok(Race::Random)
        } else {
            Err(ParseEnumError)
        }
    }
}

impl FromStr for Race {
    type Err = ParseEnumError;

    fn from_str(s: &str) -> (parsed: Result<Race, ParseEnumError>)
        ensures
            parsed == Race::named(s@),
    {
        Race::from_name(s)
    }
}

impl Difficulty {
    /// The difficulty that a text names: the one whose variant is written so.
    pub open spec fn named(text: Seq<char>) -> Result<Difficulty, ParseEnumError> {
        if text == "VeryEasy"@ {
            Ok(Difficulty::VeryEasy)
        } else if text == "Easy"@ {
            Ok(Difficulty::Easy)
        } else if text == "Medium"@ {
            Ok(Difficulty::Medium)
        } else if text == "MediumHard"@ {
            Ok(Difficulty::MediumHard)
        } else if text == "Hard"@ {
            Ok(Difficulty::Hard)
        } else if text == "Harder"@ {
            Ok(Difficulty::Harder)
        } else if text == "VeryHard"@ {
            Ok(Difficulty::VeryHard)
        } else if text == "CheatVision"@ {
            Ok(Difficulty::CheatVision)
        } else if text == "CheatMoney"@ {
            Ok(Difficulty::CheatMoney)
        } else if text == "CheatInsane"@ {
            Ok(Difficulty::CheatInsane)
        } else {
            Err(ParseEnumError)
        }
    }

    /// Reads a difficulty from the name of its variant.
    pub fn from_name(s: &str) -> (parsed: Result<Difficulty, ParseEnumError>)
        ensures
            parsed == Difficulty::named(s@),
    {
        if same_text(s, "VeryEasy") {
            Ok(Difficulty::VeryEasy)
        } else if same_text(s, "Easy") {
            Ok(Difficulty::Easy)
        } else if same_text(s, "Medium") {
            Ok(Difficulty::Medium)
        } else if same_text(s, "MediumHard") {
            Ok(Difficulty::MediumHard)
        } else if same_text(s, "Hard") {
            Ok(Difficulty::Hard)
        } else if same_text(s, "Harder") {
            Ok(Difficulty::Harder)
        } else if same_text(s, "VeryHard") {
            Ok(Difficulty::VeryHard)
        } else if same_text(s, "CheatVision") {
            Ok(Difficulty::CheatVision)
        } else if same_text(s, "CheatMoney") {
            Ok(Difficulty::CheatMoney)
        } else if same_text(s, "CheatInsane") {
            Ok(Difficulty::CheatInsane)
        } else {
            Err(ParseEnumError)
        }
    }
}

impl FromStr for Difficulty {
    type Err = ParseEnumError;

    fn from_str(s: &str) -> (parsed: Result<Difficulty, ParseEnumError>)
        ensures
            parsed == Difficulty::named(s@),
    {
        Difficulty::from_name(s)
    }
}

impl AIBuild {
    /// The build that a text names: the one whose variant is written so.
    pub open spec fn named(text: Seq<char>) -> Result<AIBuild, ParseEnumError> {
        if text == "RandomBuild"@ {
            Ok(AIBuild::RandomBuild)
        } else if text == "Rush"@ {
            Ok(AIBuild::Rush)
        } else if text == "Timing"@ {
            Ok(AIBuild::Timing)
        } else if text == "Power"@ {
            Ok(AIBuild::Power)
        } else if text == "Macro"@ {
            Ok(AIBuild::Macro)
        } else if text == "Air"@ {
            Ok(AIBuild::Air)
        } else {
            Err(ParseEnumError)
        }
    }

    /// Reads a build from the name of its variant.
    pub fn from_name(s: &str) -> (parsed: Result<AIBuild, ParseEnumError>)
        ensures
            parsed == AIBuild::named(s@),
    {
        if same_text(s, "RandomBuild") {
            Ok(AIBuild::RandomBuild)
        } else if same_text(s, "Rush") {
            Ok(AIBuild::Rush)
        } else if same_text(s, "Timing") {
            Ok(AIBuild::Timing)
        } else if same_text(s, "Power") {
            Ok(AIBuild::Power)
        } else if same_text(s, "Macro") {
            Ok(AIBuild::Macro)
        } else if same_text(s, "Air") {
            Ok(AIBuild::Air)
        } else {
            Err(ParseEnumError)
        }
    }
}

impl FromStr for AIBuild {
    type Err = ParseEnumError;

    fn from_str(s: &str) -> (parsed: Result<AIBuild, ParseEnumError>)
        ensures
            parsed == AIBuild::named(s@),
    {
        AIBuild::from_name(s)
    }
}

impl EffectId {
    /// The effect that a text names: the one whose variant is written so, or else
    /// the one that the text, read as a number, gives the code of.
    pub open spec fn named(text: Seq<char>, number: Option<i64>) -> Result<EffectId, ParseEnumError> {
        if text == "Null"@ {
            Ok(EffectId::Null)
        } else if text == "PsiStormPersistent"@ {
            Ok(EffectId::PsiStormPersistent)
        } else if text == "GuardianShieldPersistent"@ {
            Ok(EffectId::GuardianShieldPersistent)
        } else if text == "TemporalFieldGrowingBubbleCreatePersistent"@ {
            Ok(EffectId::TemporalFieldGrowingBubbleCreatePersistent)
        } else if text == "TemporalFieldAfterBubbleCreatePersistent"@ {
            Ok(EffectId::TemporalFieldAfterBubbleCreatePersistent)
        } else if text == "ThermalLancesForward"@ {
            Ok(EffectId::ThermalLancesForward)
        } else if text == "ScannerSweep"@ {
            Ok(EffectId::ScannerSweep)
        } else if text == "NukePersistent"@ {
            Ok(EffectId::NukePersistent)
        } else if text == "LiberatorTargetMorphDelayPersistent"@ {
            Ok(EffectId::LiberatorTargetMorphDelayPersistent)
        } else if text == "LiberatorTargetMorphPersistent"@ {
            Ok(EffectId::LiberatorTargetMorphPersistent)
        } else if text == "BlindingCloudCP"@ {
            Ok(EffectId::BlindingCloudCP)
        } else if text == "RavagerCorrosiveBileCP"@ {
            Ok(EffectId::RavagerCorrosiveBileCP)
        } else if text == "LurkerMP"@ {
            Ok(EffectId::LurkerMP)
        } else {
            EffectId::numbered(number)
        }
    }

    /// The effect that a parsed number names: the one with this code.
    pub open spec fn numbered(number: Option<i64>) -> Result<EffectId, ParseEnumError> {
        match EffectId::of_field(code_of_number(number)) {
            Some(id) => Ok(id),
            None => Err(ParseEnumError),
        }
    }

    /// Reads an effect from a parsed number.
    pub fn from_number(number: Option<i64>) -> (parsed: Result<EffectId, ParseEnumError>)
        ensures
            parsed == EffectId::numbered(number),
    {
        match EffectId::from_field(number_into_code(number)) {
            Some(id) => Ok(id),
            None => Err(ParseEnumError),
        }
    }

    /// Reads an effect from the name of its variant or from its code, written in
    /// decimal digits.
    pub fn from_name(s: &str) -> (parsed: Result<EffectId, ParseEnumError>)
        ensures
            parsed == EffectId::named(s@, parsed_i64(s@)),
    {
        if same_text(s, "Null") {
            Ok(EffectId::Null)
        } else if same_text(s, "PsiStormPersistent") {
            Ok(EffectId::PsiStormPersistent)
        } else if same_text(s, "GuardianShieldPersistent") {
            Ok(EffectId::GuardianShieldPersistent)
        } else if same_text(s, "TemporalFieldGrowingBubbleCreatePersistent") {
            Ok(EffectId::TemporalFieldGrowingBubbleCreatePersistent)
        } else if same_text(s, "TemporalFieldAfterBubbleCreatePersistent") {
            Ok(EffectId::TemporalFieldAfterBubbleCreatePersistent)
        } else if same_text(s, "ThermalLancesForward") {
            Ok(EffectId::ThermalLancesForward)
        } else if same_text(s, "ScannerSweep") {
            Ok(EffectId::ScannerSweep)
        } else if same_text(s, "NukePersistent") {
            Ok(EffectId::NukePersistent)
        } else if same_text(s, "LiberatorTargetMorphDelayPersistent") {
            Ok(EffectId::LiberatorTargetMorphDelayPersistent)
        } else if same_text(s, "LiberatorTargetMorphPersistent") {
            Ok(EffectId::LiberatorTargetMorphPersistent)
        } else if same_text(s, "BlindingCloudCP") {
            Ok(EffectId::BlindingCloudCP)
        } else if same_text(s, "RavagerCorrosiveBileCP") {
            Ok(EffectId::RavagerCorrosiveBileCP)
        } else if same_text(s, "LurkerMP") {
            Ok(EffectId::LurkerMP)
        } else {
            EffectId::from_number(parse_i64(s))
        }
    }
}

impl FromStr for EffectId {
    type Err = ParseEnumError;

    fn from_str(s: &str) -> (parsed: Result<EffectId, ParseEnumError>)
        ensures
            parsed == EffectId::named(s@, parsed_i64(s@)),
    {
        EffectId::from_name(s)
    }
}

impl AbilityId {
    /// The ability that a parsed number names: the one with this code.
    pub open spec fn numbered(number: Option<i64>) -> Result<AbilityId, ParseEnumError> {
        match AbilityId::of_field(code_of_number(number)) {
            Some(id) => Ok(id),
            None => Err(ParseEnumError),
        }
    }

    /// Reads an ability from a parsed number.
    pub fn from_number(number: Option<i64>) -> (parsed: Result<AbilityId, ParseEnumError>)
        ensures
            parsed == AbilityId::numbered(number),
    {
        match AbilityId::from_field(number_into_code(number)) {
            Some(id) => Ok(id),
            None => Err(ParseEnumError),
        }
    }

    /// Reads an ability from its code, written in decimal digits.
    pub fn from_name(s: &str) -> (parsed: Result<AbilityId, ParseEnumError>)
        ensures
            parsed == AbilityId::numbered(parsed_i64(s@)),
    {
        AbilityId::from_number(parse_i64(s))
    }
}

impl FromStr for AbilityId {
    type Err = ParseEnumError;

    fn from_str(s: &str) -> (parsed: Result<AbilityId, ParseEnumError>)
        ensures
            parsed == AbilityId::numbered(parsed_i64(s@)),
    {
        AbilityId::from_name(s)
    }
}

impl UnitTypeId {
    /// The unit type that a parsed number names: the one with this code.
    pub open spec fn numbered(number: Option<i64>) -> Result<UnitTypeId, ParseEnumError> {
        match UnitTypeId::of_field(code_of_number(number)) {
            Some(id) => Ok(id),
            None => Err(ParseEnumError),
        }
    }

    /// Reads an unit type from a parsed number.
    pub fn from_number(number: Option<i64>) -> (parsed: Result<UnitTypeId, ParseEnumError>)
        ensures
            parsed == UnitTypeId::numbered(number),
    {
        match UnitTypeId::from_field(number_into_code(number)) {
            Some(id) => Ok(id),
            None => Err(ParseEnumError),
        }
    }

    /// Reads an unit type from its code, written in decimal digits.
    pub fn from_name(s: &str) -> (parsed: Result<UnitTypeId, ParseEnumError>)
        ensures
            parsed == UnitTypeId::numbered(parsed_i64(s@)),
    {
        UnitTypeId::from_number(parse_i64(s))
    }
}

impl FromStr for UnitTypeId {
    type Err = ParseEnumError;

    fn from_str(s: &str) -> (parsed: Result<UnitTypeId, ParseEnumError>)
        ensures
            parsed == UnitTypeId::numbered(parsed_i64(s@)),
    {
        UnitTypeId::from_name(s)
    }
}

impl UpgradeId {
    /// The upgrade that a parsed number names: the one with this code.
    pub open spec fn numbered(number: Option<i64>) -> Result<UpgradeId, ParseEnumError> {
        match UpgradeId::of_field(code_of_number(number)) {
            Some(id) => Ok(id),
            None => Err(ParseEnumError),
        }
    }

    /// Reads an upgrade from a parsed number.
    pub fn from_number(number: Option<i64>) -> (parsed: Result<UpgradeId, ParseEnumError>)
        ensures
            parsed == UpgradeId::numbered(number),
    {
        match UpgradeId::from_field(number_into_code(number)) {
            Some(id) => Ok(id),
            None => Err(ParseEnumError),
        }
    }

    /// Reads an upgrade from its code, written in decimal digits.
    pub fn from_name(s: &str) -> (parsed: Result<UpgradeId, ParseEnumError>)
        ensures
            parsed == UpgradeId::numbered(parsed_i64(s@)),
    {
        UpgradeId::from_number(parse_i64(s))
    }
}

impl FromStr for UpgradeId {
    type Err = ParseEnumError;

    fn from_str(s: &str) -> (parsed: Result<UpgradeId, ParseEnumError>)
        ensures
            parsed == UpgradeId::numbered(parsed_i64(s@)),
    {
        UpgradeId::from_name(s)
    }
}

impl BuffId {
    /// The buff that a parsed number names: the one with this code.
    pub open spec fn numbered(number: Option<i64>) -> Result<BuffId, ParseEnumError> {
        match BuffId::of_field(code_of_number(number)) {
            Some(id) => Ok(id),
            None => Err(ParseEnumError),
        }
    }

    /// Reads a buff from a parsed number.
    pub fn from_number(number: Option<i64>) -> (parsed: Result<BuffId, ParseEnumError>)
        ensures
            parsed == BuffId::numbered(number),
    {
        match BuffId::from_field(number_into_code(number)) {
            Some(id) => Ok(id),
            None => Err(ParseEnumError),
        }
    }

    /// Reads a buff from its code, written in decimal digits.
    pub fn from_name(s: &str) -> (parsed: Result<BuffId, ParseEnumError>)
        ensures
            parsed == BuffId::numbered(parsed_i64(s@)),
    {
        BuffId::from_number(parse_i64(s))
    }
}

impl FromStr for BuffId {
    type Err = ParseEnumError;

    fn from_str(s: &str) -> (parsed: Result<BuffId, ParseEnumError>)
        ensures
            parsed == BuffId::numbered(parsed_i64(s@)),
    {
        BuffId::from_name(s)
    }
}

} // verus!
