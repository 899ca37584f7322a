//! The records of the engine's wire schema, as plain values.
//!
//! Each type mirrors one message of the schema, field for field. The schema marks
//! every scalar and every nested message as optional, so such a field is an `Option`:
//! `None` says that the engine left the field out, and the reader decides what that
//! means. A repeated field is a `Vec`. A field whose type is an enumeration of the
//! schema holds the number that was sent, known to the schema or not. Numbers of
//! single precision are held as [`Float`].

use crate::float::Float;
use vstd::prelude::*;

verus! {

/// A point on the game board.
#[derive(Clone, Copy, Debug, Default, PartialEq, Eq)]
pub struct Point2D {
    pub x: Option<Float>,
    pub y: Option<Float>,
}

/// A point in the game world, or on the screen where `z` is left out.
#[derive(Clone, Copy, Debug, Default, PartialEq, Eq)]
pub struct Point {
    pub x: Option<Float>,
    pub y: Option<Float>,
    pub z: Option<Float>,
}

/// A cell of a grid.
#[derive(Clone, Copy, Debug, Default, PartialEq, Eq)]
pub struct PointI {
    pub x: Option<i32>,
    pub y: Option<i32>,
}

/// A rectangle of cells, by two corners.
#[derive(Clone, Copy, Debug, Default, PartialEq, Eq)]
pub struct RectangleI {
    pub p0: Option<PointI>,
    pub p1: Option<PointI>,
}

/// The extent of a grid.
#[derive(Clone, Copy, Debug, Default, PartialEq, Eq)]
pub struct Size2DI {
    pub x: Option<i32>,
    pub y: Option<i32>,
}

/// A grid of pixels, row by row.
#[derive(Clone, Debug, Default, PartialEq, Eq)]
pub struct ImageData {
    pub bits_per_pixel: Option<i32>,
    pub size: Option<Size2DI>,
    pub data: Option<Vec<u8>>,
}

/// What the engine tells of one ability.
#[derive(Clone, Debug, Default, PartialEq, Eq)]
pub struct AbilityData {
    pub ability_id: Option<u32>,
    pub link_name: Option<String>,
    pub link_index: Option<u32>,
    pub button_name: Option<String>,
    pub friendly_name: Option<String>,
    pub hotkey: Option<String>,
    pub remaps_to_ability_id: Option<u32>,
    pub available: Option<bool>,
    pub target: Option<i32>,
    pub allow_minimap: Option<bool>,
    pub allow_autocast: Option<bool>,
    pub is_building: Option<bool>,
    pub footprint_radius: Option<Float>,
    pub is_instant_placement: Option<bool>,
    pub cast_range: Option<Float>,
}

/// Additional damage of a weapon against units with one attribute.
#[derive(Clone, Copy, Debug, Default, PartialEq, Eq)]
pub struct DamageBonus {
    pub attribute: Option<i32>,
    pub bonus: Option<Float>,
}

/// One weapon of a unit type.
#[derive(Clone, Debug, Default, PartialEq, Eq)]
pub struct Weapon {
    pub target_type: Option<i32>,
    pub damage: Option<Float>,
    pub damage_bonus: Vec<DamageBonus>,
    pub attacks: Option<u32>,
    pub range: Option<Float>,
    pub speed: Option<Float>,
}

/// What the engine tells of one unit type.
#[derive(Clone, Debug, Default, PartialEq, Eq)]
pub struct UnitTypeData {
    pub unit_id: Option<u32>,
    pub name: Option<String>,
    pub available: Option<bool>,
    pub cargo_size: Option<u32>,
    pub mineral_cost: Option<u32>,
    pub vespene_cost: Option<u32>,
    pub food_required: Option<Float>,
    pub food_provided: Option<Float>,
    pub ability_id: Option<u32>,
    pub race: Option<i32>,
    pub build_time: Option<Float>,
    pub has_vespene: Option<bool>,
    pub has_minerals: Option<bool>,
    pub sight_range: Option<Float>,
    pub tech_alias: Vec<u32>,
    pub unit_alias: Option<u32>,
    pub tech_requirement: Option<u32>,
    pub require_attached: Option<bool>,
    pub attributes: Vec<i32>,
    pub movement_speed: Option<Float>,
    pub armor: Option<Float>,
    pub weapons: Vec<Weapon>,
}

/// What the engine tells of one upgrade.
#[derive(Clone, Debug, Default, PartialEq, Eq)]
pub struct UpgradeData {
    pub upgrade_id: Option<u32>,
    pub name: Option<String>,
    pub mineral_cost: Option<u32>,
    pub vespene_cost: Option<u32>,
    pub research_time: Option<Float>,
    pub ability_id: Option<u32>,
}

/// What the engine tells of one buff.
#[derive(Clone, Debug, Default, PartialEq, Eq)]
pub struct BuffData {
    pub buff_id: Option<u32>,
    pub name: Option<String>,
}

/// What the engine tells of one effect.
#[derive(Clone, Debug, Default, PartialEq, Eq)]
pub struct EffectData {
    pub effect_id: Option<u32>,
    pub name: Option<String>,
    pub friendly_name: Option<String>,
    pub radius: Option<Float>,
}

/// The engine's answer to a request for its data: one list per identifier space.
#[derive(Clone, Debug, Default, PartialEq, Eq)]
pub struct ResponseData {
    pub abilities: Vec<AbilityData>,
    pub units: Vec<UnitTypeData>,
    pub upgrades: Vec<UpgradeData>,
    pub buffs: Vec<BuffData>,
    pub effects: Vec<EffectData>,
}

/// One participant of the game.
#[derive(Clone, Debug, Default, PartialEq, Eq)]
pub struct PlayerInfo {
    pub player_id: Option<u32>,
    pub player_type: Option<i32>,
    pub race_requested: Option<i32>,
    pub race_actual: Option<i32>,
    pub difficulty: Option<i32>,
    pub ai_build: Option<i32>,
    pub player_name: Option<String>,
}

/// The map as the raw interface describes it at the start of a game.
#[derive(Clone, Debug, Default, PartialEq, Eq)]
pub struct StartRaw {
    pub map_size: Option<Size2DI>,
    pub pathing_grid: Option<ImageData>,
    pub terrain_height: Option<ImageData>,
    pub placement_grid: Option<ImageData>,
    pub playable_area: Option<RectangleI>,
    pub start_locations: Vec<Point2D>,
}

/// The engine's answer to a request for the game's constants.
#[derive(Clone, Debug, Default, PartialEq, Eq)]
pub struct ResponseGameInfo {
    pub map_name: Option<String>,
    pub mod_names: Vec<String>,
    pub local_map_path: Option<String>,
    pub player_info: Vec<PlayerInfo>,
    pub start_raw: Option<StartRaw>,
}

/// A score split by the category of what it counts.
#[derive(Clone, Copy, Debug, Default, PartialEq, Eq)]
pub struct CategoryScoreDetails {
    pub none: Option<Float>,
    pub army: Option<Float>,
    pub economy: Option<Float>,
    pub technology: Option<Float>,
    pub upgrade: Option<Float>,
}

/// A score split by the vital it concerns.
#[derive(Clone, Copy, Debug, Default, PartialEq, Eq)]
pub struct VitalScoreDetails {
    pub life: Option<Float>,
    pub shields: Option<Float>,
    pub energy: Option<Float>,
}

/// The parts of a score.
#[derive(Clone, Copy, Debug, Default, PartialEq, Eq)]
pub struct ScoreDetails {
    pub idle_production_time: Option<Float>,
    pub idle_worker_time: Option<Float>,
    pub total_value_units: Option<Float>,
    pub total_value_structures: Option<Float>,
    pub killed_value_units: Option<Float>,
    pub killed_value_structures: Option<Float>,
    pub collected_minerals: Option<Float>,
    pub collected_vespene: Option<Float>,
    pub collection_rate_minerals: Option<Float>,
    pub collection_rate_vespene: Option<Float>,
    pub spent_minerals: Option<Float>,
    pub spent_vespene: Option<Float>,
    pub food_used: Option<CategoryScoreDetails>,
    pub killed_minerals: Option<CategoryScoreDetails>,
    pub killed_vespene: Option<CategoryScoreDetails>,
    pub lost_minerals: Option<CategoryScoreDetails>,
    pub lost_vespene: Option<CategoryScoreDetails>,
    pub friendly_fire_minerals: Option<CategoryScoreDetails>,
    pub friendly_fire_vespene: Option<CategoryScoreDetails>,
    pub used_minerals: Option<CategoryScoreDetails>,
    pub used_vespene: Option<CategoryScoreDetails>,
    pub total_used_minerals: Option<CategoryScoreDetails>,
    pub total_used_vespene: Option<CategoryScoreDetails>,
    pub total_damage_dealt: Option<VitalScoreDetails>,
    pub total_damage_taken: Option<VitalScoreDetails>,
    pub total_healed: Option<VitalScoreDetails>,
    pub current_apm: Option<Float>,
    pub current_effective_apm: Option<Float>,
}

/// The score of one step.
#[derive(Clone, Copy, Debug, Default, PartialEq, Eq)]
pub struct Score {
    pub score_type: Option<i32>,
    pub score: Option<i32>,
    pub score_details: Option<ScoreDetails>,
}

/// A color by its red, green and blue parts.
#[derive(Clone, Copy, Debug, Default, PartialEq, Eq)]
pub struct Color {
    pub r: Option<u32>,
    pub g: Option<u32>,
    pub b: Option<u32>,
}

/// A line between two points of the world.
#[derive(Clone, Copy, Debug, Default, PartialEq, Eq)]
pub struct Line {
    pub p0: Option<Point>,
    pub p1: Option<Point>,
}

/// A text to show, on the screen or in the world.
#[derive(Clone, Debug, Default, PartialEq, Eq)]
pub struct DebugText {
    pub color: Option<Color>,
    pub text: Option<String>,
    pub virtual_pos: Option<Point>,
    pub world_pos: Option<Point>,
    pub size: Option<u32>,
}

/// A line to show.
#[derive(Clone, Copy, Debug, Default, PartialEq, Eq)]
pub struct DebugLine {
    pub color: Option<Color>,
    pub line: Option<Line>,
}

/// A box to show, by two opposite corners.
#[derive(Clone, Copy, Debug, Default, PartialEq, Eq)]
pub struct DebugBox {
    pub color: Option<Color>,
    pub min: Option<Point>,
    pub max: Option<Point>,
}

/// A sphere to show, by its center and radius.
#[derive(Clone, Copy, Debug, Default, PartialEq, Eq)]
pub struct DebugSphere {
    pub color: Option<Color>,
    pub p: Option<Point>,
    pub r: Option<Float>,
}

/// Everything to draw in one step, one list per shape.
#[derive(Clone, Debug, Default, PartialEq, Eq)]
pub struct DebugDraw {
    pub text: Vec<DebugText>,
    pub lines: Vec<DebugLine>,
    pub boxes: Vec<DebugBox>,
    pub spheres: Vec<DebugSphere>,
}

/// A request to spawn units.
#[derive(Clone, Copy, Debug, Default, PartialEq, Eq)]
pub struct DebugCreateUnit {
    pub unit_type: Option<u32>,
    pub owner: Option<i32>,
    pub pos: Option<Point2D>,
    pub quantity: Option<u32>,
}

/// A request to kill the units with the given tags.
#[derive(Clone, Debug, Default, PartialEq, Eq)]
pub struct DebugKillUnit {
    pub tag: Vec<u64>,
}

/// A request to end the game. Without a result the player surrenders.
#[derive(Clone, Copy, Debug, Default, PartialEq, Eq)]
pub struct DebugEndGame {
    pub end_result: Option<i32>,
}

/// A request to set one value of one unit.
#[derive(Clone, Copy, Debug, Default, PartialEq, Eq)]
pub struct DebugSetUnitValue {
    pub unit_value: Option<i32>,
    pub value: Option<Float>,
    pub unit_tag: Option<u64>,
}

/// One debug command, which holds exactly one of the schema's alternatives.
#[derive(Clone, Debug, PartialEq, Eq)]
pub enum DebugCommand {
    Draw(DebugDraw),
    GameState(i32),
    CreateUnit(DebugCreateUnit),
    KillUnit(DebugKillUnit),
    EndGame(DebugEndGame),
    UnitValue(DebugSetUnitValue),
}

/// A text to show, with its text as a sequence of characters.
pub struct DebugTextView {
    pub color: Option<Color>,
    pub text: Option<Seq<char>>,
    pub virtual_pos: Option<Point>,
    pub world_pos: Option<Point>,
    pub size: Option<u32>,
}

impl View for DebugText {
    type V = DebugTextView;

    open spec fn view(&self) -> DebugTextView {
        DebugTextView {
            color: self.color,
            text: text_view(self.text),
            virtual_pos: self.virtual_pos,
            world_pos: self.world_pos,
            size: self.size,
        }
    }
}

/// Everything to draw in one step, as sequences.
pub struct DebugDrawView {
    pub text: Seq<DebugTextView>,
    pub lines: Seq<DebugLine>,
    pub boxes: Seq<DebugBox>,
    pub spheres: Seq<DebugSphere>,
}

impl View for DebugDraw {
    type V = DebugDrawView;

    open spec fn view(&self) -> DebugDrawView {
        DebugDrawView {
            text: self.text@.map_values(|text: DebugText| text@),
            lines: self.lines@,
            boxes: self.boxes@,
            spheres: self.spheres@,
        }
    }
}

/// One debug command of the schema, with sequences in place of vectors.
pub enum DebugCommandView {
    Draw(DebugDrawView),
    GameState(i32),
    CreateUnit(DebugCreateUnit),
    KillUnit(Seq<u64>),
    EndGame(DebugEndGame),
    UnitValue(DebugSetUnitValue),
}

impl View for DebugCommand {
    type V = DebugCommandView;

    open spec fn view(&self) -> DebugCommandView {
        match self {
            DebugCommand::Draw(draw) => DebugCommandView::Draw(draw@),
            DebugCommand::GameState(state) => DebugCommandView::GameState(*state),
            DebugCommand::CreateUnit(unit) => DebugCommandView::CreateUnit(*unit),
            DebugCommand::KillUnit(kill) => DebugCommandView::KillUnit(kill.tag@),
            DebugCommand::EndGame(end) => DebugCommandView::EndGame(*end),
            DebugCommand::UnitValue(value) => DebugCommandView::UnitValue(*value),
        }
    }
}

/// The text of an optional field, empty where the field was left out.
pub open spec fn text_or_empty(field: Option<String>) -> Seq<char> {
    match field {
        Some(text) => text@,
        None => Seq::empty(),
    }
}

/// The text of an optional field where it was sent.
pub open spec fn text_view(field: Option<String>) -> Option<Seq<char>> {
    match field {
        Some(text) => Some(text@),
        None => None,
    }
}

/// The number of an optional field, positive zero where the field was left out.
pub open spec fn float_or_zero(field: Option<Float>) -> Float {
    match field {
        Some(number) => number,
        None => Float { bits: 0 },
    }
}

/// The number of an optional enumeration field. Zero, which none of the schema's
/// enumerations gives a meaning of its own, stands for a field that was left out.
pub open spec fn code_or_default(field: Option<i32>) -> i32 {
    match field {
        Some(code) => code,
        None => 0,
    }
}

/// Reads an enumeration field through the number that stands for none.
pub fn take_code(field: Option<i32>) -> (code: i32)
    ensures
        code == code_or_default(field),
{
    match field {
        Some(code) => code,
        None => 0,
    }
}

/// Reads a number field through the schema's default, zero.
pub fn take_u32(field: Option<u32>) -> (number: u32)
    ensures
        number == field.unwrap_or(0),
{
    match field {
        Some(number) => number,
        None => 0,
    }
}

/// Reads a flag through the schema's default, false.
pub fn take_flag(field: Option<bool>) -> (flag: bool)
    ensures
        flag == field.unwrap_or(false),
{
    match field {
        Some(flag) => flag,
        None => false,
    }
}

/// Reads a text field through the schema's default, the empty text.
pub fn take_text(field: Option<String>) -> (text: String)
    ensures
        text@ == text_or_empty(field),
{
    match field {
        Some(text) => text,
        None => String::new(),
    }
}

/// Reads a number field through the schema's default, zero.
pub fn take_float(field: Option<Float>) -> (number: Float)
    ensures
        number == float_or_zero(field),
{
    match field {
        Some(number) => number,
        None => Float::zero(),
    }
}

} // verus!
