//! What the engine tells about abilities, unit types, upgrades, buffs and effects.
//!
//! The engine sends one list of records per identifier space. A record is decoded
//! only where its codes resolve: a record with a code that the space does not hold is
//! left out of the catalog, and every other record of the list is decoded as if the
//! unresolved one had not been sent. Decoding a list never fails.

use crate::float::Float;
use crate::fx::{map_get, map_insert, map_with_capacity, CodeMap};
use crate::ids::{AbilityId, BuffId, EffectId, UnitTypeId, UpgradeId};
use crate::player::Race;
use crate::wire;
use crate::wire::{
    code_or_default, float_or_zero, take_code, take_flag, take_float, take_text, take_u32,
    text_or_empty, text_view,
};
use vstd::prelude::*;

verus! {

/// A record that is decoded from a record of the wire schema, where its codes resolve.
pub trait TryFromProto: Sized {
    /// The record of the wire schema.
    type Proto;

    /// The code under which the wire record is filed: that of the identifier it describes.
    spec fn key(proto: Self::Proto) -> u32;

    /// Whether every code of the wire record that must resolve does.
    spec fn resolves(proto: Self::Proto) -> bool;

    /// Whether this record is what the wire record decodes to, field by field.
    spec fn decodes(&self, proto: Self::Proto) -> bool;

    /// The code of the identifier that this record describes.
    spec fn code(&self) -> u32;

    /// Decodes a wire record, or returns `None` where a code does not resolve.
    fn try_from_proto(proto: Self::Proto) -> (record: Option<Self>)
        ensures
            record is Some <==> Self::resolves(proto),
            record is Some ==> record->0.decodes(proto),
            record is Some ==> record->0.code() == Self::key(proto),
    ;

    /// The code of the identifier that this record describes.
    fn id_code(&self) -> (code: u32)
        ensures
            code == self.code(),
    ;
}

/// The cost of a unit type or an upgrade in resources, supply and time.
#[derive(Clone, Copy, Debug, PartialEq, Eq, Structural)]
pub struct Cost {
    pub minerals: u32,
    pub vespene: u32,
    pub supply: Float,
    pub time: Float,
}

impl Default for Cost {
    fn default() -> (cost: Cost)
        ensures
            cost == (Cost {
                minerals: 0,
                vespene: 0,
                supply: Float { bits: 0 },
                time: Float { bits: 0 },
            }),
    {
        Cost { minerals: 0, vespene: 0, supply: Float::zero(), time: Float::zero() }
    }
}

/// What an ability needs as its target.
#[derive(Clone, Copy, Debug, PartialEq, Eq, Structural)]
pub enum AbilityTarget {
    /// The ability needs no target.
    NoTarget,
    /// The ability needs a position.
    Point,
    /// The ability needs a unit.
    Unit,
    /// The ability needs a position or a unit.
    PointOrUnit,
    /// The ability takes a position or no target.
    PointOrNone,
}

impl AbilityTarget {
    /// The target for a number of the schema, which counts them from 1 in the order
    /// of declaration. Every other number reads as the default, `NoTarget`.
    pub open spec fn of_code(code: i32) -> AbilityTarget {
        match code {
            2 => AbilityTarget::Point,
            3 => AbilityTarget::Unit,
            4 => AbilityTarget::PointOrUnit,
            5 => AbilityTarget::PointOrNone,
            _ => AbilityTarget::NoTarget,
        }
    }

    pub fn from_proto(code: i32) -> (target: AbilityTarget)
        ensures
            target == AbilityTarget::of_code(code),
    {
        match code {
            2 => AbilityTarget::Point,
            3 => AbilityTarget::Unit,
            4 => AbilityTarget::PointOrUnit,
            5 => AbilityTarget::PointOrNone,
            _ => AbilityTarget::NoTarget,
        }
    }
}

/// An attribute of a unit type.
#[derive(Clone, Copy, Debug, PartialEq, Eq, Hash, Structural)]
pub enum Attribute {
    Light,
    Armored,
    Biological,
    Mechanical,
    Robotic,
    Psionic,
    Massive,
    Structure,
    Hover,
    Heroic,
    Summoned,
}

impl Attribute {
    /// The attribute for a number of the schema, which counts them from 1 in the
    /// order of declaration. Every other number reads as the default, `Light`.
    pub open spec fn of_code(code: i32) -> Attribute {
        match code {
            2 => Attribute::Armored,
            3 => Attribute::Biological,
            4 => Attribute::Mechanical,
            5 => Attribute::Robotic,
            6 => Attribute::Psionic,
            7 => Attribute::Massive,
            8 => Attribute::Structure,
            9 => Attribute::Hover,
            10 => Attribute::Heroic,
            11 => Attribute::Summoned,
            _ => Attribute::Light,
        }
    }

    pub fn from_proto(code: i32) -> (attribute: Attribute)
        ensures
            attribute == Attribute::of_code(code),
    {
        match code {
            2 => Attribute::Armored,
            3 => Attribute::Biological,
            4 => Attribute::Mechanical,
            5 => Attribute::Robotic,
            6 => Attribute::Psionic,
            7 => Attribute::Massive,
            8 => Attribute::Structure,
            9 => Attribute::Hover,
            10 => Attribute::Heroic,
            11 => Attribute::Summoned,
            _ => Attribute::Light,
        }
    }

    #[inline]
    pub fn is_light(self) -> (is: bool)
        ensures
            is == (self == Attribute::Light),
    {
        matches!(self, Attribute::Light)
    }

    #[inline]
    pub fn is_armored(self) -> (is: bool)
        ensures
            is == (self == Attribute::Armored),
    {
        matches!(self, Attribute::Armored)
    }

    #[inline]
    pub fn is_biological(self) -> (is: bool)
        ensures
            is == (self == Attribute::Biological),
    {
        matches!(self, Attribute::Biological)
    }

    #[inline]
    pub fn is_mechanical(self) -> (is: bool)
        ensures
            is == (self == Attribute::Mechanical),
    {
        matches!(self, Attribute::Mechanical)
    }

    #[inline]
    pub fn is_robotic(self) -> (is: bool)
        ensures
            is == (self == Attribute::Robotic),
    {
        matches!(self, Attribute::Robotic)
    }

    #[inline]
    pub fn is_psionic(self) -> (is: bool)
        ensures
            is == (self == Attribute::Psionic),
    {
        matches!(self, Attribute::Psionic)
    }

    #[inline]
    pub fn is_massive(self) -> (is: bool)
        ensures
            is == (self == Attribute::Massive),
    {
        matches!(self, Attribute::Massive)
    }

    #[inline]
    pub fn is_structure(self) -> (is: bool)
        ensures
            is == (self == Attribute::Structure),
    {
        matches!(self, Attribute::Structure)
    }

    #[inline]
    pub fn is_hover(self) -> (is: bool)
        ensures
            is == (self == Attribute::Hover),
    {
        matches!(self, Attribute::Hover)
    }

    #[inline]
    pub fn is_heroic(self) -> (is: bool)
        ensures
            is == (self == Attribute::Heroic),
    {
        matches!(self, Attribute::Heroic)
    }

    #[inline]
    pub fn is_summoned(self) -> (is: bool)
        ensures
            is == (self == Attribute::Summoned),
    {
        matches!(self, Attribute::Summoned)
    }
}

/// What a weapon or an effect can hit.
#[derive(Clone, Copy, Debug, PartialEq, Eq, Hash, Structural)]
pub enum TargetType {
    Ground,
    Air,
    Any,
}

impl TargetType {
    /// The target type for a number of the schema: 1 is ground, 2 air and 3 any.
    /// Every other number reads as the default, `Ground`.
    pub open spec fn of_code(code: i32) -> TargetType {
        match code {
            2 => TargetType::Air,
            3 => TargetType::Any,
            _ => TargetType::Ground,
        }
    }

    pub fn from_proto(code: i32) -> (target_type: TargetType)
        ensures
            target_type == TargetType::of_code(code),
    {
        match code {
            2 => TargetType::Air,
            3 => TargetType::Any,
            _ => TargetType::Ground,
        }
    }

    #[inline]
    pub fn is_ground(self) -> (is: bool)
        ensures
            is == (self == TargetType::Ground),
    {
        matches!(self, TargetType::Ground)
    }

    #[inline]
    pub fn is_air(self) -> (is: bool)
        ensures
            is == (self == TargetType::Air),
    {
        matches!(self, TargetType::Air)
    }

    #[inline]
    pub fn is_any(self) -> (is: bool)
        ensures
            is == (self == TargetType::Any),
    {
        matches!(self, TargetType::Any)
    }
}

/// One weapon of a unit type.
#[derive(Clone, Debug, PartialEq, Eq)]
pub struct Weapon {
    /// What the weapon can hit.
    pub target: TargetType,
    /// The damage of one hit.
    pub damage: u32,
    /// Additional damage against units with an attribute.
    pub damage_bonus: Vec<(Attribute, u32)>,
    /// The number of hits per attack.
    pub attacks: u32,
    /// The range.
    pub range: Float,
    /// The time between attacks.
    pub speed: Float,
}

impl Weapon {
    /// What a damage bonus of the wire schema decodes to: the attribute, and the
    /// bonus as a whole number.
    pub open spec fn bonus_of(bonus: wire::DamageBonus) -> (Attribute, u32) {
        (
            Attribute::of_code(code_or_default(bonus.attribute)),
            float_or_zero(bonus.bonus).spec_to_u32(),
        )
    }

    /// Whether this weapon is what the wire record decodes to, field by field.
    pub open spec fn decodes(&self, weapon: wire::Weapon) -> bool {
        &&& self.target == TargetType::of_code(code_or_default(weapon.target_type))
        &&& self.damage == float_or_zero(weapon.damage).spec_to_u32()
        &&& self.damage_bonus@ == weapon.damage_bonus@.map_values(
            |bonus: wire::DamageBonus| Self::bonus_of(bonus),
        )
        &&& self.attacks == weapon.attacks.unwrap_or(0)
        &&& self.range == float_or_zero(weapon.range)
        &&& self.speed == float_or_zero(weapon.speed)
    }

    /// Decodes a weapon. Damage and bonus damage become whole numbers.
    pub fn from_proto(weapon: &wire::Weapon) -> (decoded: Weapon)
        ensures
            decoded.decodes(*weapon),
    {
        let mut damage_bonus: Vec<(Attribute, u32)> = Vec::new();
        let ghost all = weapon.damage_bonus@.map_values(
            |bonus: wire::DamageBonus| Self::bonus_of(bonus),
        );
        let mut i: usize = 0;
        while i < weapon.damage_bonus.len()
            invariant
                i <= weapon.damage_bonus.len(),
                all == weapon.damage_bonus@.map_values(
                    |bonus: wire::DamageBonus| Self::bonus_of(bonus),
                ),
                damage_bonus@ == all.take(i as int),
            decreases weapon.damage_bonus.len() - i,
        {
            let bonus = &weapon.damage_bonus[i];
            damage_bonus.push(
                (
                    Attribute::from_proto(take_code(bonus.attribute)),
                    take_float(bonus.bonus).to_u32(),
                ),
            );
            assert(damage_bonus@ =~= all.take(i + 1));
            i += 1;
        }
        assert(all.take(i as int) =~= all);
        Weapon {
            target: TargetType::from_proto(take_code(weapon.target_type)),
            damage: take_float(weapon.damage).to_u32(),
            damage_bonus,
            attacks: take_u32(weapon.attacks),
            range: take_float(weapon.range),
            speed: take_float(weapon.speed),
        }
    }
}

/// What the engine tells of one ability.
#[derive(Clone, Debug, PartialEq, Eq)]
pub struct AbilityData {
    pub id: AbilityId,
    pub link_name: String,
    pub link_index: u32,
    pub button_name: Option<String>,
    pub friendly_name: Option<String>,
    pub hotkey: Option<String>,
    pub remaps_to_ability_id: Option<AbilityId>,
    /// The ability is available in the current game version.
    pub available: bool,
    /// What the ability needs as its target.
    pub target: AbilityTarget,
    /// The ability can be used on the minimap.
    pub allow_minimap: bool,
    /// The ability can be cast automatically.
    pub allow_autocast: bool,
    /// The ability constructs a building.
    pub is_building: bool,
    /// Half of the building's size.
    pub footprint_radius: Option<Float>,
    pub is_instant_placement: bool,
    /// The greatest range to the target of the ability.
    pub cast_range: Option<Float>,
}

impl TryFromProto for AbilityData {
    type Proto = wire::AbilityData;

    open spec fn key(proto: wire::AbilityData) -> u32 {
        proto.ability_id.unwrap_or(0)
    }

    open spec fn resolves(proto: wire::AbilityData) -> bool {
        AbilityId::known(proto.ability_id.unwrap_or(0))
    }

    open spec fn decodes(&self, proto: wire::AbilityData) -> bool {
        &&& Some(self.id) == AbilityId::of_code(proto.ability_id.unwrap_or(0))
        &&& self.link_name@ == text_or_empty(proto.link_name)
        &&& self.link_index == proto.link_index.unwrap_or(0)
        &&& text_view(self.button_name) == text_view(proto.button_name)
        &&& text_view(self.friendly_name) == text_view(proto.friendly_name)
        &&& text_view(self.hotkey) == text_view(proto.hotkey)
        &&& self.remaps_to_ability_id == AbilityId::of_field(proto.remaps_to_ability_id)
        &&& self.available == proto.available.unwrap_or(false)
        &&& self.target == AbilityTarget::of_code(code_or_default(proto.target))
        &&& self.allow_minimap == proto.allow_minimap.unwrap_or(false)
        &&& self.allow_autocast == proto.allow_autocast.unwrap_or(false)
        &&& self.is_building == proto.is_building.unwrap_or(false)
        &&& self.footprint_radius == proto.footprint_radius
        &&& self.is_instant_placement == proto.is_instant_placement.unwrap_or(false)
        &&& self.cast_range == proto.cast_range
    }

    open spec fn code(&self) -> u32 {
        self.id.code()
    }

    fn try_from_proto(proto: wire::AbilityData) -> (record: Option<AbilityData>) {
        let id = match AbilityId::from_u32(take_u32(proto.ability_id)) {
            Some(id) => id,
            None => {
                return None;
            },
        };
        Some(
            AbilityData {
                id,
                link_name: take_text(proto.link_name),
                link_index: take_u32(proto.link_index),
                button_name: proto.button_name,
                friendly_name: proto.friendly_name,
                hotkey: proto.hotkey,
                remaps_to_ability_id: AbilityId::from_field(proto.remaps_to_ability_id),
                available: take_flag(proto.available),
                target: AbilityTarget::from_proto(take_code(proto.target)),
                allow_minimap: take_flag(proto.allow_minimap),
                allow_autocast: take_flag(proto.allow_autocast),
                is_building: take_flag(proto.is_building),
                footprint_radius: proto.footprint_radius,
                is_instant_placement: take_flag(proto.is_instant_placement),
                cast_range: proto.cast_range,
            },
        )
    }

    fn id_code(&self) -> (code: u32) {
        self.id.to_u32()
    }
}

/// What the engine tells of one unit type.
#[derive(Clone, Debug, PartialEq, Eq)]
pub struct UnitTypeData {
    pub id: UnitTypeId,
    pub name: String,
    /// The unit type is available in the current game version.
    pub available: bool,
    /// The space a unit takes in transports and bunkers.
    pub cargo_size: u32,
    pub mineral_cost: u32,
    pub vespene_cost: u32,
    pub food_required: Float,
    pub food_provided: Float,
    /// The ability that produces the unit, or `None` where nothing does.
    pub ability: Option<AbilityId>,
    pub race: Race,
    pub build_time: Float,
    /// The unit holds vespene, as a geyser does.
    pub has_vespene: bool,
    /// The unit holds minerals, as a mineral field does.
    pub has_minerals: bool,
    pub sight_range: Float,
    pub tech_alias: Vec<UnitTypeId>,
    pub unit_alias: Option<UnitTypeId>,
    pub tech_requirement: Option<UnitTypeId>,
    pub require_attached: bool,
    pub attributes: Vec<Attribute>,
    pub movement_speed: Float,
    pub armor: i32,
    pub weapons: Vec<Weapon>,
}

impl UnitTypeData {
    /// The unit types that a list of alias codes names: each code that resolves, in
    /// the order of the list.
    pub open spec fn aliases_of(codes: Seq<u32>) -> Seq<UnitTypeId> {
        codes.filter_map(|code: u32| UnitTypeId::of_code(code))
    }

    /// The attributes that a list of numbers of the schema names.
    pub open spec fn attributes_of(codes: Seq<i32>) -> Seq<Attribute> {
        codes.map_values(|code: i32| Attribute::of_code(code))
    }

    /// The cost of a unit of this type: what the record says of minerals, vespene,
    /// supply and build time.
    pub fn cost(&self) -> (cost: Cost)
        ensures
            cost == (Cost {
                minerals: self.mineral_cost,
                vespene: self.vespene_cost,
                supply: self.food_required,
                time: self.build_time,
            }),
    {
        Cost {
            minerals: self.mineral_cost,
            vespene: self.vespene_cost,
            supply: self.food_required,
            time: self.build_time,
        }
    }

    fn decode_aliases(codes: &Vec<u32>) -> (aliases: Vec<UnitTypeId>)
        ensures
            aliases@ == Self::aliases_of(codes@),
    {
        let mut aliases: Vec<UnitTypeId> = Vec::new();
        let mut i: usize = 0;
        while i < codes.len()
            invariant
                i <= codes.len(),
                aliases@ == Self::aliases_of(codes@.take(i as int)),
            decreases codes.len() - i,
        {
            proof {
                codes@.lemma_filter_map_take_succ(|code: u32| UnitTypeId::of_code(code), i as int);
            }
            match UnitTypeId::from_u32(codes[i]) {
                Some(alias) => {
                    aliases.push(alias);
                },
                None => {},
            }
            i += 1;
        }
        assert(codes@.take(i as int) =~= codes@);
        aliases
    }

    fn decode_attributes(codes: &Vec<i32>) -> (attributes: Vec<Attribute>)
        ensures
            attributes@ == Self::attributes_of(codes@),
    {
        let mut attributes: Vec<Attribute> = Vec::new();
        let mut i: usize = 0;
        while i < codes.len()
            invariant
                i <= codes.len(),
                attributes@ == Self::attributes_of(codes@).take(i as int),
            decreases codes.len() - i,
        {
            attributes.push(Attribute::from_proto(codes[i]));
            assert(attributes@ =~= Self::attributes_of(codes@).take(i + 1));
            i += 1;
        }
        assert(Self::attributes_of(codes@).take(i as int) =~= Self::attributes_of(codes@));
        attributes
    }

    fn decode_weapons(records: &Vec<wire::Weapon>) -> (weapons: Vec<Weapon>)
        ensures
            weapons@.len() == records@.len(),
            forall|i: int| 0 <= i < records@.len() ==> (#[trigger] weapons@[i]).decodes(records@[i]),
    {
        let mut weapons: Vec<Weapon> = Vec::new();
        let mut i: usize = 0;
        while i < records.len()
            invariant
                i <= records.len(),
                weapons@.len() == i,
                forall|j: int| 0 <= j < i ==> (#[trigger] weapons@[j]).decodes(records@[j]),
            decreases records.len() - i,
        {
            weapons.push(Weapon::from_proto(&records[i]));
            i += 1;
        }
        weapons
    }
}

impl TryFromProto for UnitTypeData {
    type Proto = wire::UnitTypeData;

    open spec fn key(proto: wire::UnitTypeData) -> u32 {
        proto.unit_id.unwrap_or(0)
    }

    open spec fn resolves(proto: wire::UnitTypeData) -> bool {
        UnitTypeId::known(proto.unit_id.unwrap_or(0))
    }

    open spec fn decodes(&self, proto: wire::UnitTypeData) -> bool {
        &&& Some(self.id) == UnitTypeId::of_code(proto.unit_id.unwrap_or(0))
        &&& self.name@ == text_or_empty(proto.name)
        &&& self.available == proto.available.unwrap_or(false)
        &&& self.cargo_size == proto.cargo_size.unwrap_or(0)
        &&& self.mineral_cost == proto.mineral_cost.unwrap_or(0)
        &&& self.vespene_cost == proto.vespene_cost.unwrap_or(0)
        &&& self.food_required == float_or_zero(proto.food_required)
        &&& self.food_provided == float_or_zero(proto.food_provided)
        &&& self.ability == AbilityId::of_field(proto.ability_id)
        &&& self.race == Race::of_code(code_or_default(proto.race))
        &&& self.build_time == float_or_zero(proto.build_time)
        &&& self.has_vespene == proto.has_vespene.unwrap_or(false)
        &&& self.has_minerals == proto.has_minerals.unwrap_or(false)
        &&& self.sight_range == float_or_zero(proto.sight_range)
        &&& self.tech_alias@ == Self::aliases_of(proto.tech_alias@)
        &&& self.unit_alias == UnitTypeId::of_field(proto.unit_alias)
        &&& self.tech_requirement == UnitTypeId::of_field(proto.tech_requirement)
        &&& self.require_attached == proto.require_attached.unwrap_or(false)
        &&& self.attributes@ == Self::attributes_of(proto.attributes@)
        &&& self.movement_speed == float_or_zero(proto.movement_speed)
        &&& self.armor == float_or_zero(proto.armor).spec_to_i32()
        &&& self.weapons@.len() == proto.weapons@.len()
        &&& forall|i: int|
            0 <= i < proto.weapons@.len() ==> (#[trigger] self.weapons@[i]).decodes(proto.weapons@[i])
    }

    open spec fn code(&self) -> u32 {
        self.id.code()
    }

    fn try_from_proto(proto: wire::UnitTypeData) -> (record: Option<UnitTypeData>) {
        let id = match UnitTypeId::from_u32(take_u32(proto.unit_id)) {
            Some(id) => id,
            None => {
                return None;
            },
        };
        let tech_alias = Self::decode_aliases(&proto.tech_alias);
        let attributes = Self::decode_attributes(&proto.attributes);
        let weapons = Self::decode_weapons(&proto.weapons);
        Some(
            UnitTypeData {
                id,
                name: take_text(proto.name),
                available: take_flag(proto.available),
                cargo_size: take_u32(proto.cargo_size),
                mineral_cost: take_u32(proto.mineral_cost),
                vespene_cost: take_u32(proto.vespene_cost),
                food_required: take_float(proto.food_required),
                food_provided: take_float(proto.food_provided),
                ability: AbilityId::from_field(proto.ability_id),
                race: Race::from_proto(take_code(proto.race)),
                build_time: take_float(proto.build_time),
                has_vespene: take_flag(proto.has_vespene),
                has_minerals: take_flag(proto.has_minerals),
                sight_range: take_float(proto.sight_range),
                tech_alias,
                unit_alias: UnitTypeId::from_field(proto.unit_alias),
                tech_requirement: UnitTypeId::from_field(proto.tech_requirement),
                require_attached: take_flag(proto.require_attached),
                attributes,
                movement_speed: take_float(proto.movement_speed),
                armor: take_float(proto.armor).to_i32(),
                weapons,
            },
        )
    }

    fn id_code(&self) -> (code: u32) {
        self.id.to_u32()
    }
}

/// What the engine tells of one upgrade.
#[derive(Clone, Debug, PartialEq, Eq)]
pub struct UpgradeData {
    pub id: UpgradeId,
    /// The ability that researches the upgrade.
    pub ability: AbilityId,
    pub name: String,
    pub mineral_cost: u32,
    pub vespene_cost: u32,
    pub research_time: Float,
}

impl UpgradeData {
    /// The cost of the upgrade: what the record says of minerals, vespene and
    /// research time. An upgrade takes no supply.
    pub fn cost(&self) -> (cost: Cost)
        ensures
            cost == (Cost {
                minerals: self.mineral_cost,
                vespene: self.vespene_cost,
                supply: Float { bits: 0 },
                time: self.research_time,
            }),
    {
        Cost {
            minerals: self.mineral_cost,
            vespene: self.vespene_cost,
            supply: Float::zero(),
            time: self.research_time,
        }
    }
}

impl TryFromProto for UpgradeData {
    type Proto = wire::UpgradeData;

    open spec fn key(proto: wire::UpgradeData) -> u32 {
        proto.upgrade_id.unwrap_or(0)
    }

    open spec fn resolves(proto: wire::UpgradeData) -> bool {
        UpgradeId::known(proto.upgrade_id.unwrap_or(0)) && AbilityId::known(
            proto.ability_id.unwrap_or(0),
        )
    }

    open spec fn decodes(&self, proto: wire::UpgradeData) -> bool {
        &&& Some(self.id) == UpgradeId::of_code(proto.upgrade_id.unwrap_or(0))
        &&& Some(self.ability) == AbilityId::of_code(proto.ability_id.unwrap_or(0))
        &&& self.name@ == text_or_empty(proto.name)
        &&& self.mineral_cost == proto.mineral_cost.unwrap_or(0)
        &&& self.vespene_cost == proto.vespene_cost.unwrap_or(0)
        &&& self.research_time == float_or_zero(proto.research_time)
    }

    open spec fn code(&self) -> u32 {
        self.id.code()
    }

    fn try_from_proto(proto: wire::UpgradeData) -> (record: Option<UpgradeData>) {
        let id = match UpgradeId::from_u32(take_u32(proto.upgrade_id)) {
            Some(id) => id,
            None => {
                return None;
            },
        };
        let ability = match AbilityId::from_u32(take_u32(proto.ability_id)) {
            Some(ability) => ability,
            None => {
                return None;
            },
        };
        Some(
            UpgradeData {
                id,
                ability,
                name: take_text(proto.name),
                mineral_cost: take_u32(proto.mineral_cost),
                vespene_cost: take_u32(proto.vespene_cost),
                research_time: take_float(proto.research_time),
            },
        )
    }

    fn id_code(&self) -> (code: u32) {
        self.id.to_u32()
    }
}

/// What the engine tells of one buff.
#[derive(Clone, Debug, PartialEq, Eq)]
pub struct BuffData {
    pub id: BuffId,
    pub name: String,
}

impl TryFromProto for BuffData {
    type Proto = wire::BuffData;

    open spec fn key(proto: wire::BuffData) -> u32 {
        proto.buff_id.unwrap_or(0)
    }

    open spec fn resolves(proto: wire::BuffData) -> bool {
        BuffId::known(proto.buff_id.unwrap_or(0))
    }

    open spec fn decodes(&self, proto: wire::BuffData) -> bool {
        &&& Some(self.id) == BuffId::of_code(proto.buff_id.unwrap_or(0))
        &&& self.name@ == text_or_empty(proto.name)
    }

    open spec fn code(&self) -> u32 {
        self.id.code()
    }

    fn try_from_proto(proto: wire::BuffData) -> (record: Option<BuffData>) {
        match BuffId::from_u32(take_u32(proto.buff_id)) {
            Some(id) => Some(BuffData { id, name: take_text(proto.name) }),
            None => None,
        }
    }

    fn id_code(&self) -> (code: u32) {
        self.id.to_u32()
    }
}

/// What the engine tells of one effect, and what is known of the effect besides.
#[derive(Clone, Debug, PartialEq, Eq)]
pub struct EffectData {
    pub id: EffectId,
    pub name: String,
    pub friendly_name: String,
    pub radius: Float,
    /// What the effect hits.
    pub target: TargetType,
    /// The effect hits the units of its owner's side too.
    pub friendly_fire: bool,
}

impl EffectData {
    /// What an effect hits. The engine does not send this: the null effect, the psi
    /// storm, the scanner sweep, the nuke and the corrosive bile hit anything, and
    /// every other effect hits the ground only.
    pub open spec fn target_of(id: EffectId) -> TargetType {
        match id {
            EffectId::Null
            | EffectId::PsiStormPersistent
            | EffectId::ScannerSweep
            | EffectId::NukePersistent
            | EffectId::RavagerCorrosiveBileCP => TargetType::Any,
            _ => TargetType::Ground,
        }
    }

    /// Whether an effect hits the units of its owner's side. The engine does not send
    /// this: the psi storm, the nuke and the corrosive bile do, and no other effect does.
    pub open spec fn friendly_fire_of(id: EffectId) -> bool {
        match id {
            EffectId::PsiStormPersistent
            | EffectId::NukePersistent
            | EffectId::RavagerCorrosiveBileCP => true,
            _ => false,
        }
    }
}

impl TryFromProto for EffectData {
    type Proto = wire::EffectData;

    open spec fn key(proto: wire::EffectData) -> u32 {
        proto.effect_id.unwrap_or(0)
    }

    open spec fn resolves(proto: wire::EffectData) -> bool {
        EffectId::known(proto.effect_id.unwrap_or(0))
    }

    open spec fn decodes(&self, proto: wire::EffectData) -> bool {
        &&& Some(self.id) == EffectId::of_code(proto.effect_id.unwrap_or(0))
        &&& self.name@ == text_or_empty(proto.name)
        &&& self.friendly_name@ == text_or_empty(proto.friendly_name)
        &&& self.radius == float_or_zero(proto.radius)
        &&& self.target == Self::target_of(self.id)
        &&& self.friendly_fire == Self::friendly_fire_of(self.id)
    }

    open spec fn code(&self) -> u32 {
        self.id.code()
    }

    fn try_from_proto(proto: wire::EffectData) -> (record: Option<EffectData>) {
        let id = match EffectId::from_u32(take_u32(proto.effect_id)) {
            Some(id) => id,
            None => {
                return None;
            },
        };
        let target = match id {
            EffectId::Null
            | EffectId::PsiStormPersistent
            | EffectId::ScannerSweep
            | EffectId::NukePersistent
            | EffectId::RavagerCorrosiveBileCP => TargetType::Any,
            _ => TargetType::Ground,
        };
        let friendly_fire = match id {
            EffectId::PsiStormPersistent
            | EffectId::NukePersistent
            | EffectId::RavagerCorrosiveBileCP => true,
            _ => false,
        };
        Some(
            EffectData {
                id,
                name: take_text(proto.name),
                friendly_name: take_text(proto.friendly_name),
                radius: take_float(proto.radius),
                target,
                friendly_fire,
            },
        )
    }

    fn id_code(&self) -> (code: u32) {
        self.id.to_u32()
    }
}

/// The wire record at `index` resolves and is filed under `code`.
pub open spec fn files_under<R: TryFromProto>(records: Seq<R::Proto>, index: int, code: u32) -> bool {
    0 <= index < records.len() && R::resolves(records[index]) && R::key(records[index]) == code
}

/// Some record of the list resolves and is filed under `code`.
pub open spec fn holds_code<R: TryFromProto>(records: Seq<R::Proto>, code: u32) -> bool {
    exists|index: int| #[trigger] files_under::<R>(records, index, code)
}

/// The wire record at `index` resolves, and no later record of the list is filed
/// under the same code.
pub open spec fn is_last_under<R: TryFromProto>(records: Seq<R::Proto>, index: int) -> bool {
    &&& 0 <= index < records.len()
    &&& R::resolves(records[index])
    &&& forall|later: int|
        index < later < records.len() ==> !#[trigger] files_under::<R>(
            records,
            later,
            R::key(records[index]),
        )
}

/// Whether `catalog` is what a list of wire records decodes to: it has an entry for
/// a code exactly where a record of the list resolves and is filed under that code,
/// the entry is the decoding of the last such record, and every entry stands under
/// the code of its own identifier. A record that does not resolve leaves no trace.
pub open spec fn is_catalog_of<R: TryFromProto>(catalog: Map<u32, R>, records: Seq<R::Proto>) -> bool {
    &&& forall|code: u32| #[trigger] catalog.contains_key(code) <==> holds_code::<R>(records, code)
    &&& forall|index: int| #[trigger]
        is_last_under::<R>(records, index) ==> catalog[R::key(records[index])].decodes(
            records[index],
        )
    &&& forall|code: u32| #[trigger] catalog.contains_key(code) ==> catalog[code].code() == code
}

/// A record whose codes resolve is found in the catalog under the code it was sent
/// with, decoded field by field, unless a later record of the list took its place.
pub proof fn resolved_record_is_filed<R: TryFromProto>(
    catalog: Map<u32, R>,
    records: Seq<R::Proto>,
    index: int,
)
    requires
        is_catalog_of(catalog, records),
        is_last_under::<R>(records, index),
    ensures
        catalog.contains_key(R::key(records[index])),
        catalog[R::key(records[index])].code() == R::key(records[index]),
        catalog[R::key(records[index])].decodes(records[index]),
{
    assert(files_under::<R>(records, index, R::key(records[index])));
}

/// A record that does not resolve leaves no trace: a catalog is the decoding of a
/// list exactly if it is the decoding of the list without that record. What the
/// other records of the list decode to does not depend on it.
pub proof fn unresolved_record_is_omitted<R: TryFromProto>(
    catalog: Map<u32, R>,
    records: Seq<R::Proto>,
    at: int,
)
    requires
        0 <= at < records.len(),
        !R::resolves(records[at]),
    ensures
        is_catalog_of(catalog, records) <==> is_catalog_of(catalog, records.remove(at)),
{
    let rest = records.remove(at);
    assert forall|index: int, code: u32| #[trigger]
        files_under::<R>(rest, index, code) implies files_under::<R>(
        records,
        if index < at {
            index
        } else {
            index + 1
        },
        code,
    ) by {}
    assert forall|index: int, code: u32| #[trigger]
        files_under::<R>(records, index, code) implies files_under::<R>(
        rest,
        if index < at {
            index
        } else {
            index - 1
        },
        code,
    ) by {}
    assert forall|code: u32| #[trigger]
        holds_code::<R>(records, code) <==> #[trigger] holds_code::<R>(rest, code) by {
        if holds_code::<R>(records, code) {
            let index = choose|index: int| #[trigger] files_under::<R>(records, index, code);
            assert(files_under::<R>(rest, if index < at { index } else { index - 1 }, code));
        }
        if holds_code::<R>(rest, code) {
            let index = choose|index: int| #[trigger] files_under::<R>(rest, index, code);
            assert(files_under::<R>(records, if index < at { index } else { index + 1 }, code));
        }
    }
    assert forall|index: int| #[trigger] is_last_under::<R>(rest, index) implies is_last_under::<R>(
        records,
        if index < at {
            index
        } else {
            index + 1
        },
    ) by {
        let origin = if index < at { index } else { index + 1 };
        assert forall|later: int| origin < later < records.len() implies !#[trigger]
            files_under::<R>(records, later, R::key(records[origin])) by {
            if later != at {
                let moved = if later < at { later } else { later - 1 };
                assert(!files_under::<R>(rest, moved, R::key(rest[index])));
            }
        }
    }
    assert forall|index: int| #[trigger] is_last_under::<R>(records, index) implies is_last_under::<R>(
        rest,
        if index < at {
            index
        } else {
            index - 1
        },
    ) by {
        let moved = if index < at { index } else { index - 1 };
        assert forall|later: int| moved < later < rest.len() implies !#[trigger] files_under::<R>(
            rest,
            later,
            R::key(rest[moved]),
        ) by {
            let origin = if later < at { later } else { later + 1 };
            assert(!files_under::<R>(records, origin, R::key(records[index])));
        }
    }
    if is_catalog_of(catalog, records) {
        assert forall|index: int| #[trigger]
            is_last_under::<R>(rest, index) implies catalog[R::key(rest[index])].decodes(
            rest[index],
        ) by {
            assert(is_last_under::<R>(records, if index < at { index } else { index + 1 }));
        }
        assert(is_catalog_of(catalog, rest));
    }
    if is_catalog_of(catalog, rest) {
        assert forall|index: int| #[trigger]
            is_last_under::<R>(records, index) implies catalog[R::key(records[index])].decodes(
            records[index],
        ) by {
            assert(is_last_under::<R>(rest, if index < at { index } else { index - 1 }));
        }
        assert(is_catalog_of(catalog, records));
    }
}

/// Decodes a list of wire records into a catalog, keyed by the codes of the
/// identifiers. Records that do not resolve are left out.
pub fn decode_catalog<R: TryFromProto>(records: Vec<R::Proto>) -> (catalog: CodeMap<R>)
    ensures
        is_catalog_of(catalog@, records@),
{
    let mut catalog: CodeMap<R> = map_with_capacity(records.len());
    let ghost all = records@;
    assert(catalog@ =~= Map::empty());
    for proto in it: records
        invariant
            it.seq() == all,
            is_catalog_of(catalog@, all.take(it.index() as int)),
    {
        let ghost seen = all.take(it.index() as int);
        let ghost next = all.take(it.index() + 1);
        let ghost before = catalog@;
        assert(forall|index: int| 0 <= index < seen.len() ==> seen[index] == next[index]);
        assert(next[it.index() as int] == proto);
        match R::try_from_proto(proto) {
            Some(record) => {
                let code = record.id_code();
                let _ = map_insert(&mut catalog, code, record);
                proof {
                    assert(files_under::<R>(next, it.index() as int, code));
                    assert forall|other: u32| #[trigger]
                        catalog@.contains_key(other) <==> holds_code::<R>(next, other) by {
                        if before.contains_key(other) {
                            let index = choose|index: int| #[trigger]
                                files_under::<R>(seen, index, other);
                            assert(files_under::<R>(next, index, other));
                        }
                        if holds_code::<R>(next, other) {
                            let index = choose|index: int| #[trigger]
                                files_under::<R>(next, index, other);
                            if index < it.index() {
                                assert(files_under::<R>(seen, index, other));
                            }
                        }
                    }
                    assert forall|index: int| #[trigger]
                        is_last_under::<R>(next, index) implies catalog@[R::key(
                        next[index],
                    )].decodes(next[index]) by {
                        if index < it.index() {
                            assert(!files_under::<R>(next, it.index() as int, R::key(next[index])));
                            assert forall|later: int| index < later < seen.len() implies !#[trigger]
                                files_under::<R>(seen, later, R::key(seen[index])) by {
                                assert(!files_under::<R>(next, later, R::key(next[index])));
                            }
                            assert(is_last_under::<R>(seen, index));
                        }
                    }
                }
            },
            None => {
                proof {
                    assert forall|other: u32| #[trigger]
                        catalog@.contains_key(other) <==> holds_code::<R>(next, other) by {
                        if before.contains_key(other) {
                            let index = choose|index: int| #[trigger]
                                files_under::<R>(seen, index, other);
                            assert(files_under::<R>(next, index, other));
                        }
                        if holds_code::<R>(next, other) {
                            let index = choose|index: int| #[trigger]
                                files_under::<R>(next, index, other);
                            assert(files_under::<R>(seen, index, other));
                        }
                    }
                    assert forall|index: int| #[trigger]
                        is_last_under::<R>(next, index) implies catalog@[R::key(
                        next[index],
                    )].decodes(next[index]) by {
                        assert forall|later: int| index < later < seen.len() implies !#[trigger]
                            files_under::<R>(seen, later, R::key(seen[index])) by {
                            assert(!files_under::<R>(next, later, R::key(next[index])));
                        }
                        assert(is_last_under::<R>(seen, index));
                    }
                }
            },
        }
    }
    assert(all.take(all.len() as int) =~= all);
    catalog
}

/// Everything the engine tells about its identifiers, one catalog per identifier
/// space. A catalog is keyed by the codes of the identifiers.
#[derive(Clone, Debug)]
pub struct GameData {
    /// What is known of the abilities.
    pub abilities: CodeMap<AbilityData>,
    /// What is known of the unit types.
    pub units: CodeMap<UnitTypeData>,
    /// What is known of the upgrades.
    pub upgrades: CodeMap<UpgradeData>,
    /// What is known of the buffs.
    pub buffs: CodeMap<BuffData>,
    /// What is known of the effects.
    pub effects: CodeMap<EffectData>,
}

impl GameData {
    /// Whether the catalogs are what the engine's answer decodes to.
    pub open spec fn decodes(&self, data: wire::ResponseData) -> bool {
        &&& is_catalog_of(self.abilities@, data.abilities@)
        &&& is_catalog_of(self.units@, data.units@)
        &&& is_catalog_of(self.upgrades@, data.upgrades@)
        &&& is_catalog_of(self.buffs@, data.buffs@)
        &&& is_catalog_of(self.effects@, data.effects@)
    }

    /// Decodes the engine's answer. This never fails: records that do not resolve
    /// are left out, each from its own catalog only.
    pub fn from_proto(data: wire::ResponseData) -> (game_data: GameData)
        ensures
            game_data.decodes(data),
    {
        GameData {
            abilities: decode_catalog(data.abilities),
            units: decode_catalog(data.units),
            upgrades: decode_catalog(data.upgrades),
            buffs: decode_catalog(data.buffs),
            effects: decode_catalog(data.effects),
        }
    }

    /// What is known of an ability.
    pub fn ability(&self, id: AbilityId) -> (found: Option<&AbilityData>)
        ensures
            found == if self.abilities@.contains_key(id.code()) {
                Some(&self.abilities@[id.code()])
            } else {
                None
            },
    {
        map_get(&self.abilities, id.to_u32())
    }

    /// What is known of a unit type.
    pub fn unit(&self, id: UnitTypeId) -> (found: Option<&UnitTypeData>)
        ensures
            found == if self.units@.contains_key(id.code()) {
                Some(&self.units@[id.code()])
            } else {
                None
            },
    {
        map_get(&self.units, id.to_u32())
    }

    /// What is known of an upgrade.
    pub fn upgrade(&self, id: UpgradeId) -> (found: Option<&UpgradeData>)
        ensures
            found == if self.upgrades@.contains_key(id.code()) {
                Some(&self.upgrades@[id.code()])
            } else {
                None
            },
    {
        map_get(&self.upgrades, id.to_u32())
    }

    /// What is known of a buff.
    pub fn buff(&self, id: BuffId) -> (found: Option<&BuffData>)
        ensures
            found == if self.buffs@.contains_key(id.code()) {
                Some(&self.buffs@[id.code()])
            } else {
                None
            },
    {
        map_get(&self.buffs, id.to_u32())
    }

    /// What is known of an effect.
    pub fn effect(&self, id: EffectId) -> (found: Option<&EffectData>)
        ensures
            found == if self.effects@.contains_key(id.code()) {
                Some(&self.effects@[id.code()])
            } else {
                None
            },
    {
        map_get(&self.effects, id.to_u32())
    }
}

impl Default for GameData {
    fn default() -> (game_data: GameData)
        ensures
            game_data.abilities@ == Map::<u32, AbilityData>::empty(),
            game_data.units@ == Map::<u32, UnitTypeData>::empty(),
            game_data.upgrades@ == Map::<u32, UpgradeData>::empty(),
            game_data.buffs@ == Map::<u32, BuffData>::empty(),
            game_data.effects@ == Map::<u32, EffectData>::empty(),
    {
        let game_data = GameData {
            abilities: map_with_capacity(0),
            units: map_with_capacity(0),
            upgrades: map_with_capacity(0),
            buffs: map_with_capacity(0),
            effects: map_with_capacity(0),
        };
        assert(game_data.abilities@ =~= Map::empty());
        assert(game_data.units@ =~= Map::empty());
        assert(game_data.upgrades@ =~= Map::empty());
        assert(game_data.buffs@ =~= Map::empty());
        assert(game_data.effects@ =~= Map::empty());
        game_data
    }
}

} // verus!
