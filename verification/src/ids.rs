//! The engine's identifier spaces.
//!
//! The engine names every ability, unit type, upgrade, buff and effect by a stable
//! integer code. Each space is closed: it holds the codes that this crate knows, and
//! a newer engine may send codes beyond them. A code is turned into an identifier
//! only through `from_u32`, which refuses what the space does not hold, so an
//! identifier in hand always resolves. The four large spaces are the dense ranges
//! of the engine's stable identifier table; effects are few and are named.

use vstd::prelude::*;

verus! {

/// The number of abilities in the stable identifier table: the codes are `0..ABILITY_ID_COUNT`.
pub const ABILITY_ID_COUNT: u32 = 3797;

/// The stable code of a known ability.
#[derive(Clone, Copy, Debug, PartialEq, Eq, Hash, Structural)]
pub struct AbilityId {
    code: u32,
}

impl AbilityId {
    /// Whether the space holds `code`.
    pub open spec fn known(code: u32) -> bool {
        code < ABILITY_ID_COUNT
    }

    /// The engine's code for this identifier.
    pub closed spec fn code(self) -> u32 {
        self.code
    }

    /// The identifier that a code resolves to.
    pub closed spec fn of_code(code: u32) -> Option<AbilityId> {
        if Self::known(code) {
            Some(AbilityId { code })
        } else {
            None
        }
    }

    #[verifier::type_invariant]
    spec fn resolvable(self) -> bool {
        Self::known(self.code)
    }

    /// The identifier of an optional field: `None` where the field was left out or
    /// holds a code that the space does not hold.
    pub open spec fn of_field(field: Option<u32>) -> Option<AbilityId> {
        match field {
            Some(code) => Self::of_code(code),
            None => None,
        }
    }

    /// The identifier with the given code, or `None` where the space does not hold it.
    pub fn from_u32(code: u32) -> (id: Option<AbilityId>)
        ensures
            id == Self::of_code(code),
            id is Some <==> Self::known(code),
            id is Some ==> id->0.code() == code,
    {
        if code < ABILITY_ID_COUNT {
            Some(AbilityId { code })
        } else {
            None
        }
    }

    /// The identifier of an optional field.
    pub fn from_field(field: Option<u32>) -> (id: Option<AbilityId>)
        ensures
            id == Self::of_field(field),
    {
        match field {
            Some(code) => Self::from_u32(code),
            None => None,
        }
    }

    /// The engine's code for this identifier, which the space holds and which
    /// resolves to this identifier again.
    pub fn to_u32(self) -> (code: u32)
        ensures
            code == self.code(),
            Self::known(code),
            Self::of_code(code) == Some(self),
    {
        proof {
            use_type_invariant(self);
        }
        self.code
    }

    /// A code resolves exactly where the space holds it, and to the identifier that
    /// has this code.
    pub proof fn of_code_resolves(code: u32)
        ensures
            Self::of_code(code) is Some <==> Self::known(code),
            Self::of_code(code) is Some ==> Self::of_code(code)->0.code() == code,
    {
    }

    /// Two identifiers with the same code are the same identifier.
    pub proof fn code_is_injective(a: AbilityId, b: AbilityId)
        requires
            a.code() == b.code(),
        ensures
            a == b,
    {
    }
}

/// The number of unit types in the stable identifier table: the codes are `0..UNIT_TYPE_ID_COUNT`.
pub const UNIT_TYPE_ID_COUNT: u32 = 1943;

/// The stable code of a known unit type.
#[derive(Clone, Copy, Debug, PartialEq, Eq, Hash, Structural)]
pub struct UnitTypeId {
    code: u32,
}

impl UnitTypeId {
    /// Whether the space holds `code`.
    pub open spec fn known(code: u32) -> bool {
        code < UNIT_TYPE_ID_COUNT
    }

    /// The engine's code for this identifier.
    pub closed spec fn code(self) -> u32 {
        self.code
    }

    /// The identifier that a code resolves to.
    pub closed spec fn of_code(code: u32) -> Option<UnitTypeId> {
        if Self::known(code) {
            Some(UnitTypeId { code })
        } else {
            None
        }
    }

    #[verifier::type_invariant]
    spec fn resolvable(self) -> bool {
        Self::known(self.code)
    }

    /// The identifier of an optional field: `None` where the field was left out or
    /// holds a code that the space does not hold.
    pub open spec fn of_field(field: Option<u32>) -> Option<UnitTypeId> {
        match field {
            Some(code) => Self::of_code(code),
            None => None,
        }
    }

    /// The identifier with the given code, or `None` where the space does not hold it.
    pub fn from_u32(code: u32) -> (id: Option<UnitTypeId>)
        ensures
            id == Self::of_code(code),
            id is Some <==> Self::known(code),
            id is Some ==> id->0.code() == code,
    {
        if code < UNIT_TYPE_ID_COUNT {
            Some(UnitTypeId { code })
        } else {
            None
        }
    }

    /// The identifier of an optional field.
    pub fn from_field(field: Option<u32>) -> (id: Option<UnitTypeId>)
        ensures
            id == Self::of_field(field),
    {
        match field {
            Some(code) => Self::from_u32(code),
            None => None,
        }
    }

    /// The engine's code for this identifier, which the space holds and which
    /// resolves to this identifier again.
    pub fn to_u32(self) -> (code: u32)
        ensures
            code == self.code(),
            Self::known(code),
            Self::of_code(code) == Some(self),
    {
        proof {
            use_type_invariant(self);
        }
        self.code
    }

    /// A code resolves exactly where the space holds it, and to the identifier that
    /// has this code.
    pub proof fn of_code_resolves(code: u32)
        ensures
            Self::of_code(code) is Some <==> Self::known(code),
            Self::of_code(code) is Some ==> Self::of_code(code)->0.code() == code,
    {
    }

    /// Two identifiers with the same code are the same identifier.
    pub proof fn code_is_injective(a: UnitTypeId, b: UnitTypeId)
        requires
            a.code() == b.code(),
        ensures
            a == b,
    {
    }
}

/// The number of upgrades in the stable identifier table: the codes are `0..UPGRADE_ID_COUNT`.
pub const UPGRADE_ID_COUNT: u32 = 296;

/// The stable code of a known upgrade.
#[derive(Clone, Copy, Debug, PartialEq, Eq, Hash, Structural)]
pub struct UpgradeId {
    code: u32,
}

impl UpgradeId {
    /// Whether the space holds `code`.
    pub open spec fn known(code: u32) -> bool {
        code < UPGRADE_ID_COUNT
    }

    /// The engine's code for this identifier.
    pub closed spec fn code(self) -> u32 {
        self.code
    }

    /// The identifier that a code resolves to.
    pub closed spec fn of_code(code: u32) -> Option<UpgradeId> {
        if Self::known(code) {
            Some(UpgradeId { code })
        } else {
            None
        }
    }

    #[verifier::type_invariant]
    spec fn resolvable(self) -> bool {
        Self::known(self.code)
    }

    /// The identifier of an optional field: `None` where the field was left out or
    /// holds a code that the space does not hold.
    pub open spec fn of_field(field: Option<u32>) -> Option<UpgradeId> {
        match field {
            Some(code) => Self::of_code(code),
            None => None,
        }
    }

    /// The identifier with the given code, or `None` where the space does not hold it.
    pub fn from_u32(code: u32) -> (id: Option<UpgradeId>)
        ensures
            id == Self::of_code(code),
            id is Some <==> Self::known(code),
            id is Some ==> id->0.code() == code,
    {
        if code < UPGRADE_ID_COUNT {
            Some(UpgradeId { code })
        } else {
            None
        }
    }

    /// The identifier of an optional field.
    pub fn from_field(field: Option<u32>) -> (id: Option<UpgradeId>)
        ensures
            id == Self::of_field(field),
    {
        match field {
            Some(code) => Self::from_u32(code),
            None => None,
        }
    }

    /// The engine's code for this identifier, which the space holds and which
    /// resolves to this identifier again.
    pub fn to_u32(self) -> (code: u32)
        ensures
            code == self.code(),
            Self::known(code),
            Self::of_code(code) == Some(self),
    {
        proof {
            use_type_invariant(self);
        }
        self.code
    }

    /// A code resolves exactly where the space holds it, and to the identifier that
    /// has this code.
    pub proof fn of_code_resolves(code: u32)
        ensures
            Self::of_code(code) is Some <==> Self::known(code),
            Self::of_code(code) is Some ==> Self::of_code(code)->0.code() == code,
    {
    }

    /// Two identifiers with the same code are the same identifier.
    pub proof fn code_is_injective(a: UpgradeId, b: UpgradeId)
        requires
            a.code() == b.code(),
        ensures
            a == b,
    {
    }
}

/// The number of buffs in the stable identifier table: the codes are `0..BUFF_ID_COUNT`.
pub const BUFF_ID_COUNT: u32 = 289;

/// The stable code of a known buff.
#[derive(Clone, Copy, Debug, PartialEq, Eq, Hash, Structural)]
pub struct BuffId {
    code: u32,
}

impl BuffId {
    /// Whether the space holds `code`.
    pub open spec fn known(code: u32) -> bool {
        code < BUFF_ID_COUNT
    }

    /// The engine's code for this identifier.
    pub closed spec fn code(self) -> u32 {
        self.code
    }

    /// The identifier that a code resolves to.
    pub closed spec fn of_code(code: u32) -> Option<BuffId> {
        if Self::known(code) {
            Some(BuffId { code })
        } else {
            None
        }
    }

    #[verifier::type_invariant]
    spec fn resolvable(self) -> bool {
        Self::known(self.code)
    }

    /// The identifier of an optional field: `None` where the field was left out or
    /// holds a code that the space does not hold.
    pub open spec fn of_field(field: Option<u32>) -> Option<BuffId> {
        match field {
            Some(code) => Self::of_code(code),
            None => None,
        }
    }

    /// The identifier with the given code, or `None` where the space does not hold it.
    pub fn from_u32(code: u32) -> (id: Option<BuffId>)
        ensures
            id == Self::of_code(code),
            id is Some <==> Self::known(code),
            id is Some ==> id->0.code() == code,
    {
        if code < BUFF_ID_COUNT {
            Some(BuffId { code })
        } else {
            None
        }
    }

    /// The identifier of an optional field.
    pub fn from_field(field: Option<u32>) -> (id: Option<BuffId>)
        ensures
            id == Self::of_field(field),
    {
        match field {
            Some(code) => Self::from_u32(code),
            None => None,
        }
    }

    /// The engine's code for this identifier, which the space holds and which
    /// resolves to this identifier again.
    pub fn to_u32(self) -> (code: u32)
        ensures
            code == self.code(),
            Self::known(code),
            Self::of_code(code) == Some(self),
    {
        proof {
            use_type_invariant(self);
        }
        self.code
    }

    /// A code resolves exactly where the space holds it, and to the identifier that
    /// has this code.
    pub proof fn of_code_resolves(code: u32)
        ensures
            Self::of_code(code) is Some <==> Self::known(code),
            Self::of_code(code) is Some ==> Self::of_code(code)->0.code() == code,
    {
    }

    /// Two identifiers with the same code are the same identifier.
    pub proof fn code_is_injective(a: BuffId, b: BuffId)
        requires
            a.code() == b.code(),
        ensures
            a == b,
    {
    }
}

/// The number of effects in the stable identifier table.
pub const EFFECT_ID_COUNT: u32 = 13;

/// A known persistent effect, in the order of the engine's codes, from 0.
#[derive(Clone, Copy, Debug, PartialEq, Eq, Hash, Structural)]
pub enum EffectId {
    Null,
    PsiStormPersistent,
    GuardianShieldPersistent,
    TemporalFieldGrowingBubbleCreatePersistent,
    TemporalFieldAfterBubbleCreatePersistent,
    ThermalLancesForward,
    ScannerSweep,
    NukePersistent,
    LiberatorTargetMorphDelayPersistent,
    LiberatorTargetMorphPersistent,
    BlindingCloudCP,
    RavagerCorrosiveBileCP,
    LurkerMP,
}

impl EffectId {
    /// Whether the space holds `code`.
    pub open spec fn known(code: u32) -> bool {
        code < EFFECT_ID_COUNT
    }

    /// The engine's code for this identifier.
    pub open spec fn code(self) -> u32 {
        match self {
            EffectId::Null => 0,
            EffectId::PsiStormPersistent => 1,
            EffectId::GuardianShieldPersistent => 2,
            EffectId::TemporalFieldGrowingBubbleCreatePersistent => 3,
            EffectId::TemporalFieldAfterBubbleCreatePersistent => 4,
            EffectId::ThermalLancesForward => 5,
            EffectId::ScannerSweep => 6,
            EffectId::NukePersistent => 7,
            EffectId::LiberatorTargetMorphDelayPersistent => 8,
            EffectId::LiberatorTargetMorphPersistent => 9,
            EffectId::BlindingCloudCP => 10,
            EffectId::RavagerCorrosiveBileCP => 11,
            EffectId::LurkerMP => 12,
        }
    }

    /// The identifier that a code resolves to.
    pub open spec fn of_code(code: u32) -> Option<EffectId> {
        match code {
            0 => Some(EffectId::Null),
            1 => Some(EffectId::PsiStormPersistent),
            2 => Some(EffectId::GuardianShieldPersistent),
            3 => Some(EffectId::TemporalFieldGrowingBubbleCreatePersistent),
            4 => Some(EffectId::TemporalFieldAfterBubbleCreatePersistent),
            5 => Some(EffectId::ThermalLancesForward),
            6 => Some(EffectId::ScannerSweep),
            7 => Some(EffectId::NukePersistent),
            8 => Some(EffectId::LiberatorTargetMorphDelayPersistent),
            9 => Some(EffectId::LiberatorTargetMorphPersistent),
            10 => Some(EffectId::BlindingCloudCP),
            11 => Some(EffectId::RavagerCorrosiveBileCP),
            12 => Some(EffectId::LurkerMP),
            _ => None,
        }
    }

    /// The identifier of an optional field: `None` where the field was left out or
    /// holds a code that the space does not hold.
    pub open spec fn of_field(field: Option<u32>) -> Option<EffectId> {
        match field {
            Some(code) => Self::of_code(code),
            None => None,
        }
    }

    /// The identifier with the given code, or `None` where the space does not hold it.
    pub fn from_u32(code: u32) -> (id: Option<EffectId>)
        ensures
            id == Self::of_code(code),
            id is Some <==> Self::known(code),
            id is Some ==> id->0.code() == code,
    {
        match code {
            0 => Some(EffectId::Null),
            1 => Some(EffectId::PsiStormPersistent),
            2 => Some(EffectId::GuardianShieldPersistent),
            3 => Some(EffectId::TemporalFieldGrowingBubbleCreatePersistent),
            4 => Some(EffectId::TemporalFieldAfterBubbleCreatePersistent),
            5 => Some(EffectId::ThermalLancesForward),
            6 => Some(EffectId::ScannerSweep),
            7 => Some(EffectId::NukePersistent),
            8 => Some(EffectId::LiberatorTargetMorphDelayPersistent),
            9 => Some(EffectId::LiberatorTargetMorphPersistent),
            10 => Some(EffectId::BlindingCloudCP),
            11 => Some(EffectId::RavagerCorrosiveBileCP),
            12 => Some(EffectId::LurkerMP),
            _ => None,
        }
    }

    /// The identifier of an optional field.
    pub fn from_field(field: Option<u32>) -> (id: Option<EffectId>)
        ensures
            id == Self::of_field(field),
    {
        match field {
            Some(code) => Self::from_u32(code),
            None => None,
        }
    }

    /// The engine's code for this identifier, which the space holds and which
    /// resolves to this identifier again.
    pub fn to_u32(self) -> (code: u32)
        ensures
            code == self.code(),
            Self::known(code),
            Self::of_code(code) == Some(self),
    {
        match self {
            EffectId::Null => 0,
            EffectId::PsiStormPersistent => 1,
            EffectId::GuardianShieldPersistent => 2,
            EffectId::TemporalFieldGrowingBubbleCreatePersistent => 3,
            EffectId::TemporalFieldAfterBubbleCreatePersistent => 4,
            EffectId::ThermalLancesForward => 5,
            EffectId::ScannerSweep => 6,
            EffectId::NukePersistent => 7,
            EffectId::LiberatorTargetMorphDelayPersistent => 8,
            EffectId::LiberatorTargetMorphPersistent => 9,
            EffectId::BlindingCloudCP => 10,
            EffectId::RavagerCorrosiveBileCP => 11,
            EffectId::LurkerMP => 12,
        }
    }

    /// A code resolves exactly where the space holds it, and to the identifier that
    /// has this code.
    pub proof fn of_code_resolves(code: u32)
        ensures
            Self::of_code(code) is Some <==> Self::known(code),
            Self::of_code(code) is Some ==> Self::of_code(code)->0.code() == code,
    {
    }

    /// Every identifier is what its own code resolves to: two identifiers with the
    /// same code are the same.
    pub proof fn code_round_trip(id: EffectId)
        ensures
            Self::known(id.code()),
            Self::of_code(id.code()) == Some(id),
    {

    }
}

} // verus!
