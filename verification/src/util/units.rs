//! The units in which attribute values are measured.

use vstd::prelude::*;

verus! {

/// A unit of measure.
#[allow(non_camel_case_types)]
#[derive(Debug, Copy, Clone, Eq, PartialEq, Structural)]
pub enum EVEUnit {
    Meter,
    Kilogram,
    Second,
    Ampere,
    Kelvin,
    Mol,
    Candela,
    M2,
    M3,
    M_per_sec,
    M_per_sec2,
    WaveNumber,
    Kg_per_m3,
    M3_per_kg,
    A_per_m2,
    A_per_m,
    Mol_per_m3,
    Candela_per_m2,
    MassFraction,
    Milliseconds,
    Millimeters,
    MegaPascals,
    Multiplier,
    Percentage,
    Teraflops,
    MegaWatts,
    InversePercentage,
    ModifierPercent,
    InverseModifierPercent,
    Rad_per_sec,
    Hitpoints,
    GigaJoule,
    GroupID,
    TypeID,
    SizeClass,
    OreUnits,
    AttributeID,
    Points,
    RealPercent,
    FittingSlots,
    Seconds,
    ModifierRelativePercent,
    Newton,
    LightYear,
    AbsolutePercent,
    Mbit_per_sec,
    Hours,
    ISK,
    M3_per_Hour,
    AU,
    Slot,
    Boolean,
    Units,
    Bonus,
    Level,
    Hardpoints,
    Sex,
    Datetime,
    AU_per_Second,
    ModifierRealPercent,
}

impl EVEUnit {
    /// The number of a unit in the static data.
    pub open spec fn spec_id(self) -> u32 {
        match self {
            EVEUnit::Meter => 1,
            EVEUnit::Kilogram => 2,
            EVEUnit::Second => 3,
            EVEUnit::Ampere => 4,
            EVEUnit::Kelvin => 5,
            EVEUnit::Mol => 6,
            EVEUnit::Candela => 7,
            EVEUnit::M2 => 8,
            EVEUnit::M3 => 9,
            EVEUnit::M_per_sec => 10,
            EVEUnit::M_per_sec2 => 11,
            EVEUnit::WaveNumber => 12,
            EVEUnit::Kg_per_m3 => 13,
            EVEUnit::M3_per_kg => 14,
            EVEUnit::A_per_m2 => 15,
            EVEUnit::A_per_m => 16,
            EVEUnit::Mol_per_m3 => 17,
            EVEUnit::Candela_per_m2 => 18,
            EVEUnit::MassFraction => 19,
            EVEUnit::Milliseconds => 101,
            EVEUnit::Millimeters => 102,
            EVEUnit::MegaPascals => 103,
            EVEUnit::Multiplier => 104,
            EVEUnit::Percentage => 105,
            EVEUnit::Teraflops => 106,
            EVEUnit::MegaWatts => 107,
            EVEUnit::InversePercentage => 108,
            EVEUnit::ModifierPercent => 109,
            EVEUnit::InverseModifierPercent => 111,
            EVEUnit::Rad_per_sec => 112,
            EVEUnit::Hitpoints => 113,
            EVEUnit::GigaJoule => 114,
            EVEUnit::GroupID => 115,
            EVEUnit::TypeID => 116,
            EVEUnit::SizeClass => 117,
            EVEUnit::OreUnits => 118,
            EVEUnit::AttributeID => 119,
            EVEUnit::Points => 120,
            EVEUnit::RealPercent => 121,
            EVEUnit::FittingSlots => 122,
            EVEUnit::Seconds => 123,
            EVEUnit::ModifierRelativePercent => 124,
            EVEUnit::Newton => 125,
            EVEUnit::LightYear => 126,
            EVEUnit::AbsolutePercent => 127,
            EVEUnit::Mbit_per_sec => 128,
            EVEUnit::Hours => 129,
            EVEUnit::ISK => 133,
            EVEUnit::M3_per_Hour => 134,
            EVEUnit::AU => 135,
            EVEUnit::Slot => 136,
            EVEUnit::Boolean => 137,
            EVEUnit::Units => 138,
            EVEUnit::Bonus => 139,
            EVEUnit::Level => 140,
            EVEUnit::Hardpoints => 141,
            EVEUnit::Sex => 142,
            EVEUnit::Datetime => 143,
            EVEUnit::AU_per_Second => 144,
            EVEUnit::ModifierRealPercent => 205,
        }
    }

    /// The number of this unit in the static data.
    pub fn id(self) -> (n: u32)
        ensures
            n == self.spec_id(),
    {
        match self {
            EVEUnit::Meter => 1,
            EVEUnit::Kilogram => 2,
            EVEUnit::Second => 3,
            EVEUnit::Ampere => 4,
            EVEUnit::Kelvin => 5,
            EVEUnit::Mol => 6,
            EVEUnit::Candela => 7,
            EVEUnit::M2 => 8,
            EVEUnit::M3 => 9,
            EVEUnit::M_per_sec => 10,
            EVEUnit::M_per_sec2 => 11,
            EVEUnit::WaveNumber => 12,
            EVEUnit::Kg_per_m3 => 13,
            EVEUnit::M3_per_kg => 14,
            EVEUnit::A_per_m2 => 15,
            EVEUnit::A_per_m => 16,
            EVEUnit::Mol_per_m3 => 17,
            EVEUnit::Candela_per_m2 => 18,
            EVEUnit::MassFraction => 19,
            EVEUnit::Milliseconds => 101,
            EVEUnit::Millimeters => 102,
            EVEUnit::MegaPascals => 103,
            EVEUnit::Multiplier => 104,
            EVEUnit::Percentage => 105,
            EVEUnit::Teraflops => 106,
            EVEUnit::MegaWatts => 107,
            EVEUnit::InversePercentage => 108,
            EVEUnit::ModifierPercent => 109,
            EVEUnit::InverseModifierPercent => 111,
            EVEUnit::Rad_per_sec => 112,
            EVEUnit::Hitpoints => 113,
            EVEUnit::GigaJoule => 114,
            EVEUnit::GroupID => 115,
            EVEUnit::TypeID => 116,
            EVEUnit::SizeClass => 117,
            EVEUnit::OreUnits => 118,
            EVEUnit::AttributeID => 119,
            EVEUnit::Points => 120,
            EVEUnit::RealPercent => 121,
            EVEUnit::FittingSlots => 122,
            EVEUnit::Seconds => 123,
            EVEUnit::ModifierRelativePercent => 124,
            EVEUnit::Newton => 125,
            EVEUnit::LightYear => 126,
            EVEUnit::AbsolutePercent => 127,
            EVEUnit::Mbit_per_sec => 128,
            EVEUnit::Hours => 129,
            EVEUnit::ISK => 133,
            EVEUnit::M3_per_Hour => 134,
            EVEUnit::AU => 135,
            EVEUnit::Slot => 136,
            EVEUnit::Boolean => 137,
            EVEUnit::Units => 138,
            EVEUnit::Bonus => 139,
            EVEUnit::Level => 140,
            EVEUnit::Hardpoints => 141,
            EVEUnit::Sex => 142,
            EVEUnit::Datetime => 143,
            EVEUnit::AU_per_Second => 144,
            EVEUnit::ModifierRealPercent => 205,
        }
    }

    /// The unit with the number `id`, if there is one.
    pub fn from_id(id: u32) -> (unit: Option<EVEUnit>)
        ensures
            match unit {
                Some(u) => u.spec_id() == id,
                None => forall|u: EVEUnit| u.spec_id() != id,
            },
    {
        match id {
            1 => Some(EVEUnit::Meter),
            2 => Some(EVEUnit::Kilogram),
            3 => Some(EVEUnit::Second),
            4 => Some(EVEUnit::Ampere),
            5 => Some(EVEUnit::Kelvin),
            6 => Some(EVEUnit::Mol),
            7 => Some(EVEUnit::Candela),
            8 => Some(EVEUnit::M2),
            9 => Some(EVEUnit::M3),
            10 => Some(EVEUnit::M_per_sec),
            11 => Some(EVEUnit::M_per_sec2),
            12 => Some(EVEUnit::WaveNumber),
            13 => Some(EVEUnit::Kg_per_m3),
            14 => Some(EVEUnit::M3_per_kg),
            15 => Some(EVEUnit::A_per_m2),
            16 => Some(EVEUnit::A_per_m),
            17 => Some(EVEUnit::Mol_per_m3),
            18 => Some(EVEUnit::Candela_per_m2),
            19 => Some(EVEUnit::MassFraction),
            101 => Some(EVEUnit::Milliseconds),
            102 => Some(EVEUnit::Millimeters),
            103 => Some(EVEUnit::MegaPascals),
            104 => Some(EVEUnit::Multiplier),
            105 => Some(EVEUnit::Percentage),
            106 => Some(EVEUnit::Teraflops),
            107 => Some(EVEUnit::MegaWatts),
            108 => Some(EVEUnit::InversePercentage),
            109 => Some(EVEUnit::ModifierPercent),
            111 => Some(EVEUnit::InverseModifierPercent),
            112 => Some(EVEUnit::Rad_per_sec),
            113 => Some(EVEUnit::Hitpoints),
            114 => Some(EVEUnit::GigaJoule),
            115 => Some(EVEUnit::GroupID),
            116 => Some(EVEUnit::TypeID),
            117 => Some(EVEUnit::SizeClass),
            118 => Some(EVEUnit::OreUnits),
            119 => Some(EVEUnit::AttributeID),
            120 => Some(EVEUnit::Points),
            121 => Some(EVEUnit::RealPercent),
            122 => Some(EVEUnit::FittingSlots),
            123 => Some(EVEUnit::Seconds),
            124 => Some(EVEUnit::ModifierRelativePercent),
            125 => Some(EVEUnit::Newton),
            126 => Some(EVEUnit::LightYear),
            127 => Some(EVEUnit::AbsolutePercent),
            128 => Some(EVEUnit::Mbit_per_sec),
            129 => Some(EVEUnit::Hours),
            133 => Some(EVEUnit::ISK),
            134 => Some(EVEUnit::M3_per_Hour),
            135 => Some(EVEUnit::AU),
            136 => Some(EVEUnit::Slot),
            137 => Some(EVEUnit::Boolean),
            138 => Some(EVEUnit::Units),
            139 => Some(EVEUnit::Bonus),
            140 => Some(EVEUnit::Level),
            141 => Some(EVEUnit::Hardpoints),
            142 => Some(EVEUnit::Sex),
            143 => Some(EVEUnit::Datetime),
            144 => Some(EVEUnit::AU_per_Second),
            205 => Some(EVEUnit::ModifierRealPercent),
            _ => None,
        }
    }
}

} // verus!
