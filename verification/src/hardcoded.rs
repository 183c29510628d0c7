//! Lists that were put together by hand: the kinds of cargo hold that ships
//! have, with what each may carry.

use vstd::prelude::*;
use crate::types::ids::AttributeID;
use crate::util::item_list::TypeList;

verus! {

/// A kind of cargo hold.
#[derive(Debug, Copy, Clone)]
pub struct CargoHoldType<'a> {
    /// The attribute that gives the capacity of the hold.
    pub attribute_id: Option<AttributeID>,
    /// The types that the hold may carry; every type where there is no list.
    pub filter: Option<TypeList<'a>>,
    /// Whether the hold carries packaged ships.
    pub packaged_ships: bool,
    /// Whether the hold carries assembled ships.
    pub assembled_ships: bool,
}

impl<'a> CargoHoldType<'a> {
    /// Whether the hold may carry the type `type_id` of the group `group_id`
    /// and the category `category_id`.
    pub fn carries(&self, type_id: u32, group_id: u32, category_id: u32) -> (b: bool)
        ensures
            b == match self.filter {
                Some(list) => list.spec_includes_type(type_id, group_id, category_id),
                None => true,
            },
    {
        match &self.filter {
            Some(list) => list.includes_type(type_id, group_id, category_id),
            None => true,
        }
    }
}

/// The bay that carries assembled ships.
pub fn ship_maintenance_bay() -> (hold: CargoHoldType<'static>)
    ensures
        hold.attribute_id == Some(908u32),
        hold.packaged_ships == false,
        hold.assembled_ships == true,
        hold.filter is Some,
        hold.filter->0.included_types@.len() == 0,
        hold.filter->0.excluded_types@.len() == 0,
        hold.filter->0.included_groups@.len() == 0,
        hold.filter->0.excluded_groups@.len() == 0,
        hold.filter->0.included_categories@ == seq![6u32],
        hold.filter->0.excluded_categories@.len() == 0,
{
    let included_types: &'static [u32] = &[];
    let excluded_types: &'static [u32] = &[];
    let included_groups: &'static [u32] = &[];
    let excluded_groups: &'static [u32] = &[];
    let included_categories: &'static [u32] = &[6];
    let excluded_categories: &'static [u32] = &[];
    CargoHoldType {
        attribute_id: Some(908),
        filter: Some(
            TypeList {
                included_types,
                excluded_types,
                included_groups,
                excluded_groups,
                included_categories,
                excluded_categories,
            },
        ),
        packaged_ships: false,
        assembled_ships: true,
    }
}

/// The ship bay of the Rorqual, which carries industrial ships only.
pub fn ship_maintenance_bay_rorqual() -> (hold: CargoHoldType<'static>)
    ensures
        hold.attribute_id == Some(908u32),
        hold.packaged_ships == false,
        hold.assembled_ships == true,
        hold.filter is Some,
        hold.filter->0.included_types@.len() == 0,
        hold.filter->0.excluded_types@.len() == 0,
        hold.filter->0.included_groups@ == seq![28u32, 380u32, 1202u32, 463u32, 543u32],
        hold.filter->0.excluded_groups@.len() == 0,
        hold.filter->0.included_categories@.len() == 0,
        hold.filter->0.excluded_categories@.len() == 0,
{
    let included_types: &'static [u32] = &[];
    let excluded_types: &'static [u32] = &[];
    let included_groups: &'static [u32] = &[28, 380, 1202, 463, 543];
    let excluded_groups: &'static [u32] = &[];
    let included_categories: &'static [u32] = &[];
    let excluded_categories: &'static [u32] = &[];
    CargoHoldType {
        attribute_id: Some(908),
        filter: Some(
            TypeList {
                included_types,
                excluded_types,
                included_groups,
                excluded_groups,
                included_categories,
                excluded_categories,
            },
        ),
        packaged_ships: false,
        assembled_ships: true,
    }
}

/// The hangar that carries everything, ships too.
pub fn fleet_hangar() -> (hold: CargoHoldType<'static>)
    ensures
        hold.attribute_id == Some(912u32),
        hold.packaged_ships == true,
        hold.assembled_ships == true,
        hold.filter is None,
{
    CargoHoldType {
        attribute_id: Some(912),
        filter: None,
        packaged_ships: true,
        assembled_ships: true,
    }
}

/// The bay for ice products.
pub fn fuel_bay() -> (hold: CargoHoldType<'static>)
    ensures
        hold.attribute_id == Some(1549u32),
        hold.packaged_ships == false,
        hold.assembled_ships == false,
        hold.filter is Some,
        hold.filter->0.included_types@.len() == 0,
        hold.filter->0.excluded_types@.len() == 0,
        hold.filter->0.included_groups@ == seq![423u32],
        hold.filter->0.excluded_groups@.len() == 0,
        hold.filter->0.included_categories@.len() == 0,
        hold.filter->0.excluded_categories@.len() == 0,
{
    let included_types: &'static [u32] = &[];
    let excluded_types: &'static [u32] = &[];
    let included_groups: &'static [u32] = &[423];
    let excluded_groups: &'static [u32] = &[];
    let included_categories: &'static [u32] = &[];
    let excluded_categories: &'static [u32] = &[];
    CargoHoldType {
        attribute_id: Some(1549),
        filter: Some(
            TypeList {
                included_types,
                excluded_types,
                included_groups,
                excluded_groups,
                included_categories,
                excluded_categories,
            },
        ),
        packaged_ships: false,
        assembled_ships: false,
    }
}

/// The hold for ore and gas.
pub fn mining_hold() -> (hold: CargoHoldType<'static>)
    ensures
        hold.attribute_id == Some(1556u32),
        hold.packaged_ships == false,
        hold.assembled_ships == false,
        hold.filter is Some,
        hold.filter->0.included_types@.len() == 0,
        hold.filter->0.excluded_types@.len() == 0,
        hold.filter->0.included_groups@ == seq![711u32],
        hold.filter->0.excluded_groups@.len() == 0,
        hold.filter->0.included_categories@ == seq![25u32],
        hold.filter->0.excluded_categories@.len() == 0,
{
    let included_types: &'static [u32] = &[];
    let excluded_types: &'static [u32] = &[];
    let included_groups: &'static [u32] = &[711];
    let excluded_groups: &'static [u32] = &[];
    let included_categories: &'static [u32] = &[25];
    let excluded_categories: &'static [u32] = &[];
    CargoHoldType {
        attribute_id: Some(1556),
        filter: Some(
            TypeList {
                included_types,
                excluded_types,
                included_groups,
                excluded_groups,
                included_categories,
                excluded_categories,
            },
        ),
        packaged_ships: false,
        assembled_ships: false,
    }
}

/// The hold for gas.
pub fn gas_hold() -> (hold: CargoHoldType<'static>)
    ensures
        hold.attribute_id == Some(1557u32),
        hold.packaged_ships == false,
        hold.assembled_ships == false,
        hold.filter is Some,
        hold.filter->0.included_types@.len() == 0,
        hold.filter->0.excluded_types@.len() == 0,
        hold.filter->0.included_groups@ == seq![711u32],
        hold.filter->0.excluded_groups@.len() == 0,
        hold.filter->0.included_categories@.len() == 0,
        hold.filter->0.excluded_categories@.len() == 0,
{
    let included_types: &'static [u32] = &[];
    let excluded_types: &'static [u32] = &[];
    let included_groups: &'static [u32] = &[711];
    let excluded_groups: &'static [u32] = &[];
    let included_categories: &'static [u32] = &[];
    let excluded_categories: &'static [u32] = &[];
    CargoHoldType {
        attribute_id: Some(1557),
        filter: Some(
            TypeList {
                included_types,
                excluded_types,
                included_groups,
                excluded_groups,
                included_categories,
                excluded_categories,
            },
        ),
        packaged_ships: false,
        assembled_ships: false,
    }
}

/// The hold for minerals.
pub fn mineral_hold() -> (hold: CargoHoldType<'static>)
    ensures
        hold.attribute_id == Some(1558u32),
        hold.packaged_ships == false,
        hold.assembled_ships == false,
        hold.filter is Some,
        hold.filter->0.included_types@.len() == 0,
        hold.filter->0.excluded_types@.len() == 0,
        hold.filter->0.included_groups@ == seq![18u32],
        hold.filter->0.excluded_groups@.len() == 0,
        hold.filter->0.included_categories@.len() == 0,
        hold.filter->0.excluded_categories@.len() == 0,
{
    let included_types: &'static [u32] = &[];
    let excluded_types: &'static [u32] = &[];
    let included_groups: &'static [u32] = &[18];
    let excluded_groups: &'static [u32] = &[];
    let included_categories: &'static [u32] = &[];
    let excluded_categories: &'static [u32] = &[];
    CargoHoldType {
        attribute_id: Some(1558),
        filter: Some(
            TypeList {
                included_types,
                excluded_types,
                included_groups,
                excluded_groups,
                included_categories,
                excluded_categories,
            },
        ),
        packaged_ships: false,
        assembled_ships: false,
    }
}

/// The hold for charges.
pub fn ammo_hold() -> (hold: CargoHoldType<'static>)
    ensures
        hold.attribute_id == Some(1573u32),
        hold.packaged_ships == false,
        hold.assembled_ships == false,
        hold.filter is Some,
        hold.filter->0.included_types@.len() == 0,
        hold.filter->0.excluded_types@.len() == 0,
        hold.filter->0.included_groups@.len() == 0,
        hold.filter->0.excluded_groups@.len() == 0,
        hold.filter->0.included_categories@ == seq![8u32],
        hold.filter->0.excluded_categories@.len() == 0,
{
    let included_types: &'static [u32] = &[];
    let excluded_types: &'static [u32] = &[];
    let included_groups: &'static [u32] = &[];
    let excluded_groups: &'static [u32] = &[];
    let included_categories: &'static [u32] = &[8];
    let excluded_categories: &'static [u32] = &[];
    CargoHoldType {
        attribute_id: Some(1573),
        filter: Some(
            TypeList {
                included_types,
                excluded_types,
                included_groups,
                excluded_groups,
                included_categories,
                excluded_categories,
            },
        ),
        packaged_ships: false,
        assembled_ships: false,
    }
}

/// The hold for command centers.
pub fn command_center_hold() -> (hold: CargoHoldType<'static>)
    ensures
        hold.attribute_id == Some(1646u32),
        hold.packaged_ships == false,
        hold.assembled_ships == false,
        hold.filter is Some,
        hold.filter->0.included_types@.len() == 0,
        hold.filter->0.excluded_types@.len() == 0,
        hold.filter->0.included_groups@ == seq![1027u32],
        hold.filter->0.excluded_groups@.len() == 0,
        hold.filter->0.included_categories@.len() == 0,
        hold.filter->0.excluded_categories@.len() == 0,
{
    let included_types: &'static [u32] = &[];
    let excluded_types: &'static [u32] = &[];
    let included_groups: &'static [u32] = &[1027];
    let excluded_groups: &'static [u32] = &[];
    let included_categories: &'static [u32] = &[];
    let excluded_categories: &'static [u32] = &[];
    CargoHoldType {
        attribute_id: Some(1646),
        filter: Some(
            TypeList {
                included_types,
                excluded_types,
                included_groups,
                excluded_groups,
                included_categories,
                excluded_categories,
            },
        ),
        packaged_ships: false,
        assembled_ships: false,
    }
}

/// The hold for planetary resources and commodities.
pub fn planetary_commodities_hold() -> (hold: CargoHoldType<'static>)
    ensures
        hold.attribute_id == Some(1653u32),
        hold.packaged_ships == false,
        hold.assembled_ships == false,
        hold.filter is Some,
        hold.filter->0.included_types@.len() == 0,
        hold.filter->0.excluded_types@.len() == 0,
        hold.filter->0.included_groups@.len() == 0,
        hold.filter->0.excluded_groups@.len() == 0,
        hold.filter->0.included_categories@ == seq![42u32, 43u32],
        hold.filter->0.excluded_categories@.len() == 0,
{
    let included_types: &'static [u32] = &[];
    let excluded_types: &'static [u32] = &[];
    let included_groups: &'static [u32] = &[];
    let excluded_groups: &'static [u32] = &[];
    let included_categories: &'static [u32] = &[42, 43];
    let excluded_categories: &'static [u32] = &[];
    CargoHoldType {
        attribute_id: Some(1653),
        filter: Some(
            TypeList {
                included_types,
                excluded_types,
                included_groups,
                excluded_groups,
                included_categories,
                excluded_categories,
            },
        ),
        packaged_ships: false,
        assembled_ships: false,
    }
}

/// The hold for Quafe.
pub fn quafe_hold() -> (hold: CargoHoldType<'static>)
    ensures
        hold.attribute_id == Some(1804u32),
        hold.packaged_ships == false,
        hold.assembled_ships == false,
        hold.filter is Some,
        hold.filter->0.included_types@ == seq![3699u32, 12865u32, 57422u32, 21661u32, 3898u32, 60575u32, 12994u32],
        hold.filter->0.excluded_types@.len() == 0,
        hold.filter->0.included_groups@.len() == 0,
        hold.filter->0.excluded_groups@.len() == 0,
        hold.filter->0.included_categories@.len() == 0,
        hold.filter->0.excluded_categories@.len() == 0,
{
    let included_types: &'static [u32] = &[3699, 12865, 57422, 21661, 3898, 60575, 12994];
    let excluded_types: &'static [u32] = &[];
    let included_groups: &'static [u32] = &[];
    let excluded_groups: &'static [u32] = &[];
    let included_categories: &'static [u32] = &[];
    let excluded_categories: &'static [u32] = &[];
    CargoHoldType {
        attribute_id: Some(1804),
        filter: Some(
            TypeList {
                included_types,
                excluded_types,
                included_groups,
                excluded_groups,
                included_categories,
                excluded_categories,
            },
        ),
        packaged_ships: false,
        assembled_ships: false,
    }
}

/// The hold for corpses.
pub fn corpse_hold() -> (hold: CargoHoldType<'static>)
    ensures
        hold.attribute_id == Some(2467u32),
        hold.packaged_ships == false,
        hold.assembled_ships == false,
        hold.filter is Some,
        hold.filter->0.included_types@.len() == 0,
        hold.filter->0.excluded_types@.len() == 0,
        hold.filter->0.included_groups@ == seq![14u32],
        hold.filter->0.excluded_groups@.len() == 0,
        hold.filter->0.included_categories@.len() == 0,
        hold.filter->0.excluded_categories@.len() == 0,
{
    let included_types: &'static [u32] = &[];
    let excluded_types: &'static [u32] = &[];
    let included_groups: &'static [u32] = &[14];
    let excluded_groups: &'static [u32] = &[];
    let included_categories: &'static [u32] = &[];
    let excluded_categories: &'static [u32] = &[];
    CargoHoldType {
        attribute_id: Some(2467),
        filter: Some(
            TypeList {
                included_types,
                excluded_types,
                included_groups,
                excluded_groups,
                included_categories,
                excluded_categories,
            },
        ),
        packaged_ships: false,
        assembled_ships: false,
    }
}

/// The hold for boosters.
pub fn booster_hold() -> (hold: CargoHoldType<'static>)
    ensures
        hold.attribute_id == Some(2657u32),
        hold.packaged_ships == false,
        hold.assembled_ships == false,
        hold.filter is Some,
        hold.filter->0.included_types@.len() == 0,
        hold.filter->0.excluded_types@.len() == 0,
        hold.filter->0.included_groups@ == seq![303u32],
        hold.filter->0.excluded_groups@.len() == 0,
        hold.filter->0.included_categories@.len() == 0,
        hold.filter->0.excluded_categories@.len() == 0,
{
    let included_types: &'static [u32] = &[];
    let excluded_types: &'static [u32] = &[];
    let included_groups: &'static [u32] = &[303];
    let excluded_groups: &'static [u32] = &[];
    let included_categories: &'static [u32] = &[];
    let excluded_categories: &'static [u32] = &[];
    CargoHoldType {
        attribute_id: Some(2657),
        filter: Some(
            TypeList {
                included_types,
                excluded_types,
                included_groups,
                excluded_groups,
                included_categories,
                excluded_categories,
            },
        ),
        packaged_ships: false,
        assembled_ships: false,
    }
}

/// The hold for subsystems.
pub fn subsystem_hold() -> (hold: CargoHoldType<'static>)
    ensures
        hold.attribute_id == Some(2675u32),
        hold.packaged_ships == false,
        hold.assembled_ships == false,
        hold.filter is Some,
        hold.filter->0.included_types@.len() == 0,
        hold.filter->0.excluded_types@.len() == 0,
        hold.filter->0.included_groups@.len() == 0,
        hold.filter->0.excluded_groups@.len() == 0,
        hold.filter->0.included_categories@ == seq![32u32],
        hold.filter->0.excluded_categories@.len() == 0,
{
    let included_types: &'static [u32] = &[];
    let excluded_types: &'static [u32] = &[];
    let included_groups: &'static [u32] = &[];
    let excluded_groups: &'static [u32] = &[];
    let included_categories: &'static [u32] = &[32];
    let excluded_categories: &'static [u32] = &[];
    CargoHoldType {
        attribute_id: Some(2675),
        filter: Some(
            TypeList {
                included_types,
                excluded_types,
                included_groups,
                excluded_groups,
                included_categories,
                excluded_categories,
            },
        ),
        packaged_ships: false,
        assembled_ships: false,
    }
}

/// The hold for ice.
pub fn ice_hold() -> (hold: CargoHoldType<'static>)
    ensures
        hold.attribute_id == Some(3136u32),
        hold.packaged_ships == false,
        hold.assembled_ships == false,
        hold.filter is Some,
        hold.filter->0.included_types@.len() == 0,
        hold.filter->0.excluded_types@.len() == 0,
        hold.filter->0.included_groups@ == seq![465u32],
        hold.filter->0.excluded_groups@.len() == 0,
        hold.filter->0.included_categories@.len() == 0,
        hold.filter->0.excluded_categories@.len() == 0,
{
    let included_types: &'static [u32] = &[];
    let excluded_types: &'static [u32] = &[];
    let included_groups: &'static [u32] = &[465];
    let excluded_groups: &'static [u32] = &[];
    let included_categories: &'static [u32] = &[];
    let excluded_categories: &'static [u32] = &[];
    CargoHoldType {
        attribute_id: Some(3136),
        filter: Some(
            TypeList {
                included_types,
                excluded_types,
                included_groups,
                excluded_groups,
                included_categories,
                excluded_categories,
            },
        ),
        packaged_ships: false,
        assembled_ships: false,
    }
}

/// The hold for mobile depots.
pub fn mobile_depot_hold() -> (hold: CargoHoldType<'static>)
    ensures
        hold.attribute_id == Some(5325u32),
        hold.packaged_ships == false,
        hold.assembled_ships == false,
        hold.filter is Some,
        hold.filter->0.included_types@.len() == 0,
        hold.filter->0.excluded_types@.len() == 0,
        hold.filter->0.included_groups@ == seq![1246u32],
        hold.filter->0.excluded_groups@.len() == 0,
        hold.filter->0.included_categories@.len() == 0,
        hold.filter->0.excluded_categories@.len() == 0,
{
    let included_types: &'static [u32] = &[];
    let excluded_types: &'static [u32] = &[];
    let included_groups: &'static [u32] = &[1246];
    let excluded_groups: &'static [u32] = &[];
    let included_categories: &'static [u32] = &[];
    let excluded_categories: &'static [u32] = &[];
    CargoHoldType {
        attribute_id: Some(5325),
        filter: Some(
            TypeList {
                included_types,
                excluded_types,
                included_groups,
                excluded_groups,
                included_categories,
                excluded_categories,
            },
        ),
        packaged_ships: false,
        assembled_ships: false,
    }
}

/// The hold for structures, their modules and ammunition, and what colonies make and use.
pub fn infrastructure_hold() -> (hold: CargoHoldType<'static>)
    ensures
        hold.attribute_id == Some(5646u32),
        hold.packaged_ships == false,
        hold.assembled_ships == false,
        hold.filter is Some,
        hold.filter->0.included_types@.len() == 0,
        hold.filter->0.excluded_types@.len() == 0,
        hold.filter->0.included_groups@ == seq![4729u32, 1546u32, 1547u32, 1548u32, 1549u32, 1551u32, 1976u32, 4186u32, 4777u32, 4778u32, 4779u32, 4736u32, 1106u32, 427u32, 1136u32, 42u32, 43u32, 423u32],
        hold.filter->0.excluded_groups@.len() == 0,
        hold.filter->0.included_categories@ == seq![42u32, 43u32, 65u32, 66u32, 40u32, 39u32, 22u32],
        hold.filter->0.excluded_categories@.len() == 0,
{
    let included_types: &'static [u32] = &[];
    let excluded_types: &'static [u32] = &[];
    let included_groups: &'static [u32] = &[4729, 1546, 1547, 1548, 1549, 1551, 1976, 4186, 4777, 4778, 4779, 4736, 1106, 427, 1136, 42, 43, 423];
    let excluded_groups: &'static [u32] = &[];
    let included_categories: &'static [u32] = &[42, 43, 65, 66, 40, 39, 22];
    let excluded_categories: &'static [u32] = &[];
    CargoHoldType {
        attribute_id: Some(5646),
        filter: Some(
            TypeList {
                included_types,
                excluded_types,
                included_groups,
                excluded_groups,
                included_categories,
                excluded_categories,
            },
        ),
        packaged_ships: false,
        assembled_ships: false,
    }
}

/// The short names under which the kinds of cargo hold are listed, in the
/// order of the list.
pub open spec fn hold_names() -> Seq<Seq<char>> {
    seq![
        "SMB"@,
        "SMB_RORQ"@,
        "FLEET"@,
        "FUEL"@,
        "MINING"@,
        "GAS"@,
        "MINERAL"@,
        "AMMO"@,
        "COMMAND_CENTER"@,
        "PI"@,
        "QUAFE"@,
        "CORPSE"@,
        "BOOSTER"@,
        "SUBSYSTEM"@,
        "ICE"@,
        "DEPOT"@,
        "INFRASTRUCTURE"@,
    ]
}

/// Every kind of cargo hold with its short name, in the order of the list.
pub fn export() -> (holds: Vec<(&'static str, CargoHoldType<'static>)>)
    ensures
        holds.len() == 17,
        forall|i: int| 0 <= i < 17 ==> (#[trigger] holds@[i]).0@ == hold_names()[i],
{
    let mut holds: Vec<(&'static str, CargoHoldType<'static>)> = Vec::new();
    holds.push(("SMB", ship_maintenance_bay()));
    holds.push(("SMB_RORQ", ship_maintenance_bay_rorqual()));
    holds.push(("FLEET", fleet_hangar()));
    holds.push(("FUEL", fuel_bay()));
    holds.push(("MINING", mining_hold()));
    holds.push(("GAS", gas_hold()));
    holds.push(("MINERAL", mineral_hold()));
    holds.push(("AMMO", ammo_hold()));
    holds.push(("COMMAND_CENTER", command_center_hold()));
    holds.push(("PI", planetary_commodities_hold()));
    holds.push(("QUAFE", quafe_hold()));
    holds.push(("CORPSE", corpse_hold()));
    holds.push(("BOOSTER", booster_hold()));
    holds.push(("SUBSYSTEM", subsystem_hold()));
    holds.push(("ICE", ice_hold()));
    holds.push(("DEPOT", mobile_depot_hold()));
    holds.push(("INFRASTRUCTURE", infrastructure_hold()));
    holds
}

} // verus!
