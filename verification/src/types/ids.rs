//! Identifiers of the static data. Identifiers of different kinds may overlap.

use vstd::prelude::*;

verus! {

pub type TypeID = u32;

pub type GroupID = u32;

pub type CategoryID = u32;

pub type MetaGroupID = u32;

pub type MarketGroupID = u32;

pub type IconID = u32;

pub type GraphicID = u32;

pub type AttributeID = u32;

pub type AttributeCategoryID = u32;

pub type EffectID = u32;

pub type EffectCategoryID = u32;

pub type StationOperationID = u32;

pub type StationActivityID = u32;

pub type StationServiceID = u32;

pub type DivisionID = u32;

pub type FlagID = u32;

pub type AgentTypeID = u32;

pub type SkinID = u32;

pub type MaterialSetID = u32;

pub type SkinMaterialID = u32;

pub type SoundID = u32;

pub type WormholeClassID = u32;

pub type LandmarkID = u32;

pub type UnitID = u32;

pub type WarfareBuffID = u32;

pub type CareerID = u32;

pub type SchoolID = u32;

pub type SpecialtyID = u32;

pub type DungeonID = u32;

pub type SpawnPointID = u32;

pub type AncestryID = u32;

pub type BloodlineID = u32;

pub type RaceID = u32;

pub type CharacterAttributeID = u32;

pub type CertificateID = u32;

pub type CorporationActivityID = u32;

pub type PlanetSchematicID = u32;

pub type ItemID = u32;

pub type SolarSystemID = ItemID;

pub type ConstellationID = ItemID;

pub type RegionID = ItemID;

pub type AsteroidBeltID = ItemID;

pub type MoonID = ItemID;

pub type PlanetID = ItemID;

pub type StarID = ItemID;

pub type StargateID = ItemID;

pub type StationID = ItemID;

pub type CorporationID = ItemID;

pub type FactionID = ItemID;

pub type LocationID = ItemID;

pub type CharacterID = ItemID;

pub type LocalizationStringID = u32;

} // verus!
