//! The records of the static data export in its earlier layout.

use vstd::prelude::*;
use std::collections::HashMap;
use crate::types::ids;
use crate::types::numbers;

verus! {

/// A text in the languages of the game; each language may be missing.
#[allow(non_snake_case, non_camel_case_types)]
#[derive(Debug)]
pub struct SDELocalizedString {
    pub en: Option<String>,
    pub de: Option<String>,
    pub es: Option<String>,
    pub fr: Option<String>,
    pub ja: Option<String>,
    pub ko: Option<String>,
    pub ru: Option<String>,
    pub zh: Option<String>,
    pub it: Option<String>,
}

/// A place in which an item can lie: a slot, a bay or a hangar.
#[allow(non_snake_case, non_camel_case_types)]
#[derive(Debug)]
pub struct InvFlag {
    pub flagID: ids::FlagID,
    pub flagName: String,
    pub flagText: String,
    pub orderID: u32,
}

/// An item that exists from the start of the universe, with its place and its owner.
#[allow(non_snake_case, non_camel_case_types)]
#[derive(Debug)]
pub struct InvItem {
    pub itemID: ids::ItemID,
    pub flagID: ids::FlagID,
    pub locationID: ids::LocationID,
    pub ownerID: u32,
    pub quantity: i32,
    pub typeID: i32,
}

/// The name of an item that exists from the start of the universe.
#[allow(non_snake_case, non_camel_case_types)]
#[derive(Debug)]
pub struct InvName {
    pub itemID: ids::ItemID,
    pub itemName: String,
}

/// The name of an item that no other item of its group bears.
#[allow(non_snake_case, non_camel_case_types)]
#[derive(Debug)]
pub struct InvUniqueName {
    pub groupID: ids::GroupID,
    pub itemID: ids::ItemID,
    pub itemName: String,
}

/// An agent: who employs it, where it sits and what it offers.
#[allow(non_snake_case, non_camel_case_types)]
#[derive(Debug)]
pub struct Agent {
    pub agentTypeID: ids::TypeID,
    pub corporationID: ids::CorporationID,
    pub divisionID: ids::DivisionID,
    pub isLocator: bool,
    pub level: i32,
    pub locationID: ids::LocationID,
}

/// An agent that is found in space instead of in a station.
#[allow(non_snake_case, non_camel_case_types)]
#[derive(Debug)]
pub struct AgentInSpace {
    pub dungeonID: ids::DungeonID,
    pub solarSystemID: ids::SolarSystemID,
    pub spawnPointID: ids::SpawnPointID,
    pub typeID: ids::TypeID,
}

/// An ancestry of a character, with the attributes it gives.
#[allow(non_snake_case, non_camel_case_types)]
#[derive(Debug)]
pub struct Ancestry {
    pub bloodlineID: ids::BloodlineID,
    pub charisma: i32,
    pub intelligence: i32,
    pub memory: i32,
    pub perception: i32,
    pub willpower: i32,
    pub descriptionID: SDELocalizedString,
    pub iconID: Option<ids::IconID>,
    pub nameID: SDELocalizedString,
    pub shortDescription: Option<String>,
}

/// A bloodline of a character, with the attributes it gives.
#[allow(non_snake_case, non_camel_case_types)]
#[derive(Debug)]
pub struct Bloodline {
    pub corporationID: ids::CorporationID,
    pub descriptionID: SDELocalizedString,
    pub iconID: Option<ids::IconID>,
    pub nameID: SDELocalizedString,
    pub raceID: ids::RaceID,
    pub charisma: i32,
    pub intelligence: i32,
    pub memory: i32,
    pub perception: i32,
    pub willpower: i32,
}

/// A category of item groups.
#[allow(non_snake_case, non_camel_case_types)]
#[derive(Debug)]
pub struct Category {
    pub name: SDELocalizedString,
    pub published: bool,
    pub iconID: Option<ids::IconID>,
}

/// The level of a skill that each grade of a certificate asks for.
#[allow(non_snake_case, non_camel_case_types)]
#[derive(Debug)]
pub struct CertificateSkillLevels {
    pub basic: numbers::SkillLevel,
    pub standard: numbers::SkillLevel,
    pub improved: numbers::SkillLevel,
    pub advanced: numbers::SkillLevel,
    pub elite: numbers::SkillLevel,
}

/// One of the attributes of a character.
#[allow(non_snake_case, non_camel_case_types)]
#[derive(Debug)]
pub struct CharacterAttribute {
    pub nameID: SDELocalizedString,
    pub description: String,
    pub iconID: ids::IconID,
    pub notes: String,
    pub shortDescription: String,
}

/// An activity that a corporation pursues.
#[allow(non_snake_case, non_camel_case_types)]
#[derive(Debug)]
pub struct CorporationActivity {
    pub nameID: SDELocalizedString,
}

/// A category of dogma attributes.
#[allow(non_snake_case, non_camel_case_types)]
#[derive(Debug)]
pub struct AttributeCategory {
    pub name: String,
    pub description: Option<String>,
}

/// A dogma effect: what it does, when, and at what cost.
#[allow(non_snake_case, non_camel_case_types)]
#[derive(Debug)]
pub struct Effect {
    pub effectID: ids::EffectID,
    pub effectCategory: ids::EffectCategoryID,
    pub effectName: String,
    pub descriptionID: Option<SDELocalizedString>,
    pub displayNameID: Option<SDELocalizedString>,
    pub iconID: Option<ids::IconID>,
    pub guid: Option<String>,
    pub isAssistance: bool,
    pub isOffensive: bool,
    pub isWarpSafe: bool,
    pub propulsionChance: bool,
    pub published: bool,
    pub rangeChance: bool,
    pub electronicChance: bool,
    pub disallowAutoRepeat: bool,
    pub dischargeAttributeID: Option<ids::AttributeID>,
    pub durationAttributeID: Option<ids::AttributeID>,
    pub trackingSpeedAttributeID: Option<ids::AttributeID>,
    pub falloffAttributeID: Option<ids::AttributeID>,
    pub rangeAttributeID: Option<ids::AttributeID>,
    pub npcUsageChanceAttributeID: Option<ids::AttributeID>,
    pub npcActivationChanceAttributeID: Option<ids::AttributeID>,
    pub fittingUsageChanceAttributeID: Option<ids::AttributeID>,
    pub resistanceAttributeID: Option<ids::AttributeID>,
    pub distribution: Option<i32>,
    pub modifierInfo: Vec<ModifierInfo>,
    pub sfxName: Option<String>,
}

/// One change that a dogma effect makes to an attribute.
#[allow(non_snake_case, non_camel_case_types)]
#[derive(Debug)]
pub struct ModifierInfo {
    pub domain: String,
    pub func: String,
    pub operation: Option<i32>,
    pub modifiedAttributeID: Option<ids::AttributeID>,
    pub modifyingAttributeID: Option<ids::AttributeID>,
    pub groupID: Option<ids::GroupID>,
    pub effectID: Option<ids::EffectID>,
    pub skillTypeID: Option<ids::TypeID>,
}

/// A graphic: its files and the folder of its icons.
#[allow(non_snake_case, non_camel_case_types)]
#[derive(Debug)]
pub struct Graphic {
    pub description: Option<String>,
    pub graphicFile: Option<String>,
    pub sofFactionName: Option<String>,
    pub sofHullName: Option<String>,
    pub sofRaceName: Option<String>,
    pub sofLayout: Vec<String>,
    pub iconInfo: Option<IconInfo>,
}

/// Where the icons of a graphic lie.
#[allow(non_snake_case, non_camel_case_types)]
#[derive(Debug)]
pub struct IconInfo {
    pub folder: String,
}

/// A group of item types.
#[allow(non_snake_case, non_camel_case_types)]
#[derive(Debug)]
pub struct Group {
    pub name: SDELocalizedString,
    pub categoryID: ids::CategoryID,
    pub anchorable: bool,
    pub anchored: bool,
    pub fittableNonSingleton: bool,
    pub published: bool,
    pub useBasePrice: bool,
    pub iconID: Option<ids::IconID>,
}

/// An icon: its file and what it shows.
#[allow(non_snake_case, non_camel_case_types)]
#[derive(Debug)]
pub struct Icon {
    pub description: Option<String>,
    pub iconFile: String,
    pub obsolete: Option<bool>,
}

/// A group of the market, with its place in the tree of groups.
#[allow(non_snake_case, non_camel_case_types)]
#[derive(Debug)]
pub struct MarketGroup {
    pub nameID: SDELocalizedString,
    pub descriptionID: Option<SDELocalizedString>,
    pub hasTypes: bool,
    pub iconID: Option<ids::IconID>,
    pub parentGroupID: Option<ids::MarketGroupID>,
}

/// A division that corporations may have.
#[allow(non_snake_case, non_camel_case_types)]
#[derive(Debug)]
pub struct NpcCorporationDivision {
    pub internalName: String,
    pub leaderTypeNameID: SDELocalizedString,
    pub description: Option<String>,
    pub nameID: SDELocalizedString,
    pub descriptionID: Option<SDELocalizedString>,
}

/// A division of one corporation, with its leader and size.
#[allow(non_snake_case, non_camel_case_types)]
#[derive(Debug)]
pub struct CorporationDivision {
    pub divisionNumber: i32,
    pub leaderID: ids::CharacterID,
    pub size: i32,
}

/// A license for a skin: the skin it unlocks and for how long.
#[allow(non_snake_case, non_camel_case_types)]
#[derive(Debug)]
pub struct SkinLicense {
    pub duration: i32,
    pub licenseTypeID: ids::TypeID,
    pub skinID: ids::SkinID,
    pub isSingleUse: Option<bool>,
}

/// The material of a skin.
#[allow(non_snake_case, non_camel_case_types)]
#[derive(Debug)]
pub struct SkinMaterial {
    pub displayNameID: ids::LocalizationStringID,
    pub materialSetID: ids::MaterialSetID,
    pub skinMaterialID: ids::SkinMaterialID,
}

/// A skin: its material and the types that can wear it.
#[allow(non_snake_case, non_camel_case_types)]
#[derive(Debug)]
pub struct Skin {
    pub allowCCPDevs: bool,
    pub internalName: String,
    pub skinID: ids::SkinID,
    pub skinMaterialID: ids::SkinMaterialID,
    pub types: Vec<ids::TypeID>,
    pub visibleSerenity: bool,
    pub visibleTranquility: bool,
    pub isStructureSkin: Option<bool>,
    pub skinDescription: Option<String>,
}

/// An upgrade of a sovereignty hub, with what it costs to run.
#[allow(non_snake_case, non_camel_case_types)]
#[derive(Debug)]
pub struct SovereigntyUpgrade {
    pub power_allocation: i32,
    pub workforce_allocation: i32,
    pub mutually_exclusive_group: String,
    pub fuel_type_id: Option<ids::TypeID>,
    pub fuel_startup_cost: Option<i32>,
    pub fuel_hourly_upkeep: Option<i32>,
}

/// A service that stations offer.
#[allow(non_snake_case, non_camel_case_types)]
#[derive(Debug)]
pub struct StationService {
    pub serviceNameID: SDELocalizedString,
    pub descriptionID: Option<SDELocalizedString>,
}

/// The rules of a tournament: what is banned and what each ship costs.
#[allow(non_snake_case, non_camel_case_types)]
#[derive(Debug)]
pub struct TournamentRuleSet {
    pub banned: TournamentBans,
    pub maximumPilotsMatch: i32,
    pub maximumPointsMatch: i32,
    pub ruleSetID: String,
    pub ruleSetName: String,
    pub points: TournamentPoints,
}

/// The groups and types that a tournament bans.
#[allow(non_snake_case, non_camel_case_types)]
#[derive(Debug)]
pub struct TournamentBans {
    pub groups: Vec<ids::GroupID>,
    pub types: Vec<ids::TypeID>,
}

/// The points that a tournament charges for groups and types.
#[allow(non_snake_case, non_camel_case_types)]
#[derive(Debug)]
pub struct TournamentPoints {
    pub groups: HashMap<ids::GroupID, i32>,
    pub types: HashMap<ids::TypeID, i32>,
}

/// The looks of a planet.
#[allow(non_snake_case, non_camel_case_types)]
#[derive(Debug)]
pub struct PlanetAttributes {
    pub heightMap1: u32,
    pub heightMap2: u32,
    pub population: bool,
    pub shaderPreset: u32,
}

} // verus!
