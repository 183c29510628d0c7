//! The records of the static data export, one type for each file of the
//! export.

use vstd::prelude::*;
use crate::types::ids;
use crate::types::numbers;

verus! {

/// String with multiple language variants
///
/// English is always available. Usually, all other languages are also available
///
/// [`try_*`] methods will return the specified-language version if present, or fall back to the english string.
#[allow(non_snake_case, non_camel_case_types)]
#[derive(Debug)]
pub struct LocalizedString {
    /// English
    pub en: String,
    /// German
    pub de: Option<String>,
    /// Spanish
    pub es: Option<String>,
    /// French
    pub fr: Option<String>,
    /// Japanese
    pub ja: Option<String>,
    /// Korean
    pub ko: Option<String>,
    /// Russian
    pub ru: Option<String>,
    /// Chinese
    pub zh: Option<String>,
}

/// Agent (Mission NPC) that is located in space, rather than docked in a station
///
/// Additional Agent information is contained in [`NpcCharacter`] data
#[allow(non_snake_case, non_camel_case_types)]
#[derive(Debug)]
pub struct AgentInSpace {
    /// CharacterID for this agent
    pub agentID: ids::CharacterID,
    /// 'Dungeon' within which the agent is located
    ///
    /// Data about dungeons is not available for EVE 3rd party developers
    pub dungeonID: ids::DungeonID,
    /// SolarSystem in which the Agent is located
    pub solarSystemID: ids::SolarSystemID,
    /// Spawnpoint for agent, no data available for EVE 3rd party developers
    pub spawnPointID: ids::SpawnPointID,
    /// TypeID of the agent's ship (Note: Agent Ships are not the same as the player-flyable ship, and have different TypeIDs)
    pub typeID: ids::TypeID,
}

/// The different kinds of agent
///
/// See <https://wiki.eveuniversity.org/Agent#Category> for information about the various kinds of Agent
#[allow(non_snake_case, non_camel_case_types)]
#[derive(Debug)]
pub enum AgentType {
    NonAgent,
    BasicAgent,
    TutorialAgent,
    ResearchAgent,
    CONCORDAgent,
    GenericStorylineMissionAgent,
    StorylineMissionAgent,
    EventMissionAgent,
    FactionalWarfareAgent,
    EpicArcAgent,
    AuraAgent,
    CareerAgent,
    HeraldryAgent,
}

/// Character Ancestry; Now-unused character creation element (Removed from player character creation 2021-03-02)
#[allow(non_snake_case, non_camel_case_types)]
#[derive(Debug)]
pub struct Ancestry {
    /// Identifier for this Ancestry, see [`ids::AncestryID`]
    pub ancestryID: ids::AncestryID,
    /// Bloodline this ancestry is a part of
    pub bloodlineID: ids::BloodlineID,
    /// Skill training attribute modifier
    pub charisma: i32,
    /// Skill training attribute modifier
    pub intelligence: i32,
    /// Skill training attribute modifier
    pub memory: i32,
    /// Skill training attribute modifier
    pub perception: i32,
    /// Skill training attribute modifier
    pub willpower: i32,
    /// Ancestry description as (previously) displayed in game client
    pub description: LocalizedString,
    /// Icon, if specified
    pub iconID: Option<ids::IconID>,
    /// Ancestry name
    pub name: LocalizedString,
    /// Short English description
    pub shortDescription: Option<String>,
}

/// Character Bloodline; Character creation element
#[allow(non_snake_case, non_camel_case_types)]
#[derive(Debug)]
pub struct Bloodline {
    /// Identifier for this Bloodline, see [`ids::BloodlineID`]
    pub bloodlineID: ids::BloodlineID,
    /// Default NPC Corporation for characters with this Bloodline
    pub corporationID: ids::CorporationID,
    /// Bloodline description, as shown in game client
    pub description: LocalizedString,
    /// Icon, if specified
    pub iconID: Option<ids::IconID>,
    /// Bloodline name
    pub name: LocalizedString,
    /// Character race this bloodline is a part of
    pub raceID: ids::RaceID,
    /// Skill training attribute modifier
    pub charisma: i32,
    /// Skill training attribute modifier
    pub intelligence: i32,
    /// Skill training attribute modifier
    pub memory: i32,
    /// Skill training attribute modifier
    pub perception: i32,
    /// Skill training attribute modifier
    pub willpower: i32,
}

/// Item Type 'Category'; Collection of [Groups](Group)
#[allow(non_snake_case, non_camel_case_types)]
#[derive(Debug)]
pub struct Category {
    /// ID for this category
    pub categoryID: ids::TypeID,
    /// Name of this category
    pub name: LocalizedString,
    /// 'Published' status; If false, not visible to players in the game client
    pub published: bool,
    /// Icon, if specified
    pub iconID: Option<ids::IconID>,
}

/// Skill levels required for a certificate level
#[allow(non_snake_case, non_camel_case_types)]
#[derive(Debug)]
pub struct CertificateSkillLevels {
    /// Skill this 'levels' data is for
    pub skillTypeID: ids::TypeID,
    /// Skill level required for 'basic' certificate
    pub basic: numbers::SkillLevel,
    /// Skill level required for 'standard' certificate
    pub standard: numbers::SkillLevel,
    /// Skill level required for 'improved' certificate
    pub improved: numbers::SkillLevel,
    /// Skill level required for 'advanced' certificate
    pub advanced: numbers::SkillLevel,
    /// Skill level required for 'elite' certificate
    pub elite: numbers::SkillLevel,
}

/// Character skill training Attribute
#[allow(non_snake_case, non_camel_case_types)]
#[derive(Debug)]
pub struct CharacterAttribute {
    /// ID for this character attribute
    pub characterAttributeID: ids::CharacterAttributeID,
    /// Name
    pub name: LocalizedString,
    /// Description, in English
    pub description: String,
    /// Icon for attribute
    pub iconID: ids::IconID,
    /// Notes, in English
    pub notes: String,
    /// Short description, in English
    pub shortDescription: String,
}

/// What a control tower needs a resource for.
#[allow(non_snake_case, non_camel_case_types)]
#[derive(Debug)]
pub enum ResourcePurpose {
    /// Resource required for keeping a Control Tower online
    Online,
    /// Resource required for Control Tower reinforcement
    Reinforce,
}

/// NPC Station Activity/"Specialization"
#[allow(non_snake_case, non_camel_case_types)]
#[derive(Debug)]
pub struct CorporationActivity {
    /// ID for this activity
    pub corporationActivityID: ids::CorporationActivityID,
    /// Name for this activity
    pub name: LocalizedString,
}

/// 'Warefare Buff'; Command Burst bonus effects
#[allow(non_snake_case, non_camel_case_types)]
#[derive(Debug)]
pub struct WarfareBuff {
    /// ID for this warfare buff. Referenced by attributes on Command Burst charges
    pub warfareBuffID: ids::WarfareBuffID,
    /// Aggregate mode for multiple buffs; Whether the maximum or minimum value is selected when multiple buffs of different strengths are applied to a ship
    pub aggregateMode: WarfareBuffAggregateMode,
    /// Developer description, in English
    pub developerDescription: String,
    /// Display name, as shown in tooltip in-game
    pub displayName: Option<LocalizedString>,
    /// Attributes whose effects are applied as Item Modifiers
    pub itemModifiers: Vec<ids::AttributeID>,
    /// Attributes whose effects are applied as Location Group Modifiers
    pub locationGroupModifiers: Vec<WarfareBuffLocationGroupModifier>,
    /// Attributes whose effects are applied as Location Modifiers
    pub locationModifiers: Vec<ids::AttributeID>,
    /// Attributes whose effects are applied as Location with-required-skill Modifiers
    pub locationRequiredSkillModifiers: Vec<WarfareBuffLocationRequiredSkillModifier>,
    /// Operation applied by modifiers
    pub operationName: WarfareBuffOperation,
    /// How the effect value is displayed in-game
    pub showOutputValueInUI: WarfareBuffUIMode,
}

/// Aggregate mode for warfare buff effect stacking
#[allow(non_snake_case, non_camel_case_types)]
#[derive(Debug)]
pub enum WarfareBuffAggregateMode {
    /// If multiple buffs stack, the maximum value is selected
    Maximum,
    /// If multiple buffs stack, the minimum value is selected
    Minimum,
}

/// Dogma operation for warfare buff
#[allow(non_snake_case, non_camel_case_types)]
#[derive(Debug)]
pub enum WarfareBuffOperation {
    PostMul, PostPercent, ModAdd, PostAssignment,
}

/// Warfare buff display mode
#[allow(non_snake_case, non_camel_case_types)]
#[derive(Debug)]
pub enum WarfareBuffUIMode {
    /// Buff amount is not shown
    Hide,
    /// Buff amount is shown as-is, e.g. `10 -> "10%", -10 -> "-10%"`
    ShowNormal,
    /// Buff amount is shown inverted, e.g. `10 -> "-10%", -10 -> "10%"`
    ShowInverted,
}

/// Attribute whose effects are applied as Location Group Modifier
#[allow(non_snake_case, non_camel_case_types)]
#[derive(Debug)]
pub struct WarfareBuffLocationGroupModifier {
    /// Attribute source for effect
    pub dogmaAttributeID: ids::AttributeID,
    /// Applicable group
    pub groupID: ids::GroupID,
}

/// Attributes whose effects are applied as Location with-required-skill Modifiers
#[allow(non_snake_case, non_camel_case_types)]
#[derive(Debug)]
pub struct WarfareBuffLocationRequiredSkillModifier {
    /// Attribute source for effect
    pub dogmaAttributeID: ids::AttributeID,
    /// Skill required by applicable types
    pub skillID: ids::TypeID,
}

/// Attribute Category, grouping of [`Attribute`]
#[allow(non_snake_case, non_camel_case_types)]
#[derive(Debug)]
pub struct AttributeCategory {
    /// ID for this category
    pub attributeCategoryID: ids::AttributeCategoryID,
    /// Category name, in English
    pub name: String,
    /// Description, in English
    pub description: Option<String>,
}

/// A dogma effect: what it does, when, and at what cost.
#[allow(non_snake_case, non_camel_case_types)]
#[derive(Debug)]
pub struct Effect {
    pub effectID: ids::EffectID,
    pub description: Option<LocalizedString>,
    pub disallowAutoRepeat: bool,
    pub dischargeAttributeID: Option<ids::AttributeID>,
    pub displayName: Option<LocalizedString>,
    pub distribution: Option<i32>,
    pub durationAttributeID: Option<ids::AttributeID>,
    pub effectCategoryID: ids::EffectCategoryID,
    pub electronicChance: bool,
    pub falloffAttributeID: Option<ids::AttributeID>,
    pub fittingUsageChanceAttributeID: Option<ids::AttributeID>,
    pub guid: Option<String>,
    pub iconID: Option<ids::IconID>,
    pub isAssistance: bool,
    pub isOffensive: bool,
    pub isWarpSafe: bool,
    pub modifierInfo: Vec<ModifierInfo>,
    pub name: String,
    pub npcActivationChanceAttributeID: Option<ids::AttributeID>,
    pub npcUsageChanceAttributeID: Option<ids::AttributeID>,
    pub propulsionChance: bool,
    pub published: bool,
    pub rangeAttributeID: Option<ids::AttributeID>,
    pub rangeChance: bool,
    pub resistanceAttributeID: Option<ids::AttributeID>,
    pub sfxName: Option<String>,
    pub trackingSpeedAttributeID: Option<ids::AttributeID>,
}

/// One change that a dogma effect makes to an attribute.
#[allow(non_snake_case, non_camel_case_types)]
#[derive(Debug)]
pub struct ModifierInfo {
    pub domain: String,
    pub func: String,
    pub operation: Option<i32>,
    pub modifiedAttributeID: Option<ids::AttributeID>,
    pub modifyingAttributeID: Option<ids::AttributeID>,
    pub groupID: Option<ids::GroupID>,
    pub effectID: Option<ids::EffectID>,
    pub skillTypeID: Option<ids::TypeID>,
}

/// A unit in which dogma attributes are measured.
#[allow(non_snake_case, non_camel_case_types)]
#[derive(Debug)]
pub struct DogmaUnit {
    pub unitID: ids::UnitID,
    pub description: Option<LocalizedString>,
    pub displayName: Option<LocalizedString>,
    pub name: String,
}

/// Which types a mutaplasmid takes and which type it makes of them.
#[allow(non_snake_case, non_camel_case_types)]
#[derive(Debug)]
pub struct DynamicItemAttributesIOMapping {
    pub applicableTypes: Vec<ids::TypeID>,
    pub resultingType: ids::TypeID,
}

/// A graphic: its files and the folder of its icons.
#[allow(non_snake_case, non_camel_case_types)]
#[derive(Debug)]
pub struct Graphic {
    pub graphicID: ids::GraphicID,
    pub graphicFile: Option<String>,
    pub iconFolder: Option<String>,
    pub sofFactionName: Option<String>,
    pub sofHullName: Option<String>,
    pub sofLayout: Vec<String>,
    pub sofMaterialSetID: Option<ids::MaterialSetID>,
    pub sofRaceName: Option<String>,
}

/// A group of item types.
#[allow(non_snake_case, non_camel_case_types)]
#[derive(Debug)]
pub struct Group {
    pub groupID: ids::GroupID,
    pub anchorable: bool,
    pub anchored: bool,
    pub categoryID: ids::CategoryID,
    pub fittableNonSingleton: bool,
    pub iconID: Option<ids::IconID>,
    pub name: LocalizedString,
    pub published: bool,
    pub useBasePrice: bool,
}

/// An icon: its file and what it shows.
#[allow(non_snake_case, non_camel_case_types)]
#[derive(Debug)]
pub struct Icon {
    pub iconID: ids::IconID,
    pub iconFile: String,
}

/// The looks of a moon.
#[allow(non_snake_case, non_camel_case_types)]
#[derive(Debug)]
pub struct MoonAttributes {
    pub heightMap1: u32,
    pub heightMap2: u32,
    pub shaderPreset: u32,
}

/// The looks of a planet.
#[allow(non_snake_case, non_camel_case_types)]
#[derive(Debug)]
pub struct PlanetAttributes {
    pub heightMap1: u32,
    pub heightMap2: u32,
    pub population: bool,
    pub shaderPreset: u32,
}

/// Where a stargate leads.
#[allow(non_snake_case, non_camel_case_types)]
#[derive(Debug)]
pub struct StargateDestination {
    pub solarSystemID: ids::SolarSystemID,
    pub stargateID: ids::StargateID,
}

/// A group of the market, with its place in the tree of groups.
#[allow(non_snake_case, non_camel_case_types)]
#[derive(Debug)]
pub struct MarketGroup {
    pub marketGroupID: ids::MarketGroupID,
    pub description: Option<LocalizedString>,
    pub hasTypes: bool,
    pub iconID: Option<ids::IconID>,
    pub name: LocalizedString,
    pub parentGroupID: Option<ids::MarketGroupID>,
}

/// The certificates of each level of mastery of a ship.
#[allow(non_snake_case, non_camel_case_types)]
#[derive(Debug)]
pub struct MasteryLevels {
    pub lvl1: Vec<ids::CertificateID>,
    pub lvl2: Vec<ids::CertificateID>,
    pub lvl3: Vec<ids::CertificateID>,
    pub lvl4: Vec<ids::CertificateID>,
    pub lvl5: Vec<ids::CertificateID>,
}

/// A character that no player plays.
#[allow(non_snake_case, non_camel_case_types)]
#[derive(Debug)]
pub struct NpcCharacter {
    pub characterID: ids::CharacterID,
    pub agent: Option<NpcCharacterAgent>,
    pub ancestryID: Option<ids::AncestryID>,
    pub bloodlineID: ids::BloodlineID,
    pub careerID: Option<ids::CareerID>,
    pub ceo: bool,
    pub corporationID: ids::CorporationID,
    pub description: Option<String>,
    pub gender: bool,
    pub locationID: Option<ids::LocationID>,
    pub name: LocalizedString,
    pub raceID: ids::RaceID,
    pub schoolID: Option<ids::SchoolID>,
    pub skills: Vec<NpcCharacterSkill>,
    pub specialityID: Option<ids::SpecialtyID>,
    pub startDate: Option<String>,
    pub uniqueName: bool,
}

/// A skill of a character that no player plays.
#[allow(non_snake_case, non_camel_case_types)]
#[derive(Debug)]
pub struct NpcCharacterSkill {
    pub typeID: ids::TypeID,
}

/// What a character offers as an agent.
#[allow(non_snake_case, non_camel_case_types)]
#[derive(Debug)]
pub struct NpcCharacterAgent {
    pub agentTypeID: ids::TypeID,
    pub divisionID: ids::DivisionID,
    pub isLocator: bool,
    pub level: i32,
}

/// A division that corporations may have.
#[allow(non_snake_case, non_camel_case_types)]
#[derive(Debug)]
pub struct NpcCorporationDivision {
    pub divisionID: ids::DivisionID,
    pub description: Option<LocalizedString>,
    pub displayName: Option<String>,
    pub internalName: String,
    pub leaderTypeName: LocalizedString,
    pub name: LocalizedString,
}

/// A division of one corporation, with its leader and size.
#[allow(non_snake_case, non_camel_case_types)]
#[derive(Debug)]
pub struct CorporationDivision {
    pub divisionID: ids::DivisionID,
    pub divisionNumber: i32,
    pub leaderID: ids::CharacterID,
    pub size: i32,
}

/// A type that a schematic takes or makes, with its quantity.
#[allow(non_snake_case, non_camel_case_types)]
#[derive(Debug)]
pub struct PlanetSchematicType {
    pub typeID: ids::TypeID,
    pub isInput: bool,
    pub quantity: u32,
}

/// A license for a skin: the skin it unlocks and for how long.
#[allow(non_snake_case, non_camel_case_types)]
#[derive(Debug)]
pub struct SkinLicense {
    pub typeID: ids::TypeID,
    pub duration: i32,
    pub licenseTypeID: ids::TypeID,
    pub skinID: ids::SkinID,
    pub isSingleUse: Option<bool>,
}

/// The material of a skin.
#[allow(non_snake_case, non_camel_case_types)]
#[derive(Debug)]
pub struct SkinMaterial {
    pub materialID: ids::SkinMaterialID,
    pub displayName: Option<LocalizedString>,
    pub materialSetID: ids::MaterialSetID,
}

/// A skin: its material and the types that can wear it.
#[allow(non_snake_case, non_camel_case_types)]
#[derive(Debug)]
pub struct Skin {
    pub skinID: ids::SkinID,
    pub allowCCPDevs: bool,
    pub internalName: String,
    pub skinMaterialID: ids::SkinMaterialID,
    pub types: Vec<ids::TypeID>,
    pub visibleSerenity: bool,
    pub visibleTranquility: bool,
    pub isStructureSkin: Option<bool>,
    pub skinDescription: Option<LocalizedString>,
}

/// An upgrade of a sovereignty hub, with what it costs to run.
#[allow(non_snake_case, non_camel_case_types)]
#[derive(Debug)]
pub struct SovereigntyUpgrade {
    pub typeID: ids::TypeID,
    pub mutually_exclusive_group: String,
    pub power_allocation: Option<i32>,
    pub power_production: Option<i32>,
    pub workforce_allocation: Option<i32>,
    pub workforce_production: Option<i32>,
    pub fuel: Option<SovereigntyUpgradeFuel>,
}

/// The fuel that a sovereignty upgrade burns.
#[allow(non_snake_case, non_camel_case_types)]
#[derive(Debug)]
pub struct SovereigntyUpgradeFuel {
    pub type_id: ids::TypeID,
    pub startup_cost: i32,
    pub hourly_upkeep: i32,
}

/// A service that stations offer.
#[allow(non_snake_case, non_camel_case_types)]
#[derive(Debug)]
pub struct StationService {
    pub serviceID: ids::StationServiceID,
    pub serviceName: LocalizedString,
    pub description: Option<LocalizedString>,
}

/// A language of the game.
#[allow(non_snake_case, non_camel_case_types)]
#[derive(Debug)]
pub struct TranslationLanguage {
    pub shortName: String,
    pub name: String,
}

/// What a type yields when it is reprocessed.
#[allow(non_snake_case, non_camel_case_types)]
#[derive(Debug)]
pub struct TypeMaterials {
    pub typeID: ids::TypeID,
    pub materials: Vec<TypeMaterial>,
    pub randomizedMaterials: Vec<TypeRandomMaterial>,
}

/// A material that reprocessing yields, with its quantity.
#[allow(non_snake_case, non_camel_case_types)]
#[derive(Debug)]
pub struct TypeMaterial {
    pub materialTypeID: ids::TypeID,
    pub quantity: u32,
}

/// A material that reprocessing yields in a quantity between two bounds.
#[allow(non_snake_case, non_camel_case_types)]
#[derive(Debug)]
pub struct TypeRandomMaterial {
    pub materialTypeID: ids::TypeID,
    pub quantityMax: u32,
    pub quantityMin: u32,
}

/// The text in a language where there is one, else the English text.
pub open spec fn localized(text: Option<String>, english: String) -> Seq<char> {
    match text {
        Some(t) => t@,
        None => english@,
    }
}

/// The mastery levels as plain values.
pub struct MasteryView {
    pub lvl1: Seq<ids::CertificateID>,
    pub lvl2: Seq<ids::CertificateID>,
    pub lvl3: Seq<ids::CertificateID>,
    pub lvl4: Seq<ids::CertificateID>,
    pub lvl5: Seq<ids::CertificateID>,
}

/// The mastery levels after the first `n` of `entries`, each a level from 0
/// to 4 with its certificates, a later entry in place of an earlier one for
/// the same level; nothing where one of them names another level.
pub open spec fn levels_after(entries: Seq<(u8, Vec<ids::CertificateID>)>, n: nat) -> Option<
    MasteryView,
>
    decreases n,
{
    if n == 0 {
        Some(
            MasteryView {
                lvl1: Seq::empty(),
                lvl2: Seq::empty(),
                lvl3: Seq::empty(),
                lvl4: Seq::empty(),
                lvl5: Seq::empty(),
            },
        )
    } else {
        match levels_after(entries, (n - 1) as nat) {
            None => None,
            Some(v) => {
                let level = entries[n - 1].0;
                let certificates = entries[n - 1].1@;
                if level == 0 {
                    Some(MasteryView { lvl1: certificates, ..v })
                } else if level == 1 {
                    Some(MasteryView { lvl2: certificates, ..v })
                } else if level == 2 {
                    Some(MasteryView { lvl3: certificates, ..v })
                } else if level == 3 {
                    Some(MasteryView { lvl4: certificates, ..v })
                } else if level == 4 {
                    Some(MasteryView { lvl5: certificates, ..v })
                } else {
                    None
                }
            },
        }
    }
}

impl View for MasteryLevels {
    type V = MasteryView;

    open spec fn view(&self) -> MasteryView {
        MasteryView {
            lvl1: self.lvl1@,
            lvl2: self.lvl2@,
            lvl3: self.lvl3@,
            lvl4: self.lvl4@,
            lvl5: self.lvl5@,
        }
    }
}

impl MasteryLevels {
    /// The mastery levels that a list of entries gives, each entry a level
    /// from 0 to 4 with its certificates. An entry for another level is
    /// refused: the level is handed back.
    pub fn from_entries(entries: Vec<(u8, Vec<ids::CertificateID>)>) -> (r: Result<MasteryLevels, u8>)
        ensures
            match r {
                Ok(levels) => levels_after(entries@, entries@.len()) == Some(levels@),
                Err(level) => level > 4 && exists|i: int|
                    0 <= i < entries@.len() && (#[trigger] entries@[i]).0 == level && levels_after(
                        entries@,
                        i as nat,
                    ) is Some,
            },
    {
        let ghost all = entries@;
        let mut levels = MasteryLevels {
            lvl1: Vec::new(),
            lvl2: Vec::new(),
            lvl3: Vec::new(),
            lvl4: Vec::new(),
            lvl5: Vec::new(),
        };
        for entry in it: entries
            invariant
                it.seq() == all,
                levels_after(all, it.index() as nat) == Some(levels@),
        {
            let (level, certificates) = entry;
            match level {
                0 => { levels.lvl1 = certificates; },
                1 => { levels.lvl2 = certificates; },
                2 => { levels.lvl3 = certificates; },
                3 => { levels.lvl4 = certificates; },
                4 => { levels.lvl5 = certificates; },
                _ => {
                    assert(all[it.index() as int].0 == level);
                    return Err(level);
                },
            }
        }
        Ok(levels)
    }
}

impl LocalizedString {
    /// German string if available, else English string
    pub fn try_de(&self) -> (s: &str)
        ensures
            s@ == localized(self.de, self.en),
    {
        match &self.de {
            Some(text) => text.as_str(),
            None => self.en.as_str(),
        }
    }

    /// Spanish string if available, else English string
    pub fn try_es(&self) -> (s: &str)
        ensures
            s@ == localized(self.es, self.en),
    {
        match &self.es {
            Some(text) => text.as_str(),
            None => self.en.as_str(),
        }
    }

    /// French string if available, else English string
    pub fn try_fr(&self) -> (s: &str)
        ensures
            s@ == localized(self.fr, self.en),
    {
        match &self.fr {
            Some(text) => text.as_str(),
            None => self.en.as_str(),
        }
    }

    /// Japanese string if available, else English string
    pub fn try_ja(&self) -> (s: &str)
        ensures
            s@ == localized(self.ja, self.en),
    {
        match &self.ja {
            Some(text) => text.as_str(),
            None => self.en.as_str(),
        }
    }

    /// Korean string if available, else English string
    pub fn try_ko(&self) -> (s: &str)
        ensures
            s@ == localized(self.ko, self.en),
    {
        match &self.ko {
            Some(text) => text.as_str(),
            None => self.en.as_str(),
        }
    }

    /// Russian string if available, else English string
    pub fn try_ru(&self) -> (s: &str)
        ensures
            s@ == localized(self.ru, self.en),
    {
        match &self.ru {
            Some(text) => text.as_str(),
            None => self.en.as_str(),
        }
    }

    /// Chinese string if available, else English string
    pub fn try_zh(&self) -> (s: &str)
        ensures
            s@ == localized(self.zh, self.en),
    {
        match &self.zh {
            Some(text) => text.as_str(),
            None => self.en.as_str(),
        }
    }
}

} // verus!
