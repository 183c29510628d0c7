//! The inputs of an icon build: the item types and the lookup tables.

use vstd::prelude::*;
use std::collections::HashMap;

verus! {

/// What the build knows of one item type.
#[derive(Clone, Copy, Debug, PartialEq, Eq, Structural)]
pub struct TypeInfo {
    pub group_id: u32,
    pub icon_id: Option<u32>,
    pub graphic_id: Option<u32>,
    pub meta_group_id: Option<u32>,
}

impl Default for TypeInfo {
    fn default() -> (info: Self)
        ensures
            info == (TypeInfo { group_id: 0, icon_id: None, graphic_id: None, meta_group_id: None }),
    {
        TypeInfo { group_id: 0, icon_id: None, graphic_id: None, meta_group_id: None }
    }
}

/// The category of blueprints.
pub const CATEGORY_BLUEPRINT: u32 = 9;

/// The category of ancient relics and reactions.
pub const CATEGORY_REACTION: u32 = 34;

/// The category of SKIN licenses.
pub const CATEGORY_SKIN: u32 = 91;

/// The meta group that a type without one counts as: it has no overlay.
pub const DEFAULT_META_GROUP: u32 = 1;

/// The overlay resource that marks the tech tier of a meta group, if it has one.
pub open spec fn techicon_spec(metagroup_id: u32) -> Option<Seq<char>> {
    if metagroup_id == 2 {
        Some("res:/ui/texture/icons/73_16_242.png"@)
    } else if metagroup_id == 3 {
        Some("res:/ui/texture/icons/73_16_245.png"@)
    } else if metagroup_id == 4 {
        Some("res:/ui/texture/icons/73_16_246.png"@)
    } else if metagroup_id == 5 {
        Some("res:/ui/texture/icons/73_16_248.png"@)
    } else if metagroup_id == 6 {
        Some("res:/ui/texture/icons/73_16_247.png"@)
    } else if metagroup_id == 14 {
        Some("res:/ui/texture/icons/73_16_243.png"@)
    } else if metagroup_id == 15 {
        Some("res:/ui/texture/icons/itemoverlay/abyssal.png"@)
    } else if metagroup_id == 17 {
        Some("res:/ui/texture/icons/itemoverlay/nes.png"@)
    } else if metagroup_id == 19 {
        Some("res:/ui/texture/icons/itemoverlay/timelimited.png"@)
    } else if metagroup_id == 52 {
        Some("res:/ui/texture/shared/structureoverlayfaction.png"@)
    } else if metagroup_id == 53 {
        Some("res:/ui/texture/shared/structureoverlayt2.png"@)
    } else if metagroup_id == 54 {
        Some("res:/ui/texture/shared/structureoverlay.png"@)
    } else {
        None
    }
}

/// The overlay resource that marks the tech tier of a meta group. Meta group
/// 1 and every meta group outside the table have none.
pub fn techicon_resource_for_metagroup(metagroup_id: u32) -> (r: Option<&'static str>)
    ensures
        match r {
            Some(s) => techicon_spec(metagroup_id) == Some(s@),
            None => techicon_spec(metagroup_id) is None,
        },
{
    match metagroup_id {
        1 => None,
        2 => Some("res:/ui/texture/icons/73_16_242.png"),
        3 => Some("res:/ui/texture/icons/73_16_245.png"),
        4 => Some("res:/ui/texture/icons/73_16_246.png"),
        5 => Some("res:/ui/texture/icons/73_16_248.png"),
        6 => Some("res:/ui/texture/icons/73_16_247.png"),
        14 => Some("res:/ui/texture/icons/73_16_243.png"),
        15 => Some("res:/ui/texture/icons/itemoverlay/abyssal.png"),
        17 => Some("res:/ui/texture/icons/itemoverlay/nes.png"),
        19 => Some("res:/ui/texture/icons/itemoverlay/timelimited.png"),
        52 => Some("res:/ui/texture/shared/structureoverlayfaction.png"),
        53 => Some("res:/ui/texture/shared/structureoverlayt2.png"),
        54 => Some("res:/ui/texture/shared/structureoverlay.png"),
        _ => None,
    }
}

/// Whether the blueprints of a group are reaction formulas, which have a
/// background of their own.
pub open spec fn is_reaction_group(group_id: u32) -> bool {
    group_id == 1888 || group_id == 1889 || group_id == 1890 || group_id == 4097
}

/// Whether the types of a group show a flat icon although they have a
/// graphic.
pub open spec fn is_flat_icon_group(group_id: u32) -> bool {
    group_id == 12 || group_id == 340 || group_id == 448 || group_id == 479 || group_id == 548
        || group_id == 649 || group_id == 711 || group_id == 4168
}

/// Whether the blueprints of a group are reaction formulas.
pub fn reaction_group(group_id: u32) -> (b: bool)
    ensures
        b == is_reaction_group(group_id),
{
    group_id == 1888 || group_id == 1889 || group_id == 1890 || group_id == 4097
}

/// Whether the types of a group show a flat icon although they have a
/// graphic.
pub fn flat_icon_group(group_id: u32) -> (b: bool)
    ensures
        b == is_flat_icon_group(group_id),
{
    group_id == 12 || group_id == 340 || group_id == 448 || group_id == 479 || group_id == 548
        || group_id == 649 || group_id == 711 || group_id == 4168
}

/// The four lookup tables of a build, as maps.
pub struct IconTables {
    /// Group to category.
    pub categories: Map<u32, u32>,
    /// Icon to resource key.
    pub icon_files: Map<u32, Seq<char>>,
    /// Graphic to resource folder.
    pub folders: Map<u32, Seq<char>>,
    /// Type to skin material.
    pub skin_materials: Map<u32, u32>,
}

/// The map from each key of `m` to the characters of its string.
pub open spec fn string_values(m: Map<u32, String>) -> Map<u32, Seq<char>> {
    Map::new(|k: u32| m.contains_key(k), |k: u32| m[k]@)
}

/// Everything an icon build reads: the item types and the lookup tables.
pub struct IconBuildData {
    types: Vec<(u32, TypeInfo)>,
    group_categories: HashMap<u32, u32>,
    icon_files: HashMap<u32, String>,
    graphics_folders: HashMap<u32, String>,
    skin_materials: HashMap<u32, u32>,
}

impl IconBuildData {
    /// The item types, in the order in which the build visits them.
    pub closed spec fn types(&self) -> Seq<(u32, TypeInfo)> {
        self.types@
    }

    /// The lookup tables.
    pub closed spec fn tables(&self) -> IconTables {
        IconTables {
            categories: self.group_categories@,
            icon_files: string_values(self.icon_files@),
            folders: string_values(self.graphics_folders@),
            skin_materials: self.skin_materials@,
        }
    }

    /// Puts the item types and the four lookup tables together.
    pub fn new(
        types: Vec<(u32, TypeInfo)>,
        group_categories: HashMap<u32, u32>,
        icon_files: HashMap<u32, String>,
        graphics_folders: HashMap<u32, String>,
        skin_materials: HashMap<u32, u32>,
    ) -> (data: Self)
        ensures
            data.types() == types@,
            data.tables() == (IconTables {
                categories: group_categories@,
                icon_files: string_values(icon_files@),
                folders: string_values(graphics_folders@),
                skin_materials: skin_materials@,
            }),
    {
        Self { types, group_categories, icon_files, graphics_folders, skin_materials }
    }

    /// The number of item types.
    pub fn type_count(&self) -> (n: usize)
        ensures
            n == self.types().len(),
    {
        self.types.len()
    }

    /// The item type at place `i`.
    pub fn type_at(&self, i: usize) -> (t: (u32, TypeInfo))
        requires
            i < self.types().len(),
        ensures
            t == self.types()[i as int],
    {
        self.types[i]
    }

    /// The category of a group.
    pub fn category_of(&self, group_id: u32) -> (c: Option<u32>)
        ensures
            c == if self.tables().categories.contains_key(group_id) {
                Some(self.tables().categories[group_id])
            } else {
                None
            },
    {
        broadcast use vstd::std_specs::hash::group_hash_axioms;
        match self.group_categories.get(&group_id) {
            Some(c) => Some(*c),
            None => None,
        }
    }

    /// The resource key of an icon.
    pub fn icon_file(&self, icon_id: u32) -> (f: Option<&String>)
        ensures
            match f {
                Some(s) => self.tables().icon_files.contains_key(icon_id) && s@
                    == self.tables().icon_files[icon_id],
                None => !self.tables().icon_files.contains_key(icon_id),
            },
    {
        broadcast use vstd::std_specs::hash::group_hash_axioms;
        self.icon_files.get(&icon_id)
    }

    /// The resource folder of a graphic.
    pub fn graphics_folder(&self, graphic_id: u32) -> (f: Option<&String>)
        ensures
            match f {
                Some(s) => self.tables().folders.contains_key(graphic_id) && s@
                    == self.tables().folders[graphic_id],
                None => !self.tables().folders.contains_key(graphic_id),
            },
    {
        broadcast use vstd::std_specs::hash::group_hash_axioms;
        self.graphics_folders.get(&graphic_id)
    }

    /// The skin material of a license type.
    pub fn skin_material(&self, type_id: u32) -> (m: Option<u32>)
        ensures
            m == if self.tables().skin_materials.contains_key(type_id) {
                Some(self.tables().skin_materials[type_id])
            } else {
                None
            },
    {
        broadcast use vstd::std_specs::hash::group_hash_axioms;
        match self.skin_materials.get(&type_id) {
            Some(m) => Some(*m),
            None => None,
        }
    }
}

} // verus!
