//! Records of the client's static databases.

use vstd::prelude::*;

verus! {

/// A license for a skin: the skin it unlocks and for how long.
#[allow(non_snake_case, non_camel_case_types)]
#[derive(Debug)]
pub struct SkinLicense {
    pub licenseTypeID: u32,
    pub skinID: u32,
    pub duration: i32,
    pub isSingleUse: Option<bool>,
}

/// The description of a skin: the number of a localized text, or the text itself.
#[allow(non_snake_case, non_camel_case_types)]
#[derive(Debug)]
pub enum SkinDescription {
    LocalizationID(u64),
    String(String),
}

/// A skin: its material and the types that can wear it.
#[allow(non_snake_case, non_camel_case_types)]
#[derive(Debug)]
pub struct Skin {
    pub internalName: String,
    pub skinMaterialID: u32,
    pub visibleTranquility: bool,
    pub isStructureSkin: Option<bool>,
    pub skinDescription: Option<SkinDescription>,
    pub skinID: u32,
    pub allowCCPDevs: bool,
    pub visibleSerenity: bool,
    pub types: Vec<u32>,
}

} // verus!
