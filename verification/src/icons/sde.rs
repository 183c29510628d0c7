//! What the icon build takes from the static data export: which types it
//! keeps, and the skin material of each license.

use vstd::prelude::*;
use std::collections::HashMap;
use vstd::std_specs::iter::IteratorSpec;
use crate::icons::data::TypeInfo;

verus! {

/// A record of the export together with its key.
#[derive(Debug)]
pub struct Keyed<T> {
    _key: u32,
    content: T,
}

impl<T> Keyed<T> {
    /// The key of the record.
    pub closed spec fn spec_key(&self) -> u32 {
        self._key
    }

    /// The record without its key.
    pub closed spec fn spec_content(&self) -> T {
        self.content
    }

    /// A record with its key.
    pub fn new(key: u32, content: T) -> (k: Self)
        ensures
            k.spec_key() == key,
            k.spec_content() == content,
    {
        Keyed { _key: key, content }
    }

    /// The key of the record.
    pub fn key(&self) -> (k: u32)
        ensures
            k == self.spec_key(),
    {
        self._key
    }

    /// The key and the record.
    pub fn into_parts(self) -> (parts: (u32, T))
        ensures
            parts == (self.spec_key(), self.spec_content()),
    {
        (self._key, self.content)
    }
}

/// Whether the icon build keeps a type: it has a graphic or an icon, or it
/// is of one of the groups of SKIN licenses.
pub open spec fn keeps_type(info: TypeInfo) -> bool {
    info.graphic_id is Some || info.icon_id is Some || 1950 <= info.group_id <= 1955
        || info.group_id == 4040
}

/// Whether the icon build keeps a type.
pub fn is_kept(info: &TypeInfo) -> (b: bool)
    ensures
        b == keeps_type(*info),
{
    info.graphic_id.is_some() || info.icon_id.is_some() || (1950 <= info.group_id && info.group_id
        <= 1955) || info.group_id == 4040
}

/// Whether the local copy of the export has to be fetched: there is none,
/// or its build is not the newest published build.
pub fn needs_download(current: Option<u32>, latest: u32) -> (download: bool)
    ensures
        download == match current {
            Some(build) => build != latest,
            None => true,
        },
{
    match current {
        Some(build) => build != latest,
        None => true,
    }
}

/// The skin material of each license: that of the skin of the license.
/// Licenses whose skin has no material have none.
pub open spec fn license_materials_spec(
    license_skins: Map<u32, u32>,
    skin_materials: Map<u32, u32>,
) -> Map<u32, u32> {
    Map::new(
        |license: u32|
            license_skins.contains_key(license) && skin_materials.contains_key(license_skins[license]),
        |license: u32| skin_materials[license_skins[license]],
    )
}

/// The skin material of each license.
pub fn license_materials(license_skins: &HashMap<u32, u32>, skin_materials: &HashMap<u32, u32>) -> (out:
    HashMap<u32, u32>)
    ensures
        out@ == license_materials_spec(license_skins@, skin_materials@),
{
    broadcast use vstd::std_specs::hash::group_hash_axioms;

    let mut out: HashMap<u32, u32> = HashMap::new();
    let ghost expected = license_materials_spec(license_skins@, skin_materials@);
    for pair in it: license_skins.iter()
        invariant
            expected == license_materials_spec(license_skins@, skin_materials@),
            it.seq() == vstd::std_specs::hash::spec_hash_map_iter(license_skins).remaining(),
            forall|l: u32| #[trigger]
                out@.contains_key(l) ==> expected.contains_key(l) && out@[l] == expected[l],
            forall|i: int|
                0 <= i < it.index() && expected.contains_key(*(#[trigger] it.seq()[i]).0)
                    ==> out@.contains_key(*it.seq()[i].0),
    {
        let (license, skin) = pair;
        if let Some(material) = skin_materials.get(skin) {
            out.insert(*license, *material);
        }
    }
    proof {
        let v = vstd::std_specs::hash::spec_hash_map_iter(license_skins).remaining();
        assert forall|l: u32| expected.contains_key(l) implies out@.contains_key(l) by {
            let i = choose|i: int| 0 <= i < v.len() && v[i] == (&l, &license_skins@[l]);
        }
    }
    out
}

} // verus!
