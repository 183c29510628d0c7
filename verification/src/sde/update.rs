//! Keeping a local copy of the static data export current.

use vstd::prelude::*;

verus! {

/// Where the build number of the newest export is published.
pub const VERSION_URL: &'static str =
    "https://developers.eveonline.com/static-data/tranquility/latest.jsonl";

/// Where the newest export is published.
pub const SDE_URL: &'static str =
    "https://developers.eveonline.com/static-data/eve-online-static-data-latest-jsonl.zip";

/// The version of an export.
#[allow(non_snake_case, non_camel_case_types)]
#[derive(Debug)]
pub enum SdeVersion {
    sde { buildNumber: u32, releaseDate: String },
}

impl SdeVersion {
    /// The build number of the version.
    pub open spec fn spec_build(&self) -> u32 {
        match *self {
            SdeVersion::sde { buildNumber, releaseDate } => buildNumber,
        }
    }

    /// The build number of the version.
    pub fn build_number(&self) -> (n: u32)
        ensures
            n == self.spec_build(),
    {
        match self {
            SdeVersion::sde { buildNumber, .. } => *buildNumber,
        }
    }

    /// The version of a copy that does not exist yet: build 0, older than
    /// every published build.
    pub fn absent() -> (v: SdeVersion)
        ensures
            v.spec_build() == 0,
            v matches SdeVersion::sde { buildNumber, releaseDate } && releaseDate@.len() == 0,
    {
        SdeVersion::sde { buildNumber: 0, releaseDate: String::new() }
    }
}

/// Decides whether the local copy has to be fetched anew: it has where the
/// newest published build is later than the build of the copy.
pub fn update_sde(current: &SdeVersion, latest: &SdeVersion) -> (download: bool)
    ensures
        download == (current.spec_build() < latest.spec_build()),
{
    current.build_number() < latest.build_number()
}

} // verus!
