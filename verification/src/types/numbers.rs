//! Small numbers of the static data.

use vstd::prelude::*;

verus! {

/// The level of a trained skill, from 0 to 5.
pub type SkillLevel = u8;

} // verus!
