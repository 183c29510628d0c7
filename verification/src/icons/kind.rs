//! The closed set of icon variants.

use vstd::prelude::*;

verus! {

/// One variant of icon that can exist for an item type.
#[derive(Clone, Copy, Debug, PartialEq, Eq, Hash, Structural)]
pub enum IconKind {
    Icon,
    Blueprint,
    BlueprintCopy,
    Reaction,
    Relic,
    Render,
}

impl IconKind {
    /// The canonical short name of a kind.
    pub open spec fn spec_name(self) -> Seq<char> {
        match self {
            IconKind::Icon => "icon"@,
            IconKind::Blueprint => "bp"@,
            IconKind::BlueprintCopy => "bpc"@,
            IconKind::Reaction => "reaction"@,
            IconKind::Relic => "relic"@,
            IconKind::Render => "render"@,
        }
    }

    /// The file extension of a kind, without the dot.
    pub open spec fn spec_extension(self) -> Seq<char> {
        match self {
            IconKind::Render => "jpg"@,
            _ => "png"@,
        }
    }

    /// The place of a kind in the fixed order in which kinds are listed.
    pub open spec fn spec_ordinal(self) -> nat {
        match self {
            IconKind::Icon => 0,
            IconKind::Blueprint => 1,
            IconKind::BlueprintCopy => 2,
            IconKind::Reaction => 3,
            IconKind::Relic => 4,
            IconKind::Render => 5,
        }
    }

    /// All kinds, in the order in which they are listed.
    pub open spec fn spec_all() -> Seq<IconKind> {
        seq![
            IconKind::Icon,
            IconKind::Blueprint,
            IconKind::BlueprintCopy,
            IconKind::Reaction,
            IconKind::Relic,
            IconKind::Render,
        ]
    }

    /// Canonical short name of this kind.
    pub fn name(self) -> (s: &'static str)
        ensures
            s@ == self.spec_name(),
    {
        match self {
            IconKind::Icon => "icon",
            IconKind::Blueprint => "bp",
            IconKind::BlueprintCopy => "bpc",
            IconKind::Reaction => "reaction",
            IconKind::Relic => "relic",
            IconKind::Render => "render",
        }
    }

    /// File extension of this kind, without the dot: `jpg` for renders, `png`
    /// for every other kind.
    pub fn extension(self) -> (s: &'static str)
        ensures
            s@ == self.spec_extension(),
    {
        match self {
            IconKind::Render => "jpg",
            _ => "png",
        }
    }

    /// The place of this kind in the fixed order in which kinds are listed.
    pub fn ordinal(self) -> (n: usize)
        ensures
            n == self.spec_ordinal(),
            n < 6,
            IconKind::spec_all()[n as int] == self,
    {
        match self {
            IconKind::Icon => 0,
            IconKind::Blueprint => 1,
            IconKind::BlueprintCopy => 2,
            IconKind::Reaction => 3,
            IconKind::Relic => 4,
            IconKind::Render => 5,
        }
    }

    /// The kind at place `n` of the fixed order.
    pub fn from_ordinal(n: usize) -> (k: Option<IconKind>)
        ensures
            n < 6 ==> k == Some(IconKind::spec_all()[n as int]) && k->0.spec_ordinal() == n,
            n >= 6 ==> k is None,
    {
        match n {
            0 => Some(IconKind::Icon),
            1 => Some(IconKind::Blueprint),
            2 => Some(IconKind::BlueprintCopy),
            3 => Some(IconKind::Reaction),
            4 => Some(IconKind::Relic),
            5 => Some(IconKind::Render),
            _ => None,
        }
    }
}

} // verus!
