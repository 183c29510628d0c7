//! Records of the client's binary static data.

use vstd::prelude::*;
use crate::text::{chars_of, first_sep, string_of};

verus! {

/// A group of item types, as the client holds it.
#[allow(non_snake_case, non_camel_case_types)]
#[derive(Debug, Clone, Copy)]
pub struct EVEGroup {
    pub groupID: u32,
    pub anchorable: u8,
    pub fittableNonSingleton: u8,
    pub groupNameID: u32,
    pub anchored: u8,
    pub published: u8,
    pub useBasePrice: u8,
    pub categoryID: u32,
    pub iconID: Option<u32>,
}

/// An icon, as the client holds it.
#[allow(non_snake_case, non_camel_case_types)]
#[derive(Debug, Clone)]
pub struct EVEIcon {
    pub iconFile: String,
    pub iconType: Option<String>,
    pub obsolete: Option<u8>,
}

/// Where the icons of a graphic lie, as the client holds it.
#[allow(non_snake_case, non_camel_case_types)]
#[derive(Debug, Clone)]
pub struct EVEGraphicIconInfo {
    pub folder: String,
}

/// One of the tables of the binary static data.
#[derive(Debug, Clone, Copy, PartialEq, Eq, Structural)]
pub enum FsdTable {
    Types,
    Groups,
    Icons,
    Graphics,
}

impl FsdTable {
    /// The resource that holds the table.
    pub fn binary_resource(self) -> (s: &'static str)
        ensures
            s@ == match self {
                FsdTable::Types => "res:/staticdata/types.fsdbinary"@,
                FsdTable::Groups => "res:/staticdata/groups.fsdbinary"@,
                FsdTable::Icons => "res:/staticdata/iconids.fsdbinary"@,
                FsdTable::Graphics => "res:/staticdata/graphicids.fsdbinary"@,
            },
    {
        match self {
            FsdTable::Types => "res:/staticdata/types.fsdbinary",
            FsdTable::Groups => "res:/staticdata/groups.fsdbinary",
            FsdTable::Icons => "res:/staticdata/iconids.fsdbinary",
            FsdTable::Graphics => "res:/staticdata/graphicids.fsdbinary",
        }
    }

    /// The resource that holds the loader of the table.
    pub fn loader_resource(self) -> (s: &'static str)
        ensures
            s@ == match self {
                FsdTable::Types => "app:/bin64/typesLoader.pyd"@,
                FsdTable::Groups => "app:/bin64/groupsLoader.pyd"@,
                FsdTable::Icons => "app:/bin64/iconIDsLoader.pyd"@,
                FsdTable::Graphics => "app:/bin64/graphicIDsLoader.pyd"@,
            },
    {
        match self {
            FsdTable::Types => "app:/bin64/typesLoader.pyd",
            FsdTable::Groups => "app:/bin64/groupsLoader.pyd",
            FsdTable::Icons => "app:/bin64/iconIDsLoader.pyd",
            FsdTable::Graphics => "app:/bin64/graphicIDsLoader.pyd",
        }
    }

    /// The name of the file into which the table is unpacked.
    pub fn json_name(self) -> (s: &'static str)
        ensures
            s@ == match self {
                FsdTable::Types => "types.json"@,
                FsdTable::Groups => "groups.json"@,
                FsdTable::Icons => "icons.json"@,
                FsdTable::Graphics => "graphics.json"@,
            },
    {
        match self {
            FsdTable::Types => "types.json",
            FsdTable::Groups => "groups.json",
            FsdTable::Icons => "icons.json",
            FsdTable::Graphics => "graphics.json",
        }
    }
}

/// What follows the last `sep` of `s`, all of `s` where it has none.
pub open spec fn after_last(s: Seq<char>, sep: char) -> Seq<char>
    decreases s.len(),
{
    if s.len() == 0 || s.last() == sep {
        Seq::empty()
    } else {
        after_last(s.drop_last(), sep).push(s.last())
    }
}

/// What stands before the first `sep` of `s`, all of `s` where it has none.
pub open spec fn before_first(s: Seq<char>, sep: char) -> Seq<char> {
    s.take(first_sep(s, sep))
}

/// The file name of a loader: what follows the last slash of its resource.
pub fn loader_file_name(loader_resource: &str) -> (s: String)
    ensures
        s@ == after_last(loader_resource@, '/'),
{
    let src = chars_of(loader_resource);
    let mut start: usize = src.len();
    assert(src@.subrange(start as int, src.len() as int) =~= Seq::empty());
    assert(src@.take(start as int) =~= src@);
    assert(after_last(src@, '/') + Seq::<char>::empty() =~= after_last(src@, '/'));
    while start > 0 && src[start - 1] != '/'
        invariant
            start <= src.len(),
            after_last(src@, '/') == after_last(src@.take(start as int), '/') + src@.subrange(
                start as int,
                src.len() as int,
            ),
        decreases start,
    {
        proof {
            let head = src@.take(start as int);
            assert(head.drop_last() =~= src@.take(start - 1));
            assert(after_last(head, '/') == after_last(src@.take(start - 1), '/').push(
                src@[start - 1],
            ));
            assert(after_last(head, '/') + src@.subrange(start as int, src.len() as int)
                =~= after_last(src@.take(start - 1), '/') + src@.subrange(
                start - 1,
                src.len() as int,
            ));
        }
        start -= 1;
    }
    assert(src@.take(src.len() as int) =~= src@);
    let mut out: Vec<char> = Vec::new();
    let mut i: usize = start;
    while i < src.len()
        invariant
            start <= i <= src.len(),
            out@ == src@.subrange(start as int, i as int),
        decreases src.len() - i,
    {
        out.push(src[i]);
        assert(out@ =~= src@.subrange(start as int, i + 1));
        i += 1;
    }
    assert(after_last(src@.take(start as int), '/') =~= Seq::empty());
    assert(out@ =~= after_last(src@, '/'));
    string_of(&out)
}

/// The name of the module of a loader: what stands before the first dot of
/// its file name.
pub fn loader_module_name(loader_file: &str) -> (s: String)
    ensures
        s@ == before_first(loader_file@, '.'),
{
    let src = chars_of(loader_file);
    let mut out: Vec<char> = Vec::new();
    let mut i: usize = 0;
    while i < src.len() && src[i] != '.'
        invariant
            i <= src.len(),
            out@ == src@.take(i as int),
            forall|j: int| 0 <= j < i ==> src@[j] != '.',
        decreases src.len() - i,
    {
        out.push(src[i]);
        i += 1;
    }
    proof {
        crate::text::lemma_first_sep_at(src@, '.', i as int);
    }
    string_of(&out)
}

} // verus!
