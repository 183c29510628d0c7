//! The publishers: what each output mode writes from a finished build.

use vstd::prelude::*;
use crate::icons::index::ContentCache;
use crate::icons::kind::IconKind;
use crate::icons::metadata::{MetadataView, ServiceMetadata};
use crate::text::{decimal_digits, push_decimal, push_str, string_of};

verus! {

/// The form in which a build is published.
#[derive(Debug)]
pub enum OutputMode {
    /// An archive of every cache file and the service metadata.
    ServiceBundle { out: String },
    /// An archive in which each icon has the name of its type.
    IEC { out: String },
    /// A directory of links to the cache files.
    Web { out: String, copy_files: bool, hard_link: bool },
    /// The checksum of the index, written to `out` or printed.
    Checksum { out: Option<String> },
}

impl OutputMode {
    /// Whether the mode prints the checksum and nothing else.
    pub open spec fn prints_checksum(&self) -> bool {
        match *self {
            OutputMode::Checksum { out } => out is None,
            _ => false,
        }
    }

    /// Whether the mode prints the checksum and nothing else: such a run is
    /// silent and always gives its output.
    pub fn is_printed_checksum(&self) -> (b: bool)
        ensures
            b == self.prints_checksum(),
    {
        match self {
            OutputMode::Checksum { out } => out.is_none(),
            _ => false,
        }
    }

    /// Whether a run is silent: by choice, or because it prints the checksum.
    pub fn silent(&self, silent_flag: bool) -> (b: bool)
        ensures
            b == (silent_flag || self.prints_checksum()),
    {
        silent_flag || self.is_printed_checksum()
    }

    /// Whether a run skips its output when nothing changed: where that was
    /// asked for, unless the run prints the checksum.
    pub fn skips_if_fresh(&self, skip_flag: bool) -> (b: bool)
        ensures
            b == (skip_flag && !self.prints_checksum()),
    {
        skip_flag && !self.is_printed_checksum()
    }
}

/// How the web publisher puts an icon into its directory.
#[derive(Debug, Clone, Copy, PartialEq, Eq, Structural)]
pub enum LinkStrategy {
    /// A copy of the cache file.
    Copy,
    /// A hard link to the cache file.
    HardLink,
    /// A symbolic link to the cache file.
    SymLink,
}

impl LinkStrategy {
    /// The strategy that the flags of the web mode choose: copies where
    /// they are asked for, else hard links where they are asked for, else
    /// symbolic links.
    pub open spec fn chosen(copy_files: bool, hard_link: bool) -> LinkStrategy {
        if copy_files {
            LinkStrategy::Copy
        } else if hard_link {
            LinkStrategy::HardLink
        } else {
            LinkStrategy::SymLink
        }
    }

    /// The strategy that the flags of the web mode choose.
    pub fn from_flags(copy_files: bool, hard_link: bool) -> (strategy: LinkStrategy)
        ensures
            strategy == LinkStrategy::chosen(copy_files, hard_link),
    {
        if copy_files {
            LinkStrategy::Copy
        } else if hard_link {
            LinkStrategy::HardLink
        } else {
            LinkStrategy::SymLink
        }
    }

    /// The name of the strategy in reports.
    pub fn name(self) -> (s: &'static str)
        ensures
            s@ == match self {
                LinkStrategy::Copy => "COPYING"@,
                LinkStrategy::HardLink => "HARD LINK"@,
                LinkStrategy::SymLink => "SOFT LINK"@,
            },
    {
        match self {
            LinkStrategy::Copy => "COPYING",
            LinkStrategy::HardLink => "HARD LINK",
            LinkStrategy::SymLink => "SOFT LINK",
        }
    }

    /// Whether a file of the same name has to be removed before the icon is
    /// put there: a link cannot take the place of a file, a copy can.
    pub fn removes_first(self) -> (b: bool)
        ensures
            b == (self != LinkStrategy::Copy),
    {
        match self {
            LinkStrategy::Copy => false,
            _ => true,
        }
    }
}

/// Whether a build publishes its output: always, unless it skips when fresh
/// and changed nothing.
pub fn output_due(added: usize, removed: usize, skip_if_fresh: bool) -> (due: bool)
    ensures
        due == !(added == 0 && removed == 0 && skip_if_fresh),
{
    !(added == 0 && removed == 0 && skip_if_fresh)
}

/// One file of an archive as plain values.
pub struct EntryView {
    /// The name of the file in the archive.
    pub name: Seq<char>,
    /// The cache file that holds its bytes.
    pub source: Seq<char>,
}

/// One file of an archive.
#[derive(Debug)]
pub struct ArchiveEntry {
    /// The name of the file in the archive.
    pub name: String,
    /// The cache file that holds its bytes.
    pub source: String,
}

impl View for ArchiveEntry {
    type V = EntryView;

    open spec fn view(&self) -> EntryView {
        EntryView { name: self.name@, source: self.source@ }
    }
}

/// The views of the entries of `v`, in order.
pub open spec fn entry_views(v: Seq<ArchiveEntry>) -> Seq<EntryView> {
    v.map_values(|e: ArchiveEntry| e@)
}

/// The name that the legacy archive gives the icon of `kind` of a type:
/// icons, blueprint copies and renders have one, the other kinds repeat the
/// icon and have none.
pub open spec fn iec_name(type_id: u32, kind: IconKind) -> Option<Seq<char>> {
    match kind {
        IconKind::Icon => Some(decimal_digits(type_id as nat) + "_64.png"@),
        IconKind::BlueprintCopy => Some(decimal_digits(type_id as nat) + "_bpc_64.png"@),
        IconKind::Render => Some(decimal_digits(type_id as nat) + "_512.jpg"@),
        _ => None,
    }
}

/// The entries of the legacy archive for the first `n` kinds of a type.
pub open spec fn iec_type_entries(type_id: u32, files: Map<IconKind, Seq<char>>, n: nat) -> Seq<
    EntryView,
>
    decreases n,
{
    if n == 0 {
        Seq::empty()
    } else {
        let before = iec_type_entries(type_id, files, (n - 1) as nat);
        let kind = IconKind::spec_all()[n - 1];
        if files.contains_key(kind) && iec_name(type_id, kind) is Some {
            before.push(EntryView { name: iec_name(type_id, kind)->0, source: files[kind] })
        } else {
            before
        }
    }
}

/// The entries of the legacy archive for the first `n` types.
pub open spec fn iec_entries_upto(m: MetadataView, n: nat) -> Seq<EntryView>
    decreases n,
{
    if n == 0 {
        Seq::empty()
    } else {
        iec_entries_upto(m, (n - 1) as nat) + iec_type_entries(
            m.order[n - 1],
            m.files[m.order[n - 1]],
            6,
        )
    }
}

/// The entries of the legacy archive: for each type in order, its icon, its
/// blueprint copy and its render, as far as it has them. Types that share a
/// cache file each get an entry of their own.
pub open spec fn iec_entries(m: MetadataView) -> Seq<EntryView> {
    iec_entries_upto(m, m.order.len())
}

/// The name that the legacy archive gives the icon of `kind` of a type.
pub fn iec_entry_name(type_id: u32, kind: IconKind) -> (name: Option<String>)
    ensures
        match name {
            Some(s) => iec_name(type_id, kind) == Some(s@),
            None => iec_name(type_id, kind) is None,
        },
{
    let suffix = match kind {
        IconKind::Icon => "_64.png",
        IconKind::BlueprintCopy => "_bpc_64.png",
        IconKind::Render => "_512.jpg",
        _ => { return None; },
    };
    let mut out: Vec<char> = Vec::new();
    push_decimal(&mut out, type_id as u64);
    push_str(&mut out, suffix);
    Some(string_of(&out))
}

/// The entries of the legacy archive.
pub fn plan_iec(metadata: &ServiceMetadata) -> (entries: Vec<ArchiveEntry>)
    requires
        metadata.wf(),
    ensures
        entry_views(entries@) == iec_entries(metadata.view()),
{
    let mut entries: Vec<ArchiveEntry> = Vec::new();
    let n = metadata.type_count();
    let mut i: usize = 0;
    assert(entry_views(entries@) =~= Seq::empty());
    while i < n
        invariant
            i <= n == metadata.view().order.len(),
            metadata.wf(),
            entry_views(entries@) == iec_entries_upto(metadata.view(), i as nat),
        decreases n - i,
    {
        let type_id = metadata.type_at(i);
        let ghost files = metadata.view().files[type_id];
        let ghost before = entry_views(entries@);
        let mut k: usize = 0;
        while k < 6
            invariant
                k <= 6,
                metadata.wf(),
                metadata.view().files.contains_key(type_id),
                files == metadata.view().files[type_id],
                entry_views(entries@) == before + iec_type_entries(type_id, files, k as nat),
            decreases 6 - k,
        {
            let ghost so_far = entry_views(entries@);
            if let Some(kind) = IconKind::from_ordinal(k) {
                if let Some(source) = metadata.get(type_id, kind) {
                    if let Some(name) = iec_entry_name(type_id, kind) {
                        let entry = ArchiveEntry { name, source: source.clone() };
                        entries.push(entry);
                        assert(entry_views(entries@) =~= so_far.push(entry@));
                    }
                }
            }
            assert(entry_views(entries@) =~= before + iec_type_entries(
                type_id,
                files,
                (k + 1) as nat,
            ));
            k += 1;
        }
        i += 1;
    }
    entries
}

/// The files of the service bundle: every cache file that the build needs,
/// in ascending order. The bundle holds the service metadata beside them.
pub fn plan_service_bundle(cache: &ContentCache) -> (names: Vec<String>)
    requires
        cache.wf(),
    ensures
        crate::text::views(names@) == crate::icons::index::listing(cache.new_names()),
{
    cache.sorted_names()
}

/// The name under which the archive of a service bundle holds the metadata.
pub fn service_metadata_name() -> (s: &'static str)
    ensures
        s@ == "service_metadata.json"@,
{
    "service_metadata.json"
}

} // verus!
