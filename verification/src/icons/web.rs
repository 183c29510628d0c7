//! The web publisher: a directory with one manifest per type and one link
//! per icon, brought up to date against the index of the links that the last
//! run left there.

use vstd::prelude::*;
use vstd::hash_map::StringHashMap;
use vstd::hash_set::StringHashSet;
use crate::icons::kind::IconKind;
use crate::icons::metadata::{MetadataView, ServiceMetadata};
use crate::icons::recipe::IconError;
use crate::text::{decimal_digits, push_decimal, push_str, string_of, views};

verus! {

/// What `serde_json::to_string` makes of a list of strings: the JSON text of
/// the list, or nothing where it reports an error.
pub uninterp spec fn json_array(names: Seq<Seq<char>>) -> Option<Seq<char>>;

/// `serde_json::to_string` on a list of strings: the JSON text of the list,
/// or nothing where the call reports an error. What the call gives depends
/// on the list alone.
#[verifier::external_body]
fn json_of_names(names: &Vec<String>) -> (r: Option<String>)
    ensures
        match r {
            Some(s) => json_array(views(names@)) == Some(s@),
            None => json_array(views(names@)) is None,
        },
{
    serde_json::to_string(names).ok()
}

/// One file of the web directory as plain values.
pub struct WebFileView {
    /// The name of the file in the directory.
    pub name: Seq<char>,
    /// For a manifest its text, for a link the cache file it points at.
    pub content: Seq<char>,
    /// Whether the file is a link.
    pub link: bool,
}

/// One file of the web directory.
#[derive(Debug)]
pub struct WebFile {
    /// The name of the file in the directory.
    pub name: String,
    /// For a manifest its text, for a link the cache file it points at.
    pub content: String,
    /// Whether the file is a link.
    pub link: bool,
}

impl View for WebFile {
    type V = WebFileView;

    open spec fn view(&self) -> WebFileView {
        WebFileView { name: self.name@, content: self.content@, link: self.link }
    }
}

/// The views of the files of `v`, in order.
pub open spec fn file_views(v: Seq<WebFile>) -> Seq<WebFileView> {
    v.map_values(|f: WebFile| f@)
}

/// The name of the manifest of a type.
pub open spec fn manifest_name(type_id: u32) -> Seq<char> {
    decimal_digits(type_id as nat) + ".json"@
}

/// What follows the number of the type in the name of the link of a kind.
pub open spec fn link_suffix(kind: IconKind) -> Seq<char> {
    match kind {
        IconKind::Icon => "_icon.png"@,
        IconKind::Blueprint => "_bp.png"@,
        IconKind::BlueprintCopy => "_bpc.png"@,
        IconKind::Reaction => "_reaction.png"@,
        IconKind::Relic => "_relic.png"@,
        IconKind::Render => "_render.jpg"@,
    }
}

/// The name of the link to the icon of `kind` of a type.
pub open spec fn link_name(type_id: u32, kind: IconKind) -> Seq<char> {
    decimal_digits(type_id as nat) + link_suffix(kind)
}

/// The suffix of a link is an underscore, the name of the kind, a dot and
/// the extension of the kind.
pub proof fn lemma_link_suffix(kind: IconKind)
    ensures
        link_suffix(kind) == "_"@ + kind.spec_name() + "."@ + kind.spec_extension(),
{
    reveal_strlit("_");
    reveal_strlit(".");
    reveal_strlit("png");
    reveal_strlit("jpg");
    reveal_strlit("icon");
    reveal_strlit("bp");
    reveal_strlit("bpc");
    reveal_strlit("reaction");
    reveal_strlit("relic");
    reveal_strlit("render");
    reveal_strlit("_icon.png");
    reveal_strlit("_bp.png");
    reveal_strlit("_bpc.png");
    reveal_strlit("_reaction.png");
    reveal_strlit("_relic.png");
    reveal_strlit("_render.jpg");
}

/// The names of the kinds that a type has among the first `n` kinds.
pub open spec fn kind_names(files: Map<IconKind, Seq<char>>, n: nat) -> Seq<Seq<char>>
    decreases n,
{
    if n == 0 {
        Seq::empty()
    } else {
        let before = kind_names(files, (n - 1) as nat);
        let kind = IconKind::spec_all()[n - 1];
        if files.contains_key(kind) {
            before.push(kind.spec_name())
        } else {
            before
        }
    }
}

/// The text of the manifest of a type: the JSON list of the names of its
/// kinds, in the fixed order of kinds; nothing where that list cannot be
/// written as JSON.
pub open spec fn manifest_of(files: Map<IconKind, Seq<char>>) -> Option<Seq<char>> {
    json_array(kind_names(files, 6))
}

/// Whether the manifest of every type can be written as JSON.
pub open spec fn writable(m: MetadataView) -> bool {
    forall|i: int| 0 <= i < m.order.len() ==> manifest_of(m.files[#[trigger] m.order[i]]) is Some
}

/// The texts of the manifests of all types, in the order of the types,
/// where each of them can be written.
pub open spec fn manifests_of(m: MetadataView) -> Seq<Seq<char>> {
    Seq::new(m.order.len(), |i: int| manifest_of(m.files[m.order[i]])->0)
}

/// The files of the web directory for one type: its manifest with the text
/// `manifest`, then the links of the kinds it has among the first `n`.
pub open spec fn type_files(
    type_id: u32,
    files: Map<IconKind, Seq<char>>,
    manifest: Seq<char>,
    n: nat,
) -> Seq<WebFileView>
    decreases n,
{
    if n == 0 {
        seq![WebFileView { name: manifest_name(type_id), content: manifest, link: false }]
    } else {
        let before = type_files(type_id, files, manifest, (n - 1) as nat);
        let kind = IconKind::spec_all()[n - 1];
        if files.contains_key(kind) {
            before.push(
                WebFileView { name: link_name(type_id, kind), content: files[kind], link: true },
            )
        } else {
            before
        }
    }
}

/// The files of the web directory for the first `n` types.
pub open spec fn created_upto(m: MetadataView, manifests: Seq<Seq<char>>, n: nat) -> Seq<WebFileView>
    decreases n,
{
    if n == 0 {
        Seq::empty()
    } else {
        created_upto(m, manifests, (n - 1) as nat) + type_files(
            m.order[n - 1],
            m.files[m.order[n - 1]],
            manifests[n - 1],
            6,
        )
    }
}

/// All files of the web directory: for each type in order, its manifest and
/// its links.
pub open spec fn created(m: MetadataView, manifests: Seq<Seq<char>>) -> Seq<WebFileView> {
    created_upto(m, manifests, m.order.len())
}

/// The index of links that a list of files makes: each name with its
/// content, a later file in place of an earlier one of the same name.
pub open spec fn link_map(list: Seq<WebFileView>) -> Map<Seq<char>, Seq<char>>
    decreases list.len(),
{
    if list.len() == 0 {
        Map::empty()
    } else {
        link_map(list.drop_last()).insert(list.last().name, list.last().content)
    }
}

/// Whether a file has to be written: always in a forced run, and else
/// unless the last run left it with the same content.
pub open spec fn changed(old_links: Map<Seq<char>, Seq<char>>, f: WebFileView, force: bool) -> bool {
    force || !(old_links.contains_key(f.name) && old_links[f.name] == f.content)
}

/// The files among the first `n` of `files` that have to be written.
pub open spec fn due_upto(
    files: Seq<WebFileView>,
    old_links: Map<Seq<char>, Seq<char>>,
    force: bool,
    n: nat,
) -> Seq<WebFileView>
    decreases n,
{
    if n == 0 {
        Seq::empty()
    } else {
        let before = due_upto(files, old_links, force, (n - 1) as nat);
        if changed(old_links, files[n - 1], force) {
            before.push(files[n - 1])
        } else {
            before
        }
    }
}

/// The names of `files`.
pub open spec fn file_names(files: Seq<WebFileView>) -> Set<Seq<char>> {
    files.map_values(|f: WebFileView| f.name).to_set()
}

/// The names among the first `n` of `old_list` that `keep` does not hold.
pub open spec fn stale_upto(old_list: Seq<WebFileView>, keep: Set<Seq<char>>, n: nat) -> Seq<
    Seq<char>,
>
    decreases n,
{
    if n == 0 {
        Seq::empty()
    } else {
        let before = stale_upto(old_list, keep, (n - 1) as nat);
        if keep.contains(old_list[n - 1].name) {
            before
        } else {
            before.push(old_list[n - 1].name)
        }
    }
}

/// What a run of the web publisher does, as plain values.
pub struct WebPlanView {
    /// Every file of the directory after the run: the new index of links.
    pub created: Seq<WebFileView>,
    /// The manifests to write and the links to make.
    pub due: Seq<WebFileView>,
    /// The files of the last run to delete.
    pub removals: Seq<Seq<char>>,
}

/// What a run of the web publisher does.
#[derive(Debug)]
pub struct WebPlan {
    /// Every file of the directory after the run: the new index of links.
    pub created: Vec<WebFile>,
    /// The manifests to write and the links to make.
    pub due: Vec<WebFile>,
    /// The files of the last run to delete.
    pub removals: Vec<String>,
}

impl View for WebPlan {
    type V = WebPlanView;

    open spec fn view(&self) -> WebPlanView {
        WebPlanView {
            created: file_views(self.created@),
            due: file_views(self.due@),
            removals: views(self.removals@),
        }
    }
}

/// The run of the web publisher for the metadata `m`, where `manifests`
/// holds the text of the manifest of each type and `old_list` the index of
/// links that the last run left.
pub open spec fn web_plan_with(
    m: MetadataView,
    manifests: Seq<Seq<char>>,
    old_list: Seq<WebFileView>,
    force: bool,
) -> WebPlanView {
    let files = created(m, manifests);
    WebPlanView {
        created: files,
        due: due_upto(files, link_map(old_list), force, files.len()),
        removals: stale_upto(old_list, file_names(files), old_list.len()),
    }
}

/// The run of the web publisher for the metadata `m`, whose manifests can
/// all be written.
pub open spec fn web_plan(m: MetadataView, old_list: Seq<WebFileView>, force: bool) -> WebPlanView {
    web_plan_with(m, manifests_of(m), old_list, force)
}

/// The name of the manifest of a type.
pub fn manifest_file_name(type_id: u32) -> (s: String)
    ensures
        s@ == manifest_name(type_id),
{
    let mut out: Vec<char> = Vec::new();
    push_decimal(&mut out, type_id as u64);
    push_str(&mut out, ".json");
    string_of(&out)
}

/// The name of the link to the icon of `kind` of a type.
pub fn link_file_name(type_id: u32, kind: IconKind) -> (s: String)
    ensures
        s@ == link_name(type_id, kind),
{
    let mut out: Vec<char> = Vec::new();
    push_decimal(&mut out, type_id as u64);
    push_str(&mut out, "_");
    push_str(&mut out, kind.name());
    push_str(&mut out, ".");
    push_str(&mut out, kind.extension());
    proof {
        lemma_link_suffix(kind);
    }
    string_of(&out)
}

/// The names of the kinds that the type `type_id` has.
fn kind_names_of(metadata: &ServiceMetadata, type_id: u32) -> (names: Vec<String>)
    requires
        metadata.wf(),
        metadata.view().files.contains_key(type_id),
    ensures
        views(names@) == kind_names(metadata.view().files[type_id], 6),
{
    let mut names: Vec<String> = Vec::new();
    let mut k: usize = 0;
    while k < 6
        invariant
            k <= 6,
            metadata.wf(),
            metadata.view().files.contains_key(type_id),
            views(names@) == kind_names(metadata.view().files[type_id], k as nat),
        decreases 6 - k,
    {
        if let Some(kind) = IconKind::from_ordinal(k) {
            if metadata.get(type_id, kind).is_some() {
                let name = kind.name().to_owned();
                names.push(name);
            }
        }
        k += 1;
    }
    names
}

/// The texts of the manifests of all types, in the order of the types:
/// for each type the JSON list of the names of its kinds. It gives them
/// exactly where every manifest can be written as JSON, and nothing where
/// one of them cannot.
pub fn manifests(metadata: &ServiceMetadata) -> (r: Option<Vec<String>>)
    requires
        metadata.wf(),
    ensures
        match r {
            Some(v) => writable(metadata.view()) && views(v@) == manifests_of(metadata.view()),
            None => !writable(metadata.view()),
        },
{
    let mut out: Vec<String> = Vec::new();
    let n = metadata.type_count();
    let mut i: usize = 0;
    while i < n
        invariant
            i <= n == metadata.view().order.len(),
            metadata.wf(),
            out.len() == i,
            forall|j: int|
                0 <= j < i ==> manifest_of(metadata.view().files[metadata.view().order[j]])
                    == Some((#[trigger] out@[j])@),
        decreases n - i,
    {
        let type_id = metadata.type_at(i);
        let names = kind_names_of(metadata, type_id);
        match json_of_names(&names) {
            Some(text) => {
                out.push(text);
            },
            None => {
                assert(manifest_of(metadata.view().files[metadata.view().order[i as int]]) is None);
                return None;
            },
        }
        i += 1;
    }
    proof {
        let m = metadata.view();
        assert forall|j: int| 0 <= j < m.order.len() implies manifest_of(
            m.files[#[trigger] m.order[j]],
        ) is Some by {
            assert(manifest_of(m.files[m.order[j]]) == Some(out@[j]@));
        }
        assert(views(out@) =~= manifests_of(m));
    }
    Some(out)
}

/// The files of the web directory for one type.
fn type_files_of(metadata: &ServiceMetadata, type_id: u32, manifest: &String, out: &mut Vec<WebFile>)
    requires
        metadata.wf(),
        metadata.view().files.contains_key(type_id),
    ensures
        file_views(final(out)@) == file_views(old(out)@) + type_files(
            type_id,
            metadata.view().files[type_id],
            manifest@,
            6,
        ),
{
    let ghost start = file_views(out@);
    let ghost files = metadata.view().files[type_id];
    let first = WebFile { name: manifest_file_name(type_id), content: manifest.clone(), link: false };
    out.push(first);
    assert(file_views(out@) =~= start + type_files(type_id, files, manifest@, 0));
    let mut k: usize = 0;
    while k < 6
        invariant
            k <= 6,
            metadata.wf(),
            metadata.view().files.contains_key(type_id),
            files == metadata.view().files[type_id],
            file_views(out@) == start + type_files(type_id, files, manifest@, k as nat),
        decreases 6 - k,
    {
        let ghost so_far = file_views(out@);
        if let Some(kind) = IconKind::from_ordinal(k) {
            if let Some(target) = metadata.get(type_id, kind) {
                let f = WebFile { name: link_file_name(type_id, kind), content: target.clone(), link: true };
                out.push(f);
                assert(file_views(out@) =~= so_far.push(f@));
            }
        }
        assert(file_views(out@) =~= start + type_files(type_id, files, manifest@, (k + 1) as nat));
        k += 1;
    }
}

/// The run of the web publisher, from the text of each manifest.
///
/// `manifests` holds one text for each type of the metadata, in the order of
/// the types; `old_links` is the index of links that the last run left, and
/// empty where there was none.
pub fn plan_web_with(
    metadata: &ServiceMetadata,
    manifests: &Vec<String>,
    old_links: &Vec<WebFile>,
    force: bool,
) -> (plan: WebPlan)
    requires
        metadata.wf(),
        manifests.len() == metadata.view().order.len(),
    ensures
        plan@ == web_plan_with(metadata.view(), views(manifests@), file_views(old_links@), force),
{
    let ghost m = metadata.view();
    let ghost texts = views(manifests@);
    let ghost old_list = file_views(old_links@);
    let mut files: Vec<WebFile> = Vec::new();
    let n = metadata.type_count();
    let mut i: usize = 0;
    assert(file_views(files@) =~= Seq::empty());
    while i < n
        invariant
            i <= n == m.order.len(),
            n == manifests.len(),
            metadata.wf(),
            m == metadata.view(),
            texts == views(manifests@),
            file_views(files@) == created_upto(m, texts, i as nat),
        decreases n - i,
    {
        let type_id = metadata.type_at(i);
        type_files_of(metadata, type_id, &manifests[i], &mut files);
        i += 1;
    }
    let mut old_map: StringHashMap<String> = StringHashMap::new();
    let mut j: usize = 0;
    assert(old_list.take(0) =~= Seq::empty());
    assert(old_map@ =~= Map::empty());
    while j < old_links.len()
        invariant
            j <= old_links.len(),
            old_list == file_views(old_links@),
            forall|k: Seq<char>| old_map@.contains_key(k) == link_map(old_list.take(j as int)).contains_key(k),
            forall|k: Seq<char>| #[trigger]
                old_map@.contains_key(k) ==> old_map@[k]@ == link_map(old_list.take(j as int))[k],
        decreases old_links.len() - j,
    {
        assert(old_list.take(j + 1).drop_last() =~= old_list.take(j as int));
        assert(old_list.take(j + 1).last() == old_links@[j as int]@);
        old_map.insert(old_links[j].name.clone(), old_links[j].content.clone());
        j += 1;
    }
    assert(old_list.take(old_links.len() as int) =~= old_list);
    let ghost old_spec = link_map(old_list);
    let mut due: Vec<WebFile> = Vec::new();
    let mut names = StringHashSet::new();
    let mut c: usize = 0;
    assert(file_views(due@) =~= Seq::empty());
    assert(file_names(file_views(files@).take(0)) =~= Set::empty());
    while c < files.len()
        invariant
            c <= files.len(),
            forall|k: Seq<char>| old_map@.contains_key(k) == old_spec.contains_key(k),
            forall|k: Seq<char>| #[trigger] old_map@.contains_key(k) ==> old_map@[k]@ == old_spec[k],
            file_views(due@) == due_upto(file_views(files@), old_spec, force, c as nat),
            names@ == file_names(file_views(files@).take(c as int)),
        decreases files.len() - c,
    {
        let ghost so_far = file_views(due@);
        let same = match old_map.get(files[c].name.as_str()) {
            Some(content) => *content == files[c].content,
            None => false,
        };
        assert(same == (old_spec.contains_key(files@[c as int]@.name) && old_spec[files@[c as int]@.name]
            == files@[c as int]@.content));
        if force || !same {
            let f = WebFile {
                name: files[c].name.clone(),
                content: files[c].content.clone(),
                link: files[c].link,
            };
            due.push(f);
            assert(file_views(due@) =~= so_far.push(files@[c as int]@));
        }
        proof {
            lemma_file_names_push(file_views(files@).take(c as int), files@[c as int]@);
            assert(file_views(files@).take(c + 1) =~= file_views(files@).take(c as int).push(
                files@[c as int]@,
            ));
        }
        names.insert(files[c].name.clone());
        c += 1;
    }
    assert(file_views(files@).take(files.len() as int) =~= file_views(files@));
    let mut removals: Vec<String> = Vec::new();
    let mut r: usize = 0;
    assert(views(removals@) =~= Seq::empty());
    while r < old_links.len()
        invariant
            r <= old_links.len(),
            old_list == file_views(old_links@),
            views(removals@) == stale_upto(old_list, names@, r as nat),
        decreases old_links.len() - r,
    {
        let ghost so_far = views(removals@);
        if !names.contains(old_links[r].name.as_str()) {
            removals.push(old_links[r].name.clone());
            assert(views(removals@) =~= so_far.push(old_list[r as int].name));
        }
        r += 1;
    }
    WebPlan { created: files, due, removals }
}

/// Adding a file adds its name to the names.
proof fn lemma_file_names_push(files: Seq<WebFileView>, f: WebFileView)
    ensures
        file_names(files.push(f)) == file_names(files).insert(f.name),
{
    let names = files.map_values(|f: WebFileView| f.name);
    let more = files.push(f).map_values(|f: WebFileView| f.name);
    assert(more =~= names.push(f.name));
    assert forall|x: Seq<char>| more.contains(x) <==> names.contains(x) || x == f.name by {
        if names.contains(x) {
            let i = choose|i: int| 0 <= i < names.len() && names[i] == x;
            assert(more[i] == x);
        }
        if x == f.name {
            assert(more[names.len() as int] == x);
        }
    }
    assert(more.to_set() =~= names.to_set().insert(f.name));
}

/// The run of the web publisher: which manifests to write, which links to
/// make and which files of the last run to delete, so that the directory
/// holds one manifest for each type and one link for each of its icons.
///
/// Fails exactly where a manifest cannot be written as JSON.
pub fn plan_web(metadata: &ServiceMetadata, old_links: &Vec<WebFile>, force: bool) -> (r: Result<
    WebPlan,
    IconError,
>)
    requires
        metadata.wf(),
    ensures
        match r {
            Ok(plan) => writable(metadata.view()) && plan@ == web_plan(
                metadata.view(),
                file_views(old_links@),
                force,
            ),
            Err(e) => e is Manifest && !writable(metadata.view()),
        },
{
    match manifests(metadata) {
        Some(texts) => {
            assert(texts.len() == views(texts@).len());
            Ok(plan_web_with(metadata, &texts, old_links, force))
        },
        None => Err(IconError::Manifest),
    }
}

} // verus!
