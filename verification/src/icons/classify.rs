//! The classifier: which icon kinds an item type has, and from which
//! resources each of its icon files is made.

use vstd::prelude::*;
use crate::cache::{normalize, ResourceIndex};
use crate::icons::data::{
    flat_icon_group, is_flat_icon_group, is_reaction_group, reaction_group, techicon_resource_for_metagroup,
    techicon_spec, IconBuildData, IconTables, TypeInfo, CATEGORY_BLUEPRINT, CATEGORY_REACTION,
    CATEGORY_SKIN, DEFAULT_META_GROUP,
};
use crate::icons::kind::IconKind;
use crate::icons::recipe::{
    cache_filename, job_views, make_cache_filename, Failure, IconError, IconJob, JobView, Recipe,
    RecipeView,
};
use crate::text::{
    chars_of, decimal_digits, push_decimal, push_str, string_of, trim_end_spec, trimmed_len, views,
};

verus! {

/// What classification finds for one type, over plain character sequences.
pub struct ClassifiedView {
    /// The icon files of the type, in the order in which they are registered.
    pub jobs: Seq<JobView>,
    /// Whether the icon resource of the type is missing from the store.
    pub missing: bool,
}

/// What classification finds for one type.
#[derive(Debug)]
pub struct Classified {
    /// The icon files of the type, in the order in which they are registered.
    pub jobs: Vec<IconJob>,
    /// Whether the icon resource of the type is missing from the store, which
    /// is reported and costs the type that icon only.
    pub missing: bool,
}

impl View for Classified {
    type V = ClassifiedView;

    open spec fn view(&self) -> ClassifiedView {
        ClassifiedView { jobs: job_views(self.jobs@), missing: self.missing }
    }
}

/// Whether the store holds the resource `key`.
pub open spec fn store_has(store: Map<Seq<char>, Seq<char>>, key: Seq<char>) -> bool {
    store.contains_key(normalize(key))
}

/// The content hash that the store gives for the resource `key`.
pub open spec fn store_hash(store: Map<Seq<char>, Seq<char>>, key: Seq<char>) -> Seq<char> {
    store[normalize(key)]
}

/// The tech-tier overlay of a type: that of its meta group, of meta group 1
/// where it has none.
pub open spec fn tech_of(info: TypeInfo) -> Option<Seq<char>> {
    techicon_spec(
        match info.meta_group_id {
            Some(m) => m,
            None => DEFAULT_META_GROUP,
        },
    )
}

/// The key of a resource of a graphic: the folder without slashes at its
/// end, a slash, the graphic's number and the suffix.
pub open spec fn graphic_resource(folder: Seq<char>, graphic_id: u32, suffix: Seq<char>) -> Seq<
    char,
> {
    trim_end_spec(folder, '/') + seq!['/'] + decimal_digits(graphic_id as nat) + suffix
}

/// The key of the icon of a skin material.
pub open spec fn skin_resource(material_id: u32) -> Seq<char> {
    "res:/ui/texture/classes/skins/icons/"@ + decimal_digits(material_id as nat) + ".png"@
}

/// A type without icon files.
pub open spec fn nothing() -> ClassifiedView {
    ClassifiedView { jobs: Seq::empty(), missing: false }
}

/// A type whose icon resource is missing from the store.
pub open spec fn missing_icon() -> ClassifiedView {
    ClassifiedView { jobs: Seq::empty(), missing: true }
}

/// The files of a type whose 64 pixel icon is the resource `icon`: none, with
/// a report, where the store lacks the resource; else one file of kind Icon,
/// with the tech-tier overlay where the type has one.
pub open spec fn icon_jobs(icon: Seq<char>, info: TypeInfo, store: Map<Seq<char>, Seq<char>>) -> Result<
    ClassifiedView,
    Failure,
> {
    if !store_has(store, icon) {
        Ok(missing_icon())
    } else {
        match tech_of(info) {
            Some(tech) => if !store_has(store, tech) {
                Err(Failure::ResourceNotFound(normalize(tech)))
            } else {
                Ok(
                    ClassifiedView {
                        jobs: seq![
                            JobView {
                                kinds: seq![IconKind::Icon],
                                filename: cache_filename(
                                    seq![store_hash(store, icon), store_hash(store, tech)],
                                    ".png"@,
                                ),
                                recipe: RecipeView::Tech { icon, tech },
                            },
                        ],
                        missing: false,
                    },
                )
            },
            None => Ok(
                ClassifiedView {
                    jobs: seq![
                        JobView {
                            kinds: seq![IconKind::Icon],
                            filename: cache_filename(seq![store_hash(store, icon)], ".png"@),
                            recipe: RecipeView::Copy { resource: icon, jpeg: false },
                        },
                    ],
                    missing: false,
                },
            ),
        }
    }
}

/// One file of a blueprint that has a graphic of its own.
pub open spec fn graphic_blueprint_job(
    tag: Seq<char>,
    kinds: Seq<IconKind>,
    resource: Seq<char>,
    tech: Option<Seq<char>>,
    store: Map<Seq<char>, Seq<char>>,
) -> JobView {
    match tech {
        Some(t) => JobView {
            kinds,
            filename: cache_filename(
                seq![tag, store_hash(store, resource), store_hash(store, t)],
                ".png"@,
            ),
            recipe: RecipeView::Tech { icon: resource, tech: t },
        },
        None => JobView {
            kinds,
            filename: cache_filename(seq![tag, store_hash(store, resource)], ".png"@),
            recipe: RecipeView::Copy { resource, jpeg: false },
        },
    }
}

/// The files of a blueprint whose graphic has the resources `bp` and, where
/// the store holds it, `bpc`: the first serves as icon and blueprint, the
/// second as blueprint copy.
pub open spec fn graphic_blueprint_jobs(
    bp: Seq<char>,
    bpc: Seq<char>,
    info: TypeInfo,
    store: Map<Seq<char>, Seq<char>>,
) -> Result<ClassifiedView, Failure> {
    let tech = tech_of(info);
    if tech is Some && !store_has(store, tech->0) {
        Err(Failure::ResourceNotFound(normalize(tech->0)))
    } else {
        let first = graphic_blueprint_job(
            "bp"@,
            seq![IconKind::Icon, IconKind::Blueprint],
            bp,
            tech,
            store,
        );
        if store_has(store, bpc) {
            Ok(
                ClassifiedView {
                    jobs: seq![
                        first,
                        graphic_blueprint_job("bpc"@, seq![IconKind::BlueprintCopy], bpc, tech, store),
                    ],
                    missing: false,
                },
            )
        } else {
            Ok(ClassifiedView { jobs: seq![first], missing: false })
        }
    }
}

/// The part of a file name that stands for the tech-tier overlay: its
/// content hash, and nothing where the type has no overlay.
pub open spec fn tech_part(tech: Option<Seq<char>>, store: Map<Seq<char>, Seq<char>>) -> Seq<char> {
    match tech {
        Some(t) => store_hash(store, t),
        None => Seq::empty(),
    }
}

/// One file of a blueprint that is composed from a flat icon.
pub open spec fn composed_job(
    tag: Seq<char>,
    kinds: Seq<IconKind>,
    background: Seq<char>,
    overlay: Seq<char>,
    icon: Seq<char>,
    tech: Option<Seq<char>>,
    store: Map<Seq<char>, Seq<char>>,
) -> JobView {
    JobView {
        kinds,
        filename: cache_filename(
            seq![tag, store_hash(store, icon), tech_part(tech, store)],
            ".png"@,
        ),
        recipe: RecipeView::Blueprint { background, overlay, icon, tier: tech },
    }
}

/// The files of a blueprint that is composed from the flat icon `icon`: for
/// category 34 one on the relic background; for a reaction group one on the
/// reaction background, which also serves as blueprint; else one on the
/// blueprint background and one on the background of copies.
pub open spec fn icon_blueprint_jobs(
    icon: Seq<char>,
    category: u32,
    info: TypeInfo,
    store: Map<Seq<char>, Seq<char>>,
) -> Result<ClassifiedView, Failure> {
    let tech = tech_of(info);
    if !store_has(store, icon) {
        Ok(missing_icon())
    } else if tech is Some && !store_has(store, tech->0) {
        Err(Failure::ResourceNotFound(normalize(tech->0)))
    } else if category == CATEGORY_REACTION {
        Ok(
            ClassifiedView {
                jobs: seq![
                    composed_job(
                        "relic"@,
                        seq![IconKind::Icon, IconKind::Relic],
                        "res:/ui/texture/icons/relic.png"@,
                        "res:/ui/texture/icons/relic_overlay.png"@,
                        icon,
                        tech,
                        store,
                    ),
                ],
                missing: false,
            },
        )
    } else if is_reaction_group(info.group_id) {
        Ok(
            ClassifiedView {
                jobs: seq![
                    composed_job(
                        "reaction"@,
                        seq![IconKind::Icon, IconKind::Reaction, IconKind::Blueprint],
                        "res:/ui/texture/icons/reaction.png"@,
                        "res:/ui/texture/icons/bpo_overlay.png"@,
                        icon,
                        tech,
                        store,
                    ),
                ],
                missing: false,
            },
        )
    } else {
        Ok(
            ClassifiedView {
                jobs: seq![
                    composed_job(
                        "bp"@,
                        seq![IconKind::Icon, IconKind::Blueprint],
                        "res:/ui/texture/icons/bpo.png"@,
                        "res:/ui/texture/icons/bpo_overlay.png"@,
                        icon,
                        tech,
                        store,
                    ),
                    composed_job(
                        "bpc"@,
                        seq![IconKind::BlueprintCopy],
                        "res:/ui/texture/icons/bpc.png"@,
                        "res:/ui/texture/icons/bpc_overlay.png"@,
                        icon,
                        tech,
                        store,
                    ),
                ],
                missing: false,
            },
        )
    }
}

/// Whether a blueprint takes its icon from its graphic: the folder of the
/// graphic is known, the group is not one of flat icons, and the store holds
/// the blueprint resource of the graphic.
pub open spec fn uses_graphic_blueprint(
    info: TypeInfo,
    t: IconTables,
    store: Map<Seq<char>, Seq<char>>,
) -> bool {
    &&& info.graphic_id is Some
    &&& t.folders.contains_key(info.graphic_id->0)
    &&& !is_flat_icon_group(info.group_id)
    &&& store_has(
        store,
        graphic_resource(t.folders[info.graphic_id->0], info.graphic_id->0, "_64_bp.png"@),
    )
}

/// The files of a type of category 9 or 34.
pub open spec fn blueprint_jobs(
    info: TypeInfo,
    category: u32,
    t: IconTables,
    store: Map<Seq<char>, Seq<char>>,
) -> Result<ClassifiedView, Failure> {
    if uses_graphic_blueprint(info, t, store) {
        let folder = t.folders[info.graphic_id->0];
        graphic_blueprint_jobs(
            graphic_resource(folder, info.graphic_id->0, "_64_bp.png"@),
            graphic_resource(folder, info.graphic_id->0, "_64_bpc.png"@),
            info,
            store,
        )
    } else if info.icon_id is Some {
        if !t.icon_files.contains_key(info.icon_id->0) {
            Err(Failure::UnknownIcon(info.icon_id->0))
        } else {
            icon_blueprint_jobs(t.icon_files[info.icon_id->0], category, info, store)
        }
    } else {
        Ok(nothing())
    }
}

/// The files of a SKIN license: those of the icon of its skin material, none
/// where the type has no skin material.
pub open spec fn skin_jobs(
    type_id: u32,
    info: TypeInfo,
    t: IconTables,
    store: Map<Seq<char>, Seq<char>>,
) -> Result<ClassifiedView, Failure> {
    if t.skin_materials.contains_key(type_id) {
        icon_jobs(skin_resource(t.skin_materials[type_id]), info, store)
    } else {
        Ok(nothing())
    }
}

/// The render of a graphic, where the store holds it: copied as it is.
pub open spec fn render_jobs(folder: Seq<char>, graphic_id: u32, store: Map<Seq<char>, Seq<char>>) -> Seq<
    JobView,
> {
    let render = graphic_resource(folder, graphic_id, "_512.jpg"@);
    if store_has(store, render) {
        seq![
            JobView {
                kinds: seq![IconKind::Render],
                filename: cache_filename(seq![store_hash(store, render)], ".jpg"@),
                recipe: RecipeView::Copy { resource: render, jpeg: true },
            },
        ]
    } else {
        Seq::empty()
    }
}

/// The files of `tail` after those of `head`.
pub open spec fn after(head: Seq<JobView>, tail: Result<ClassifiedView, Failure>) -> Result<
    ClassifiedView,
    Failure,
> {
    match tail {
        Ok(c) => Ok(ClassifiedView { jobs: head + c.jobs, missing: c.missing }),
        Err(f) => Err(f),
    }
}

/// The files of a regular item: its icon is that of its graphic, unless the
/// store lacks it or the group is one of flat icons, and otherwise the file
/// of its icon id; a type with a known graphic folder has its render too.
pub open spec fn regular_jobs(info: TypeInfo, t: IconTables, store: Map<Seq<char>, Seq<char>>) -> Result<
    ClassifiedView,
    Failure,
> {
    if info.graphic_id is Some && t.folders.contains_key(info.graphic_id->0) {
        let folder = t.folders[info.graphic_id->0];
        let graphic_icon = graphic_resource(folder, info.graphic_id->0, "_64.png"@);
        if store_has(store, graphic_icon) && !is_flat_icon_group(info.group_id) {
            after(render_jobs(folder, info.graphic_id->0, store), icon_jobs(graphic_icon, info, store))
        } else if info.icon_id is None {
            Ok(nothing())
        } else if !t.icon_files.contains_key(info.icon_id->0) {
            Err(Failure::UnknownIcon(info.icon_id->0))
        } else {
            after(
                render_jobs(folder, info.graphic_id->0, store),
                icon_jobs(t.icon_files[info.icon_id->0], info, store),
            )
        }
    } else if info.icon_id is Some {
        if !t.icon_files.contains_key(info.icon_id->0) {
            Err(Failure::UnknownIcon(info.icon_id->0))
        } else {
            icon_jobs(t.icon_files[info.icon_id->0], info, store)
        }
    } else {
        Ok(nothing())
    }
}

/// The icon files of the type `type_id`, or why it has none to give.
pub open spec fn classify(
    type_id: u32,
    info: TypeInfo,
    t: IconTables,
    store: Map<Seq<char>, Seq<char>>,
) -> Result<ClassifiedView, Failure> {
    if !t.categories.contains_key(info.group_id) {
        Err(Failure::GroupWithoutCategory(info.group_id))
    } else {
        let category = t.categories[info.group_id];
        if info.icon_id is None && info.graphic_id is None && category != CATEGORY_SKIN {
            Ok(nothing())
        } else if category == CATEGORY_BLUEPRINT || category == CATEGORY_REACTION {
            blueprint_jobs(info, category, t, store)
        } else if category == CATEGORY_SKIN {
            skin_jobs(type_id, info, t, store)
        } else {
            regular_jobs(info, t, store)
        }
    }
}

/// Whether what the classifier returned is what `expected` says.
pub open spec fn classified_as(
    r: Result<Classified, IconError>,
    expected: Result<ClassifiedView, Failure>,
) -> bool {
    match (r, expected) {
        (Ok(c), Ok(v)) => c@ == v,
        (Err(e), Err(f)) => e.reports(f),
        _ => false,
    }
}

/// A result without files.
fn no_jobs(missing: bool) -> (c: Classified)
    ensures
        c@ == (ClassifiedView { jobs: Seq::empty(), missing }),
{
    let c = Classified { jobs: Vec::new(), missing };
    assert(c@.jobs =~= Seq::empty());
    c
}

/// The file name made of one part.
fn name1(a: &str, ext: &str) -> (s: String)
    ensures
        s@ == cache_filename(seq![a@], ext@),
{
    let mut parts: Vec<String> = Vec::new();
    parts.push(a.to_owned());
    make_cache_filename(&parts, ext)
}

/// The file name made of two parts.
fn name2(a: &str, b: &str, ext: &str) -> (s: String)
    ensures
        s@ == cache_filename(seq![a@, b@], ext@),
{
    let mut parts: Vec<String> = Vec::new();
    parts.push(a.to_owned());
    parts.push(b.to_owned());
    assert(views(parts@) =~= seq![a@, b@]);
    make_cache_filename(&parts, ext)
}

/// The file name made of three parts.
fn name3(a: &str, b: &str, c: &str, ext: &str) -> (s: String)
    ensures
        s@ == cache_filename(seq![a@, b@, c@], ext@),
{
    let mut parts: Vec<String> = Vec::new();
    parts.push(a.to_owned());
    parts.push(b.to_owned());
    parts.push(c.to_owned());
    assert(views(parts@) =~= seq![a@, b@, c@]);
    make_cache_filename(&parts, ext)
}

/// The key of a resource of a graphic.
pub fn graphic_resource_key(folder: &str, graphic_id: u32, suffix: &str) -> (s: String)
    ensures
        s@ == graphic_resource(folder@, graphic_id, suffix@),
{
    let src = chars_of(folder);
    let n = trimmed_len(&src, '/');
    let mut out: Vec<char> = Vec::new();
    let mut i: usize = 0;
    while i < n
        invariant
            i <= n <= src.len(),
            out@ == src@.take(i as int),
        decreases n - i,
    {
        out.push(src[i]);
        i += 1;
    }
    out.push('/');
    push_decimal(&mut out, graphic_id as u64);
    push_str(&mut out, suffix);
    string_of(&out)
}

/// The key of the icon of a skin material.
pub fn skin_resource_key(material_id: u32) -> (s: String)
    ensures
        s@ == skin_resource(material_id),
{
    let mut out: Vec<char> = Vec::new();
    push_str(&mut out, "res:/ui/texture/classes/skins/icons/");
    push_decimal(&mut out, material_id as u64);
    push_str(&mut out, ".png");
    string_of(&out)
}

/// The tech-tier overlay of a type.
pub fn tech_overlay(info: &TypeInfo) -> (r: Option<&'static str>)
    ensures
        match r {
            Some(s) => tech_of(*info) == Some(s@),
            None => tech_of(*info) is None,
        },
{
    let meta = match info.meta_group_id {
        Some(m) => m,
        None => DEFAULT_META_GROUP,
    };
    techicon_resource_for_metagroup(meta)
}

/// The content hash of a resource, as a string of its own.
fn owned_hash(store: &ResourceIndex, resource: &str) -> (r: Result<String, IconError>)
    ensures
        match r {
            Ok(h) => store_has(store.hashes(), resource@) && h@ == store_hash(
                store.hashes(),
                resource@,
            ),
            Err(e) => !store_has(store.hashes(), resource@) && e.reports(
                Failure::ResourceNotFound(normalize(resource@)),
            ),
        },
{
    match store.hash_of(resource) {
        Ok(h) => Ok(h.to_owned()),
        Err(e) => Err(IconError::Cache(e)),
    }
}

/// The files of a type whose 64 pixel icon is the resource `icon`.
fn icon_jobs_for(icon: &str, info: &TypeInfo, store: &ResourceIndex) -> (r: Result<
    Classified,
    IconError,
>)
    ensures
        classified_as(r, icon_jobs(icon@, *info, store.hashes())),
{
    if !store.has_resource(icon) {
        return Ok(no_jobs(true));
    }
    let hash = match owned_hash(store, icon) {
        Ok(h) => h,
        Err(e) => { return Err(e); },
    };
    let mut jobs: Vec<IconJob> = Vec::new();
    let mut kinds: Vec<IconKind> = Vec::new();
    kinds.push(IconKind::Icon);
    assert(kinds@ =~= seq![IconKind::Icon]);
    match tech_overlay(info) {
        Some(tech) => {
            let tech_hash = match owned_hash(store, tech) {
                Ok(h) => h,
                Err(e) => { return Err(e); },
            };
            let filename = name2(hash.as_str(), tech_hash.as_str(), ".png");
            jobs.push(
                IconJob {
                    kinds,
                    filename,
                    recipe: Recipe::Tech { icon: icon.to_owned(), tech: tech.to_owned() },
                },
            );
        },
        None => {
            let filename = name1(hash.as_str(), ".png");
            jobs.push(
                IconJob { kinds, filename, recipe: Recipe::Copy { resource: icon.to_owned(), jpeg: false } },
            );
        },
    }
    let c = Classified { jobs, missing: false };
    assert(c@.jobs =~= icon_jobs(icon@, *info, store.hashes())->Ok_0.jobs);
    Ok(c)
}

/// One file of a blueprint that has a graphic of its own.
fn graphic_blueprint_job_for(
    tag: &str,
    kinds: Vec<IconKind>,
    resource: &str,
    tech: Option<(&str, &str)>,
    store: &ResourceIndex,
) -> (job: IconJob)
    requires
        store_has(store.hashes(), resource@),
        match tech {
            Some(t) => store_has(store.hashes(), t.0@) && t.1@ == store_hash(store.hashes(), t.0@),
            None => true,
        },
    ensures
        job@ == graphic_blueprint_job(
            tag@,
            kinds@,
            resource@,
            match tech {
                Some(t) => Some(t.0@),
                None => None,
            },
            store.hashes(),
        ),
{
    let hash = match store.hash_of(resource) {
        Ok(h) => h,
        Err(_) => "",
    };
    match tech {
        Some((t, tech_hash)) => IconJob {
            kinds,
            filename: name3(tag, hash, tech_hash, ".png"),
            recipe: Recipe::Tech { icon: resource.to_owned(), tech: t.to_owned() },
        },
        None => IconJob {
            kinds,
            filename: name2(tag, hash, ".png"),
            recipe: Recipe::Copy { resource: resource.to_owned(), jpeg: false },
        },
    }
}

/// The tech-tier overlay of a type with its content hash.
fn tech_with_hash(info: &TypeInfo, store: &ResourceIndex) -> (r: Result<
    Option<(&'static str, String)>,
    IconError,
>)
    ensures
        match r {
            Ok(Some(t)) => tech_of(*info) == Some(t.0@) && store_has(store.hashes(), t.0@) && t.1@
                == store_hash(store.hashes(), t.0@),
            Ok(None) => tech_of(*info) is None,
            Err(e) => tech_of(*info) is Some && !store_has(store.hashes(), tech_of(*info)->0)
                && e.reports(Failure::ResourceNotFound(normalize(tech_of(*info)->0))),
        },
{
    match tech_overlay(info) {
        Some(tech) => match owned_hash(store, tech) {
            Ok(h) => Ok(Some((tech, h))),
            Err(e) => Err(e),
        },
        None => Ok(None),
    }
}

/// The files of a blueprint whose graphic has the resources `bp` and `bpc`.
fn graphic_blueprint_jobs_for(bp: &str, bpc: &str, info: &TypeInfo, store: &ResourceIndex) -> (r:
    Result<Classified, IconError>)
    requires
        store_has(store.hashes(), bp@),
    ensures
        classified_as(r, graphic_blueprint_jobs(bp@, bpc@, *info, store.hashes())),
{
    let tech = match tech_with_hash(info, store) {
        Ok(t) => t,
        Err(e) => { return Err(e); },
    };
    let tech_ref: Option<(&str, &str)> = match &tech {
        Some(t) => Some((t.0, t.1.as_str())),
        None => None,
    };
    let mut jobs: Vec<IconJob> = Vec::new();
    let mut kinds: Vec<IconKind> = Vec::new();
    kinds.push(IconKind::Icon);
    kinds.push(IconKind::Blueprint);
    assert(kinds@ =~= seq![IconKind::Icon, IconKind::Blueprint]);
    jobs.push(graphic_blueprint_job_for("bp", kinds, bp, tech_ref, store));
    if store.has_resource(bpc) {
        let mut copy_kinds: Vec<IconKind> = Vec::new();
        copy_kinds.push(IconKind::BlueprintCopy);
        assert(copy_kinds@ =~= seq![IconKind::BlueprintCopy]);
        jobs.push(graphic_blueprint_job_for("bpc", copy_kinds, bpc, tech_ref, store));
    }
    let c = Classified { jobs, missing: false };
    assert(c@.jobs =~= graphic_blueprint_jobs(bp@, bpc@, *info, store.hashes())->Ok_0.jobs);
    Ok(c)
}

/// One file of a blueprint that is composed from a flat icon.
fn composed_job_for(
    tag: &str,
    kinds: Vec<IconKind>,
    background: &str,
    overlay: &str,
    icon: &str,
    tech: Option<(&str, &str)>,
    store: &ResourceIndex,
) -> (job: IconJob)
    requires
        store_has(store.hashes(), icon@),
        match tech {
            Some(t) => store_has(store.hashes(), t.0@) && t.1@ == store_hash(store.hashes(), t.0@),
            None => true,
        },
    ensures
        job@ == composed_job(
            tag@,
            kinds@,
            background@,
            overlay@,
            icon@,
            match tech {
                Some(t) => Some(t.0@),
                None => None,
            },
            store.hashes(),
        ),
{
    let hash = match store.hash_of(icon) {
        Ok(h) => h,
        Err(_) => "",
    };
    match tech {
        Some((t, tech_hash)) => {
            let filename = name3(tag, hash, tech_hash, ".png");
            assert(filename@ == cache_filename(
                seq![tag@, store_hash(store.hashes(), icon@), tech_part(Some(t@), store.hashes())],
                ".png"@,
            ));
            IconJob {
                kinds,
                filename,
                recipe: Recipe::Blueprint {
                    background: background.to_owned(),
                    overlay: overlay.to_owned(),
                    icon: icon.to_owned(),
                    tier: Some(t.to_owned()),
                },
            }
        },
        None => {
            let empty = String::new();
            let filename = name3(tag, hash, empty.as_str(), ".png");
            assert(filename@ == cache_filename(
                seq![tag@, store_hash(store.hashes(), icon@), tech_part(None, store.hashes())],
                ".png"@,
            ));
            IconJob {
                kinds,
                filename,
                recipe: Recipe::Blueprint {
                    background: background.to_owned(),
                    overlay: overlay.to_owned(),
                    icon: icon.to_owned(),
                    tier: None,
                },
            }
        },
    }
}

/// The files of a blueprint that is composed from the flat icon `icon`.
fn icon_blueprint_jobs_for(icon: &str, category: u32, info: &TypeInfo, store: &ResourceIndex) -> (r:
    Result<Classified, IconError>)
    ensures
        classified_as(r, icon_blueprint_jobs(icon@, category, *info, store.hashes())),
{
    if !store.has_resource(icon) {
        return Ok(no_jobs(true));
    }
    let tech = match tech_with_hash(info, store) {
        Ok(t) => t,
        Err(e) => { return Err(e); },
    };
    let tech_ref: Option<(&str, &str)> = match &tech {
        Some(t) => Some((t.0, t.1.as_str())),
        None => None,
    };
    let mut jobs: Vec<IconJob> = Vec::new();
    let mut kinds: Vec<IconKind> = Vec::new();
    kinds.push(IconKind::Icon);
    if category == CATEGORY_REACTION {
        kinds.push(IconKind::Relic);
        assert(kinds@ =~= seq![IconKind::Icon, IconKind::Relic]);
        jobs.push(
            composed_job_for(
                "relic",
                kinds,
                "res:/ui/texture/icons/relic.png",
                "res:/ui/texture/icons/relic_overlay.png",
                icon,
                tech_ref,
                store,
            ),
        );
    } else if reaction_group(info.group_id) {
        kinds.push(IconKind::Reaction);
        kinds.push(IconKind::Blueprint);
        assert(kinds@ =~= seq![IconKind::Icon, IconKind::Reaction, IconKind::Blueprint]);
        jobs.push(
            composed_job_for(
                "reaction",
                kinds,
                "res:/ui/texture/icons/reaction.png",
                "res:/ui/texture/icons/bpo_overlay.png",
                icon,
                tech_ref,
                store,
            ),
        );
    } else {
        kinds.push(IconKind::Blueprint);
        assert(kinds@ =~= seq![IconKind::Icon, IconKind::Blueprint]);
        jobs.push(
            composed_job_for(
                "bp",
                kinds,
                "res:/ui/texture/icons/bpo.png",
                "res:/ui/texture/icons/bpo_overlay.png",
                icon,
                tech_ref,
                store,
            ),
        );
        let mut copy_kinds: Vec<IconKind> = Vec::new();
        copy_kinds.push(IconKind::BlueprintCopy);
        assert(copy_kinds@ =~= seq![IconKind::BlueprintCopy]);
        jobs.push(
            composed_job_for(
                "bpc",
                copy_kinds,
                "res:/ui/texture/icons/bpc.png",
                "res:/ui/texture/icons/bpc_overlay.png",
                icon,
                tech_ref,
                store,
            ),
        );
    }
    let c = Classified { jobs, missing: false };
    assert(c@.jobs =~= icon_blueprint_jobs(icon@, category, *info, store.hashes())->Ok_0.jobs);
    Ok(c)
}

/// The error of an icon that the icon table does not know.
fn unknown_icon(icon_id: u32) -> (e: IconError)
    ensures
        e.reports(Failure::UnknownIcon(icon_id)),
{
    let mut out: Vec<char> = Vec::new();
    push_str(&mut out, "unknown icon id: ");
    push_decimal(&mut out, icon_id as u64);
    IconError::String(string_of(&out))
}

/// The error of a group that the category table does not know.
fn group_without_category(group_id: u32) -> (e: IconError)
    ensures
        e.reports(Failure::GroupWithoutCategory(group_id)),
{
    let mut out: Vec<char> = Vec::new();
    push_str(&mut out, "group without category: ");
    push_decimal(&mut out, group_id as u64);
    IconError::String(string_of(&out))
}

/// The files of a type of category 9 or 34.
fn blueprint_jobs_for(info: &TypeInfo, category: u32, data: &IconBuildData, store: &ResourceIndex) -> (r:
    Result<Classified, IconError>)
    ensures
        classified_as(r, blueprint_jobs(*info, category, data.tables(), store.hashes())),
{
    if let Some(graphic_id) = info.graphic_id {
        if let Some(folder) = data.graphics_folder(graphic_id) {
            if !flat_icon_group(info.group_id) {
                let bp = graphic_resource_key(folder.as_str(), graphic_id, "_64_bp.png");
                if store.has_resource(bp.as_str()) {
                    let bpc = graphic_resource_key(folder.as_str(), graphic_id, "_64_bpc.png");
                    return graphic_blueprint_jobs_for(bp.as_str(), bpc.as_str(), info, store);
                }
            }
        }
    }
    match info.icon_id {
        Some(icon_id) => match data.icon_file(icon_id) {
            Some(icon) => icon_blueprint_jobs_for(icon.as_str(), category, info, store),
            None => Err(unknown_icon(icon_id)),
        },
        None => Ok(no_jobs(false)),
    }
}

/// The files of a SKIN license.
fn skin_jobs_for(type_id: u32, info: &TypeInfo, data: &IconBuildData, store: &ResourceIndex) -> (r:
    Result<Classified, IconError>)
    ensures
        classified_as(r, skin_jobs(type_id, *info, data.tables(), store.hashes())),
{
    match data.skin_material(type_id) {
        Some(material) => {
            let icon = skin_resource_key(material);
            icon_jobs_for(icon.as_str(), info, store)
        },
        None => Ok(no_jobs(false)),
    }
}

/// The render of a graphic, where the store holds it.
fn render_jobs_for(folder: &str, graphic_id: u32, store: &ResourceIndex) -> (jobs: Vec<IconJob>)
    ensures
        job_views(jobs@) == render_jobs(folder@, graphic_id, store.hashes()),
{
    let render = graphic_resource_key(folder, graphic_id, "_512.jpg");
    let mut jobs: Vec<IconJob> = Vec::new();
    if let Ok(hash) = store.hash_of(render.as_str()) {
        let mut kinds: Vec<IconKind> = Vec::new();
        kinds.push(IconKind::Render);
        let filename = name1(hash, ".jpg");
        jobs.push(IconJob { kinds, filename, recipe: Recipe::Copy { resource: render, jpeg: true } });
    }
    jobs
}

/// The files of `tail` after those of `head`.
fn jobs_after(head: Vec<IconJob>, tail: Result<Classified, IconError>) -> (r: Result<
    Classified,
    IconError,
>)
    ensures
        forall|expected: Result<ClassifiedView, Failure>|
            classified_as(tail, expected) ==> classified_as(
                r,
                #[trigger] after(job_views(head@), expected),
            ),
{
    match tail {
        Ok(c) => {
            let Classified { jobs, missing } = c;
            let mut all = head;
            let mut rest = jobs;
            let ghost first = all@;
            let ghost second = rest@;
            all.append(&mut rest);
            assert(job_views(all@) =~= job_views(first) + job_views(second));
            Ok(Classified { jobs: all, missing })
        },
        Err(e) => Err(e),
    }
}

/// The files of a regular item.
fn regular_jobs_for(info: &TypeInfo, data: &IconBuildData, store: &ResourceIndex) -> (r: Result<
    Classified,
    IconError,
>)
    ensures
        classified_as(r, regular_jobs(*info, data.tables(), store.hashes())),
{
    if let Some(graphic_id) = info.graphic_id {
        if let Some(folder) = data.graphics_folder(graphic_id) {
            let graphic_icon = graphic_resource_key(folder.as_str(), graphic_id, "_64.png");
            if store.has_resource(graphic_icon.as_str()) && !flat_icon_group(info.group_id) {
                let renders = render_jobs_for(folder.as_str(), graphic_id, store);
                return jobs_after(renders, icon_jobs_for(graphic_icon.as_str(), info, store));
            }
            return match info.icon_id {
                None => Ok(no_jobs(false)),
                Some(icon_id) => match data.icon_file(icon_id) {
                    None => Err(unknown_icon(icon_id)),
                    Some(icon) => {
                        let renders = render_jobs_for(folder.as_str(), graphic_id, store);
                        jobs_after(renders, icon_jobs_for(icon.as_str(), info, store))
                    },
                },
            };
        }
    }
    match info.icon_id {
        Some(icon_id) => match data.icon_file(icon_id) {
            Some(icon) => icon_jobs_for(icon.as_str(), info, store),
            None => Err(unknown_icon(icon_id)),
        },
        None => Ok(no_jobs(false)),
    }
}

/// Decides which icon files the type `type_id` has and how each is made.
///
/// Fails where the group of the type has no category, where the icon that
/// the type falls back on has no file, and where the store lacks the
/// tech-tier overlay of the type. A 64 pixel icon that the store lacks costs
/// the type that icon only: `missing` then holds.
pub fn classify_type(type_id: u32, info: &TypeInfo, data: &IconBuildData, store: &ResourceIndex) -> (r:
    Result<Classified, IconError>)
    ensures
        classified_as(r, classify(type_id, *info, data.tables(), store.hashes())),
{
    let category = match data.category_of(info.group_id) {
        Some(c) => c,
        None => { return Err(group_without_category(info.group_id)); },
    };
    if info.icon_id.is_none() && info.graphic_id.is_none() && category != CATEGORY_SKIN {
        Ok(no_jobs(false))
    } else if category == CATEGORY_BLUEPRINT || category == CATEGORY_REACTION {
        blueprint_jobs_for(info, category, data, store)
    } else if category == CATEGORY_SKIN {
        skin_jobs_for(type_id, info, data, store)
    } else {
        regular_jobs_for(info, data, store)
    }
}

} // verus!
