//! What holds of every build: laws of classification, of the content cache
//! and of consecutive builds.

use vstd::prelude::*;
use crate::icons::classify::{
    classify, graphic_resource, nothing, store_has, tech_of, ClassifiedView,
};
use crate::icons::data::{
    is_flat_icon_group, IconTables, TypeInfo, CATEGORY_BLUEPRINT, CATEGORY_SKIN,
};
use crate::icons::export::{apply_job, apply_jobs, build, BuildView};
use crate::icons::kind::IconKind;
use crate::icons::metadata::{in_order, lemma_put_all_in_order};
use crate::icons::web::web_plan;
use crate::icons::web_laws::lemma_web_idempotent;
use crate::icons::recipe::{cache_filename, Failure, JobView};

verus! {

/// The kinds that classification found for a type.
pub open spec fn kinds_found(found: ClassifiedView) -> Set<IconKind> {
    Set::new(
        |k: IconKind|
            exists|j: int| 0 <= j < found.jobs.len() && (#[trigger] found.jobs[j]).kinds.contains(k),
    )
}

/// Content addressing: two files that are made of the same parts in the
/// same order have one name, whichever types ask for them, and a build that
/// has asked for one of them holds no further name after it asked for the
/// other.
pub proof fn lemma_content_addressing(
    st: BuildView,
    first_type: u32,
    second_type: u32,
    first: JobView,
    second: JobView,
    parts: Seq<Seq<char>>,
    ext: Seq<char>,
    old_names: Set<Seq<char>>,
    forced: bool,
)
    requires
        first.filename == cache_filename(parts, ext),
        second.filename == cache_filename(parts, ext),
    ensures
        first.filename == second.filename,
        apply_job(
            apply_job(st, first_type, first, old_names, forced),
            second_type,
            second,
            old_names,
            forced,
        ).names == apply_job(st, first_type, first, old_names, forced).names,
{
    assert(st.names.insert(first.filename).insert(second.filename) =~= st.names.insert(
        first.filename,
    ));
}

/// Classification coverage: a blueprint whose graphic has its blueprint
/// resource in the store has the kinds Icon and Blueprint, and with them the
/// kind BlueprintCopy exactly where the store holds the copy resource too.
/// This is so for every group that keeps the icon of its graphic and every
/// type whose tech-tier overlay, if it has one, is in the store.
pub proof fn lemma_blueprint_coverage(
    type_id: u32,
    info: TypeInfo,
    t: IconTables,
    store: Map<Seq<char>, Seq<char>>,
)
    requires
        t.categories.contains_key(info.group_id),
        t.categories[info.group_id] == CATEGORY_BLUEPRINT,
        info.graphic_id is Some,
        t.folders.contains_key(info.graphic_id->0),
        store_has(
            store,
            graphic_resource(t.folders[info.graphic_id->0], info.graphic_id->0, "_64_bp.png"@),
        ),
        !is_flat_icon_group(info.group_id),
        tech_of(info) is Some ==> store_has(store, tech_of(info)->0),
    ensures
        classify(type_id, info, t, store) is Ok,
        kinds_found(classify(type_id, info, t, store)->Ok_0) == if store_has(
            store,
            graphic_resource(t.folders[info.graphic_id->0], info.graphic_id->0, "_64_bpc.png"@),
        ) {
            set![IconKind::Icon, IconKind::Blueprint, IconKind::BlueprintCopy]
        } else {
            set![IconKind::Icon, IconKind::Blueprint]
        },
{
    let found = classify(type_id, info, t, store)->Ok_0;
    let with_copy = store_has(
        store,
        graphic_resource(t.folders[info.graphic_id->0], info.graphic_id->0, "_64_bpc.png"@),
    );
    let expected = if with_copy {
        set![IconKind::Icon, IconKind::Blueprint, IconKind::BlueprintCopy]
    } else {
        set![IconKind::Icon, IconKind::Blueprint]
    };
    assert(found.jobs[0].kinds =~= seq![IconKind::Icon, IconKind::Blueprint]);
    assert(found.jobs[0].kinds[0] == IconKind::Icon);
    assert(found.jobs[0].kinds[1] == IconKind::Blueprint);
    if with_copy {
        assert(found.jobs[1].kinds =~= seq![IconKind::BlueprintCopy]);
        assert(found.jobs[1].kinds[0] == IconKind::BlueprintCopy);
    }
    assert forall|k: IconKind| kinds_found(found).contains(k) == expected.contains(k) by {
        if kinds_found(found).contains(k) {
            let j = choose|j: int| 0 <= j < found.jobs.len() && (#[trigger] found.jobs[j]).kinds.contains(k);
            let i = choose|i: int| 0 <= i < found.jobs[j].kinds.len() && found.jobs[j].kinds[i] == k;
        }
        if expected.contains(k) {
            if k == IconKind::Icon || k == IconKind::Blueprint {
                assert(found.jobs[0].kinds.contains(k));
            } else {
                assert(found.jobs[1].kinds.contains(k));
            }
        }
    }
    assert(kinds_found(found) =~= expected);
}

/// SKIN fallback: a type of the SKIN category that has no skin material
/// has no icon file, and its classification does not fail.
pub proof fn lemma_skin_fallback(
    type_id: u32,
    info: TypeInfo,
    t: IconTables,
    store: Map<Seq<char>, Seq<char>>,
)
    requires
        t.categories.contains_key(info.group_id),
        t.categories[info.group_id] == CATEGORY_SKIN,
        !t.skin_materials.contains_key(type_id),
    ensures
        classify(type_id, info, t, store) == Ok::<ClassifiedView, Failure>(nothing()),
        kinds_found(nothing()) == Set::<IconKind>::empty(),
{
}

/// What a build asks for, and what it finds for each type, does not depend
/// on what the last build left; and where the last build left every name
/// that the build asks for, and the build is not forced, no file is made.
proof fn lemma_jobs_stable(
    st1: BuildView,
    st2: BuildView,
    type_id: u32,
    jobs: Seq<JobView>,
    old1: Set<Seq<char>>,
    forced1: bool,
    old2: Set<Seq<char>>,
)
    requires
        st2.names == st1.names,
        st2.metadata == st1.metadata,
        st2.missing == st1.missing,
        st2.stale.len() == 0,
        forall|j: int| 0 <= j < jobs.len() ==> old2.contains((#[trigger] jobs[j]).filename),
    ensures
        apply_jobs(st2, type_id, jobs, old2, false).names == apply_jobs(
            st1,
            type_id,
            jobs,
            old1,
            forced1,
        ).names,
        apply_jobs(st2, type_id, jobs, old2, false).metadata == apply_jobs(
            st1,
            type_id,
            jobs,
            old1,
            forced1,
        ).metadata,
        apply_jobs(st2, type_id, jobs, old2, false).missing == apply_jobs(
            st1,
            type_id,
            jobs,
            old1,
            forced1,
        ).missing,
        apply_jobs(st2, type_id, jobs, old2, false).stale.len() == 0,
    decreases jobs.len(),
{
    if jobs.len() > 0 {
        lemma_jobs_stable(st1, st2, type_id, jobs.drop_last(), old1, forced1, old2);
    }
}

/// The names that a state holds stay when files are taken into it, and the
/// name of each of the files is among them afterwards.
proof fn lemma_jobs_names(
    st: BuildView,
    type_id: u32,
    jobs: Seq<JobView>,
    old_names: Set<Seq<char>>,
    forced: bool,
)
    ensures
        st.names.subset_of(apply_jobs(st, type_id, jobs, old_names, forced).names),
        forall|j: int|
            0 <= j < jobs.len() ==> apply_jobs(st, type_id, jobs, old_names, forced).names.contains(
                (#[trigger] jobs[j]).filename,
            ),
    decreases jobs.len(),
{
    if jobs.len() > 0 {
        lemma_jobs_names(st, type_id, jobs.drop_last(), old_names, forced);
        assert forall|j: int| 0 <= j < jobs.len() implies apply_jobs(
            st,
            type_id,
            jobs,
            old_names,
            forced,
        ).names.contains((#[trigger] jobs[j]).filename) by {
            if j < jobs.len() - 1 {
                assert(jobs.drop_last()[j] == jobs[j]);
            }
        }
    }
}

/// A build that goes on keeps the names it has asked for.
proof fn lemma_build_names_grow(
    types: Seq<(u32, TypeInfo)>,
    n: int,
    t: IconTables,
    store: Map<Seq<char>, Seq<char>>,
    old_names: Set<Seq<char>>,
    forced: bool,
)
    requires
        0 <= n <= types.len(),
        build(types, t, store, old_names, forced) is Ok,
    ensures
        build(types.take(n), t, store, old_names, forced) is Ok,
        build(types.take(n), t, store, old_names, forced)->Ok_0.names.subset_of(
            build(types, t, store, old_names, forced)->Ok_0.names,
        ),
    decreases types.len(),
{
    if n == types.len() {
        assert(types.take(n) =~= types);
    } else {
        assert(types.drop_last().take(n) =~= types.take(n));
        lemma_build_names_grow(types.drop_last(), n, t, store, old_names, forced);
        let before = build(types.drop_last(), t, store, old_names, forced)->Ok_0;
        let found = classify(types.last().0, types.last().1, t, store)->Ok_0;
        lemma_jobs_names(before, types.last().0, found.jobs, old_names, forced);
    }
}

/// A build after a build: where the last build left every name that the
/// build asks for, and the build is not forced, it finds what the other
/// found and makes no file.
proof fn lemma_build_stable(
    types: Seq<(u32, TypeInfo)>,
    t: IconTables,
    store: Map<Seq<char>, Seq<char>>,
    old1: Set<Seq<char>>,
    forced1: bool,
    old2: Set<Seq<char>>,
)
    requires
        build(types, t, store, old1, forced1) is Ok,
        build(types, t, store, old1, forced1)->Ok_0.names.subset_of(old2),
    ensures
        build(types, t, store, old2, false) is Ok,
        build(types, t, store, old2, false)->Ok_0.names == build(
            types,
            t,
            store,
            old1,
            forced1,
        )->Ok_0.names,
        build(types, t, store, old2, false)->Ok_0.metadata == build(
            types,
            t,
            store,
            old1,
            forced1,
        )->Ok_0.metadata,
        build(types, t, store, old2, false)->Ok_0.missing == build(
            types,
            t,
            store,
            old1,
            forced1,
        )->Ok_0.missing,
        build(types, t, store, old2, false)->Ok_0.stale.len() == 0,
    decreases types.len(),
{
    if types.len() > 0 {
        let rest = types.drop_last();
        lemma_build_names_grow(types, types.len() - 1, t, store, old1, forced1);
        lemma_build_stable(rest, t, store, old1, forced1, old2);
        let st1 = build(rest, t, store, old1, forced1)->Ok_0;
        let st2 = build(rest, t, store, old2, false)->Ok_0;
        let found = classify(types.last().0, types.last().1, t, store)->Ok_0;
        lemma_jobs_names(st1, types.last().0, found.jobs, old1, forced1);
        lemma_jobs_stable(st1, st2, types.last().0, found.jobs, old1, forced1, old2);
    }
}

/// Idempotence: a build that follows a build of the same types, tables and
/// resources, and is not forced, finds the same names and the same files for
/// each type, makes no file, and neither adds a name to those that the
/// first build left nor removes one.
pub proof fn lemma_idempotent(
    types: Seq<(u32, TypeInfo)>,
    t: IconTables,
    store: Map<Seq<char>, Seq<char>>,
    old_names: Set<Seq<char>>,
    forced: bool,
)
    requires
        build(types, t, store, old_names, forced) is Ok,
    ensures
        ({
            let first = build(types, t, store, old_names, forced)->Ok_0;
            let second = build(types, t, store, first.names, false);
            &&& second is Ok
            &&& second->Ok_0.stale.len() == 0
            &&& second->Ok_0.names == first.names
            &&& second->Ok_0.metadata == first.metadata
            &&& second->Ok_0.names.difference(first.names) == Set::<Seq<char>>::empty()
            &&& first.names.difference(second->Ok_0.names) == Set::<Seq<char>>::empty()
        }),
{
    let first = build(types, t, store, old_names, forced)->Ok_0;
    lemma_build_stable(types, t, store, old_names, forced, first.names);
}

/// The metadata stays in order when files are taken into a build.
proof fn lemma_jobs_in_order(
    st: BuildView,
    type_id: u32,
    jobs: Seq<JobView>,
    old_names: Set<Seq<char>>,
    forced: bool,
)
    requires
        in_order(st.metadata),
    ensures
        in_order(apply_jobs(st, type_id, jobs, old_names, forced).metadata),
    decreases jobs.len(),
{
    if jobs.len() > 0 {
        lemma_jobs_in_order(st, type_id, jobs.drop_last(), old_names, forced);
        lemma_put_all_in_order(
            apply_jobs(st, type_id, jobs.drop_last(), old_names, forced).metadata,
            type_id,
            jobs.last().kinds,
            jobs.last().filename,
        );
    }
}

/// The metadata of a build lists each type once.
pub proof fn lemma_build_in_order(
    types: Seq<(u32, TypeInfo)>,
    t: IconTables,
    store: Map<Seq<char>, Seq<char>>,
    old_names: Set<Seq<char>>,
    forced: bool,
)
    requires
        build(types, t, store, old_names, forced) is Ok,
    ensures
        in_order(build(types, t, store, old_names, forced)->Ok_0.metadata),
    decreases types.len(),
{
    if types.len() > 0 {
        lemma_build_in_order(types.drop_last(), t, store, old_names, forced);
        let before = build(types.drop_last(), t, store, old_names, forced)->Ok_0;
        let found = classify(types.last().0, types.last().1, t, store)->Ok_0;
        lemma_jobs_in_order(before, types.last().0, found.jobs, old_names, forced);
    }
}

/// Idempotence of publishing: where a build follows a build of the same
/// types, tables and resources and is not forced, and the web directory
/// holds what the run after the first build left, the run after the second
/// build writes no manifest, makes no link and deletes no file.
pub proof fn lemma_idempotent_web(
    types: Seq<(u32, TypeInfo)>,
    t: IconTables,
    store: Map<Seq<char>, Seq<char>>,
    old_names: Set<Seq<char>>,
    forced: bool,
    old_links: Seq<crate::icons::web::WebFileView>,
    web_forced: bool,
)
    requires
        build(types, t, store, old_names, forced) is Ok,
    ensures
        ({
            let first = build(types, t, store, old_names, forced)->Ok_0;
            let second = build(types, t, store, first.names, false)->Ok_0;
            let first_run = web_plan(first.metadata, old_links, web_forced);
            let second_run = web_plan(second.metadata, first_run.created, false);
            &&& second_run.due.len() == 0
            &&& second_run.removals.len() == 0
            &&& second_run.created == first_run.created
        }),
{
    let first = build(types, t, store, old_names, forced)->Ok_0;
    lemma_idempotent(types, t, store, old_names, forced);
    lemma_build_in_order(types, t, store, old_names, forced);
    lemma_web_idempotent(first.metadata, old_links, web_forced);
}

} // verus!
