//! The build: every item type classified in turn, the names of its icon
//! files registered in the content cache, and the files that have to be made.

use vstd::prelude::*;
use vstd::utf8::{decode_utf8, valid_utf8};
use crate::cache::ResourceIndex;
use crate::icons::classify::{classify, classify_type, ClassifiedView};
use crate::icons::data::{IconBuildData, IconTables, TypeInfo};
use crate::icons::index::{names_of, ContentCache};
use crate::icons::metadata::{no_metadata, put, put_all, MetadataView, ServiceMetadata};
use crate::icons::recipe::{job_views, Failure, IconError, IconJob, JobView};

verus! {

/// The state of a build as plain values.
pub struct BuildView {
    /// The file of each kind of each type.
    pub metadata: MetadataView,
    /// The names that the build has asked for.
    pub names: Set<Seq<char>>,
    /// The files to make, in the order in which they were found stale.
    pub stale: Seq<JobView>,
    /// The types whose icon resource the store lacks.
    pub missing: Seq<u32>,
}

/// The state of a build that has visited no type.
pub open spec fn start() -> BuildView {
    BuildView { metadata: no_metadata(), names: Set::empty(), stale: Seq::empty(), missing: Seq::empty() }
}

/// Whether the file `filename` of the last build can stay.
pub open spec fn is_fresh(filename: Seq<char>, old_names: Set<Seq<char>>, forced: bool) -> bool {
    old_names.contains(filename) && !forced
}

/// The state after one file of `type_id`: its name is asked for, it serves
/// each of its kinds, and it is to be made unless it is fresh.
pub open spec fn apply_job(
    st: BuildView,
    type_id: u32,
    job: JobView,
    old_names: Set<Seq<char>>,
    forced: bool,
) -> BuildView {
    BuildView {
        metadata: put_all(st.metadata, type_id, job.kinds, job.filename),
        names: st.names.insert(job.filename),
        stale: if is_fresh(job.filename, old_names, forced) {
            st.stale
        } else {
            st.stale.push(job)
        },
        missing: st.missing,
    }
}

/// The state after the files `jobs` of `type_id`, taken in order.
pub open spec fn apply_jobs(
    st: BuildView,
    type_id: u32,
    jobs: Seq<JobView>,
    old_names: Set<Seq<char>>,
    forced: bool,
) -> BuildView
    decreases jobs.len(),
{
    if jobs.len() == 0 {
        st
    } else {
        apply_job(
            apply_jobs(st, type_id, jobs.drop_last(), old_names, forced),
            type_id,
            jobs.last(),
            old_names,
            forced,
        )
    }
}

/// The state after the type `type_id` with what classification found for it.
pub open spec fn apply_type(
    st: BuildView,
    type_id: u32,
    found: ClassifiedView,
    old_names: Set<Seq<char>>,
    forced: bool,
) -> BuildView {
    let after = apply_jobs(st, type_id, found.jobs, old_names, forced);
    BuildView {
        missing: if found.missing {
            after.missing.push(type_id)
        } else {
            after.missing
        },
        ..after
    }
}

/// The build of the types `types`, visited in order: the state after the
/// last of them, or the failure of the first type that fails.
pub open spec fn build(
    types: Seq<(u32, TypeInfo)>,
    t: IconTables,
    store: Map<Seq<char>, Seq<char>>,
    old_names: Set<Seq<char>>,
    forced: bool,
) -> Result<BuildView, Failure>
    decreases types.len(),
{
    if types.len() == 0 {
        Ok(start())
    } else {
        match build(types.drop_last(), t, store, old_names, forced) {
            Err(f) => Err(f),
            Ok(st) => match classify(types.last().0, types.last().1, t, store) {
                Err(f) => Err(f),
                Ok(found) => Ok(apply_type(st, types.last().0, found, old_names, forced)),
            },
        }
    }
}

/// What a build hands on: the metadata, the content cache with the names of
/// this build, the files to make and the types to report.
pub struct IconBuild {
    /// The file of each kind of each type.
    pub metadata: ServiceMetadata,
    /// The names that the last build left and those that this build needs.
    pub cache: ContentCache,
    /// The files to make.
    pub stale: Vec<IconJob>,
    /// The types whose icon resource the store lacks.
    pub missing: Vec<u32>,
}

impl IconBuild {
    /// Whether the parts of the build are in order.
    pub open spec fn wf(&self) -> bool {
        self.metadata.wf() && self.cache.wf()
    }

    pub open spec fn view(&self) -> BuildView {
        BuildView {
            metadata: self.metadata.view(),
            names: self.cache.new_names(),
            stale: job_views(self.stale@),
            missing: self.missing@,
        }
    }

    /// Takes one file of `type_id` into the build.
    fn take_job(&mut self, type_id: u32, job: IconJob)
        requires
            old(self).wf(),
        ensures
            final(self).wf(),
            final(self).cache.old_names() == old(self).cache.old_names(),
            final(self).cache.forced() == old(self).cache.forced(),
            final(self).view() == apply_job(
                old(self).view(),
                type_id,
                job@,
                old(self).cache.old_names(),
                old(self).cache.forced(),
            ),
    {
        let mut k: usize = 0;
        while k < job.kinds.len()
            invariant
                k <= job.kinds.len(),
                self.wf(),
                self.cache == old(self).cache,
                self.stale == old(self).stale,
                self.missing == old(self).missing,
                self.metadata.view() == put_all(
                    old(self).metadata.view(),
                    type_id,
                    job.kinds@.take(k as int),
                    job.filename@,
                ),
            decreases job.kinds.len() - k,
        {
            self.metadata.put(type_id, job.kinds[k], job.filename.clone());
            assert(job.kinds@.take(k + 1).drop_last() =~= job.kinds@.take(k as int));
            k += 1;
        }
        assert(job.kinds@.take(job.kinds.len() as int) =~= job.kinds@);
        let fresh = self.cache.is_up_to_date(job.filename.as_str());
        if !fresh {
            let ghost before = self.stale@;
            self.stale.push(job);
            assert(job_views(self.stale@) =~= job_views(before).push(job@));
        }
    }
}

/// Runs the build: classifies every type of `data` in turn against the
/// resources of `store`, registers the name of each icon file with the
/// content cache that `old_record` opens, and collects the files that have
/// to be made.
///
/// Fails where `old_record` is no text, and with the failure of the first
/// type whose classification fails.
pub fn build_icon_export(
    data: &IconBuildData,
    store: &ResourceIndex,
    old_record: &[u8],
    force_rebuild: bool,
) -> (r: Result<IconBuild, IconError>)
    ensures
        match r {
            Ok(b) => {
                &&& valid_utf8(old_record@)
                &&& b.wf()
                &&& b.cache.old_names() == names_of(decode_utf8(old_record@))
                &&& b.cache.forced() == force_rebuild
                &&& build(
                    data.types(),
                    data.tables(),
                    store.hashes(),
                    names_of(decode_utf8(old_record@)),
                    force_rebuild,
                ) == Ok::<BuildView, Failure>(b.view())
            },
            Err(e) => if !valid_utf8(old_record@) {
                e is CorruptIndex
            } else {
                match build(
                    data.types(),
                    data.tables(),
                    store.hashes(),
                    names_of(decode_utf8(old_record@)),
                    force_rebuild,
                ) {
                    Ok(_) => false,
                    Err(f) => e.reports(f),
                }
            },
        },
{
    let cache = match ContentCache::load_bytes(old_record, force_rebuild) {
        Ok(c) => c,
        Err(e) => { return Err(e); },
    };
    let ghost old_names = cache.old_names();
    let mut b = IconBuild { metadata: ServiceMetadata::new(), cache, stale: Vec::new(), missing: Vec::new() };
    assert(b.view().stale =~= Seq::empty());
    let n = data.type_count();
    let mut i: usize = 0;
    assert(data.types().take(0) =~= Seq::empty());
    while i < n
        invariant
            i <= n == data.types().len(),
            valid_utf8(old_record@),
            old_names == names_of(decode_utf8(old_record@)),
            b.wf(),
            b.cache.old_names() == old_names,
            b.cache.forced() == force_rebuild,
            build(data.types().take(i as int), data.tables(), store.hashes(), old_names, force_rebuild)
                == Ok::<BuildView, Failure>(b.view()),
        decreases n - i,
    {
        let (type_id, info) = data.type_at(i);
        let ghost prefix = data.types().take(i + 1);
        assert(prefix.drop_last() =~= data.types().take(i as int));
        assert(prefix.last() == data.types()[i as int]);
        let found = match classify_type(type_id, &info, data, store) {
            Ok(c) => c,
            Err(e) => {
                proof {
                    lemma_build_fails_on(
                        data.types(),
                        i as int,
                        data.tables(),
                        store.hashes(),
                        old_names,
                        force_rebuild,
                    );
                }
                return Err(e);
            },
        };
        let ghost st0 = b.view();
        let ghost jobs = found@.jobs;
        let missing = found.missing;
        for job in it: found.jobs
            invariant
                b.wf(),
                b.cache.old_names() == old_names,
                b.cache.forced() == force_rebuild,
                job_views(it.seq()) == jobs,
                b.view() == apply_jobs(
                    st0,
                    type_id,
                    jobs.take(it.index() as int),
                    old_names,
                    force_rebuild,
                ),
        {
            assert(jobs.take(it.index() + 1).drop_last() =~= jobs.take(it.index() as int));
            assert(jobs.take(it.index() + 1).last() == job@);
            b.take_job(type_id, job);
        }
        assert(jobs.take(jobs.len() as int) =~= jobs);
        if missing {
            b.missing.push(type_id);
        }
        i += 1;
    }
    assert(data.types().take(n as int) =~= data.types());
    Ok(b)
}

/// A build fails with the failure of the first type that fails.
proof fn lemma_build_fails_on(
    types: Seq<(u32, TypeInfo)>,
    i: int,
    t: IconTables,
    store: Map<Seq<char>, Seq<char>>,
    old_names: Set<Seq<char>>,
    forced: bool,
)
    requires
        0 <= i < types.len(),
        build(types.take(i), t, store, old_names, forced) is Ok,
        classify(types[i].0, types[i].1, t, store) is Err,
    ensures
        build(types, t, store, old_names, forced) == Err::<BuildView, Failure>(
            classify(types[i].0, types[i].1, t, store)->Err_0,
        ),
    decreases types.len(),
{
    if i == types.len() - 1 {
        assert(types.drop_last() =~= types.take(i));
    } else {
        assert(types.drop_last().take(i) =~= types.take(i));
        lemma_build_fails_on(types.drop_last(), i, t, store, old_names, forced);
    }
}

} // verus!
