//! The service metadata: for each item type, the cache file of each icon
//! kind that the type has.

use vstd::prelude::*;
use std::collections::HashMap;
use crate::icons::kind::IconKind;

verus! {

/// The service metadata as plain values.
pub struct MetadataView {
    /// The types that have a file, each once, in the order in which they got
    /// their first.
    pub order: Seq<u32>,
    /// For each of those types, the cache file of each of its kinds.
    pub files: Map<u32, Map<IconKind, Seq<char>>>,
}

/// Metadata without types.
pub open spec fn no_metadata() -> MetadataView {
    MetadataView { order: Seq::empty(), files: Map::empty() }
}

/// The files of a type, none where the metadata does not hold the type.
pub open spec fn files_of(m: MetadataView, type_id: u32) -> Map<IconKind, Seq<char>> {
    if m.files.contains_key(type_id) {
        m.files[type_id]
    } else {
        Map::empty()
    }
}

/// The metadata after `filename` became the file of `kind` for `type_id`.
pub open spec fn put(m: MetadataView, type_id: u32, kind: IconKind, filename: Seq<char>) -> MetadataView {
    MetadataView {
        order: if m.files.contains_key(type_id) {
            m.order
        } else {
            m.order.push(type_id)
        },
        files: m.files.insert(type_id, files_of(m, type_id).insert(kind, filename)),
    }
}

/// The metadata after `filename` became the file of each of `kinds` for
/// `type_id`.
pub open spec fn put_all(m: MetadataView, type_id: u32, kinds: Seq<IconKind>, filename: Seq<char>) -> MetadataView
    decreases kinds.len(),
{
    if kinds.len() == 0 {
        m
    } else {
        put(put_all(m, type_id, kinds.drop_last(), filename), type_id, kinds.last(), filename)
    }
}

/// Whether metadata is in order: it lists each type once, and has files for
/// the types it lists and for no others.
pub open spec fn in_order(m: MetadataView) -> bool {
    &&& m.order.no_duplicates()
    &&& forall|t: u32| m.files.contains_key(t) <==> m.order.contains(t)
}

/// Metadata stays in order when a file is put into it.
pub proof fn lemma_put_in_order(m: MetadataView, type_id: u32, kind: IconKind, filename: Seq<char>)
    requires
        in_order(m),
    ensures
        in_order(put(m, type_id, kind, filename)),
{
    let after = put(m, type_id, kind, filename);
    if m.files.contains_key(type_id) {
    } else {
        assert forall|i: int, j: int|
            0 <= i < after.order.len() && 0 <= j < after.order.len() && i != j implies after.order[i]
            != after.order[j] by {
            if i < m.order.len() {
                assert(m.order.contains(after.order[i]));
            }
            if j < m.order.len() {
                assert(m.order.contains(after.order[j]));
            }
        }
        assert forall|t: u32| after.files.contains_key(t) <==> after.order.contains(t) by {
            if m.order.contains(t) {
                let i = choose|i: int| 0 <= i < m.order.len() && m.order[i] == t;
                assert(after.order[i] == t);
            }
            if t == type_id {
                assert(after.order[m.order.len() as int] == t);
            }
        }
    }
}

/// Metadata stays in order when a file is put into it for several kinds.
pub proof fn lemma_put_all_in_order(
    m: MetadataView,
    type_id: u32,
    kinds: Seq<IconKind>,
    filename: Seq<char>,
)
    requires
        in_order(m),
    ensures
        in_order(put_all(m, type_id, kinds, filename)),
    decreases kinds.len(),
{
    if kinds.len() > 0 {
        lemma_put_all_in_order(m, type_id, kinds.drop_last(), filename);
        lemma_put_in_order(
            put_all(m, type_id, kinds.drop_last(), filename),
            type_id,
            kinds.last(),
            filename,
        );
    }
}

/// For each item type, the cache file of each icon kind that the type has.
pub struct ServiceMetadata {
    order: Vec<u32>,
    positions: HashMap<u32, usize>,
    files: Vec<Option<String>>,
}

impl ServiceMetadata {
    /// The file of kind number `k` of the type at place `p`.
    spec fn slot(&self, p: int, k: int) -> Option<String> {
        self.files@[6 * p + k]
    }

    /// The files of the type at place `p`.
    spec fn files_at(&self, p: int) -> Map<IconKind, Seq<char>> {
        Map::new(
            |kind: IconKind| self.slot(p, kind.spec_ordinal() as int) is Some,
            |kind: IconKind| self.slot(p, kind.spec_ordinal() as int)->0@,
        )
    }

    /// Whether the metadata is in order: each type has one place.
    pub closed spec fn wf(&self) -> bool {
        &&& self.files.len() == 6 * self.order.len()
        &&& self.order@.no_duplicates()
        &&& forall|t: u32| self.positions@.contains_key(t) <==> self.order@.contains(t)
        &&& forall|t: u32| #[trigger]
            self.positions@.contains_key(t) ==> self.positions@[t] < self.order.len()
                && self.order@[self.positions@[t] as int] == t
    }

    pub closed spec fn view(&self) -> MetadataView {
        MetadataView {
            order: self.order@,
            files: Map::new(
                |t: u32| self.positions@.contains_key(t),
                |t: u32| self.files_at(self.positions@[t] as int),
            ),
        }
    }

    /// Metadata that is in order as a value has a view that is in order.
    pub proof fn lemma_view_in_order(&self)
        requires
            self.wf(),
        ensures
            in_order(self.view()),
    {
    }

    /// Metadata without types.
    pub fn new() -> (m: Self)
        ensures
            m.wf(),
            m.view() == no_metadata(),
    {
        let m = ServiceMetadata { order: Vec::new(), positions: HashMap::new(), files: Vec::new() };
        assert(m.view().files =~= Map::empty());
        m
    }

    /// Makes `filename` the file of `kind` for `type_id`.
    pub fn put(&mut self, type_id: u32, kind: IconKind, filename: String)
        requires
            old(self).wf(),
        ensures
            final(self).wf(),
            final(self).view() == put(old(self).view(), type_id, kind, filename@),
    {
        broadcast use vstd::std_specs::hash::group_hash_axioms;

        let found: Option<usize> = match self.positions.get(&type_id) {
            Some(p) => Some(*p),
            None => None,
        };
        let place: usize = match found {
            Some(p) => p,
            None => {
                let p = self.order.len();
                self.order.push(type_id);
                self.positions.insert(type_id, p);
                let mut k: usize = 0;
                while k < 6
                    invariant
                        k <= 6,
                        self.files.len() == 6 * p + k,
                        self.files@.take(6 * p) == old(self).files@,
                        forall|j: int| 6 * p <= j < 6 * p + k ==> self.files@[j] is None,
                        self.order@ == old(self).order@.push(type_id),
                        self.positions@ == old(self).positions@.insert(type_id, p),
                    decreases 6 - k,
                {
                    self.files.push(None);
                    assert(self.files@.take(6 * p) =~= old(self).files@);
                    k += 1;
                }
                p
            },
        };
        let ghost mid = *self;
        proof {
            if found is None {
                assert forall|t: u32| mid.positions@.contains_key(t) <==> mid.order@.contains(t) by {
                    if old(self).order@.contains(t) {
                        let i = choose|i: int| 0 <= i < old(self).order@.len() && old(self).order@[i] == t;
                        assert(mid.order@[i] == t);
                    }
                    if t == type_id {
                        assert(mid.order@[place as int] == t);
                    }
                }
                assert(!old(self).order@.contains(type_id));
                assert(mid.order@.no_duplicates()) by {
                    assert forall|i: int, j: int|
                        0 <= i < mid.order@.len() && 0 <= j < mid.order@.len() && i != j implies mid.order@[i]
                        != mid.order@[j] by {
                        if i < place && j < place {
                        } else if i < place {
                            assert(old(self).order@.contains(mid.order@[i]));
                        } else if j < place {
                            assert(old(self).order@.contains(mid.order@[j]));
                        }
                    }
                }
                assert forall|t: u32| #[trigger] mid.positions@.contains_key(t) implies mid.positions@[t]
                    < mid.order.len() && mid.order@[mid.positions@[t] as int] == t by {
                    if t != type_id {
                        assert(old(self).positions@.contains_key(t));
                    }
                }
                assert(mid.files.len() == 6 * mid.order.len());
                assert(mid.wf());
            }
        }
        let slot = 6 * place + kind.ordinal();
        self.files.set(slot, Some(filename));
        proof {
            let before = old(self).view();
            let after = self.view();
            let expected = put(before, type_id, kind, filename@);
            assert(after.order =~= expected.order);
            assert forall|t: u32| after.files.contains_key(t) implies #[trigger] after.files[t]
                =~= expected.files[t] by {
                let p = self.positions@[t] as int;
                assert forall|kd: IconKind| #[trigger]
                    after.files[t].contains_key(kd) == expected.files[t].contains_key(kd) && (
                    after.files[t].contains_key(kd) ==> after.files[t][kd] == expected.files[t][kd]) by {
                    let j = 6 * p + kd.spec_ordinal() as int;
                    if t != type_id {
                        assert(p != place);
                        assert(j != slot);
                        assert(old(self).files@[j] == self.files@[j]);
                    } else if kd != kind {
                        assert(j != slot);
                    }
                }
            }
            assert(after.files =~= expected.files);
        }
    }

    /// The number of types that have a file.
    pub fn type_count(&self) -> (n: usize)
        ensures
            n == self.view().order.len(),
    {
        self.order.len()
    }

    /// The type at place `i` of the order.
    pub fn type_at(&self, i: usize) -> (t: u32)
        requires
            self.wf(),
            i < self.view().order.len(),
        ensures
            t == self.view().order[i as int],
            self.view().files.contains_key(t),
    {
        let t = self.order[i];
        assert(self.order@.contains(t));
        t
    }

    /// The file of `kind` for `type_id`.
    pub fn get(&self, type_id: u32, kind: IconKind) -> (f: Option<&String>)
        requires
            self.wf(),
        ensures
            match f {
                Some(s) => files_of(self.view(), type_id).contains_key(kind) && s@ == files_of(
                    self.view(),
                    type_id,
                )[kind],
                None => !files_of(self.view(), type_id).contains_key(kind),
            },
    {
        broadcast use vstd::std_specs::hash::group_hash_axioms;

        match self.positions.get(&type_id) {
            Some(p) => {
                let slot = 6 * *p + kind.ordinal();
                match &self.files[slot] {
                    Some(s) => Some(s),
                    None => None,
                }
            },
            None => None,
        }
    }
}

} // verus!
