//! The content cache: the file names that the last build left, those that
//! this build needs, and the record that keeps them from build to build.

use vstd::prelude::*;
use vstd::hash_set::StringHashSet;
use vstd::relations::sorted_by;
use crate::order::{lemma_name_order_total, name_order, sort_strings};
use vstd::string::StrSliceExecFns;
use vstd::utf8::{decode_utf8, encode_utf8, valid_utf8};
use crate::icons::recipe::IconError;
use crate::order::lex_le;
use crate::text::{
    entries, join, join_strings, lemma_entries_of_join, split_entries, string_from_utf8, views,
};

verus! {

/// The character that parts the names of a record. No file name holds it.
pub const SEPARATOR: char = '\u{1e}';

/// Whether `q` lists the names of `s`: each once, in ascending order.
pub open spec fn is_listing(q: Seq<Seq<char>>, s: Set<Seq<char>>) -> bool {
    &&& sorted_by(q, name_order())
    &&& q.no_duplicates()
    &&& q.to_set() == s
}

/// The names of `s`, each once, in ascending order.
pub open spec fn listing(s: Set<Seq<char>>) -> Seq<Seq<char>> {
    s.to_sorted_seq(name_order())
}

/// The record of a set of names: its listing, with the separator between
/// each two names.
pub open spec fn record_of(s: Set<Seq<char>>) -> Seq<char> {
    join(listing(s), SEPARATOR)
}

/// The names that a record holds.
pub open spec fn names_of(record: Seq<char>) -> Set<Seq<char>> {
    entries(record, SEPARATOR).to_set()
}

/// A sequence has as many members as the set it was made from.
proof fn lemma_to_seq_len(s: Set<Seq<char>>)
    requires
        s.finite(),
    ensures
        s.to_seq().len() == s.len(),
    decreases s.len(),
{
    broadcast use vstd::set::group_set_axioms;

    if s.len() != 0 {
        let x = s.choose();
        lemma_to_seq_len(s.remove(x));
    }
}

/// Two sequences with the same members, each as often, where one has
/// nothing twice: the other has nothing twice and the same set of members.
pub proof fn lemma_same_members(p: Seq<Seq<char>>, q: Seq<Seq<char>>)
    requires
        p.to_multiset() == q.to_multiset(),
        p.no_duplicates(),
    ensures
        q.no_duplicates(),
        q.to_set() == p.to_set(),
{
    broadcast use vstd::seq_lib::group_to_multiset_ensures;

    p.lemma_multiset_has_no_duplicates();
    q.lemma_multiset_has_no_duplicates_conv();
    assert forall|x: Seq<char>| q.to_set().contains(x) == p.to_set().contains(x) by {
        assert(q.contains(x) <==> q.to_multiset().count(x) > 0);
        assert(p.contains(x) <==> p.to_multiset().count(x) > 0);
    }
    assert(q.to_set() =~= p.to_set());
}

/// A finite set of names has a listing, which `listing` gives.
pub proof fn lemma_listing(s: Set<Seq<char>>)
    requires
        s.finite(),
    ensures
        is_listing(listing(s), s),
{
    lemma_name_order_total();
    let p = s.to_seq();
    s.lemma_to_seq_to_set_id();
    lemma_to_seq_len(s);
    p.lemma_no_dup_set_cardinality();
    p.lemma_sort_by_ensures(name_order());
    lemma_same_members(p, listing(s));
}

/// A set of names has one listing only.
pub proof fn lemma_listing_unique(q: Seq<Seq<char>>, s: Set<Seq<char>>)
    requires
        is_listing(q, s),
    ensures
        s.finite(),
        q == listing(s),
{
    broadcast use vstd::seq_lib::group_to_multiset_ensures;
    broadcast use vstd::seq_lib::seq_to_set_is_finite;

    lemma_name_order_total();
    lemma_listing(s);
    let p = listing(s);
    p.lemma_multiset_has_no_duplicates();
    q.lemma_multiset_has_no_duplicates();
    assert forall|x: Seq<char>| p.to_multiset().count(x) == q.to_multiset().count(x) by {
        assert(p.contains(x) <==> p.to_multiset().count(x) > 0);
        assert(q.contains(x) <==> q.to_multiset().count(x) > 0);
        assert(p.contains(x) == p.to_set().contains(x));
        assert(q.contains(x) == q.to_set().contains(x));
    }
    assert(p.to_multiset() =~= q.to_multiset());
    vstd::seq_lib::lemma_sorted_unique(q, p, name_order());
}

/// The names of `v` as a set.
pub open spec fn name_set(v: Seq<String>) -> Set<Seq<char>> {
    views(v).to_set()
}

/// Pushing a name adds it to the set of names.
proof fn lemma_name_set_push(v: Seq<String>, s: String)
    ensures
        name_set(v.push(s)) == name_set(v).insert(s@),
        views(v.push(s)) == views(v).push(s@),
{
    broadcast use vstd::seq_lib::group_seq_properties;

    assert(views(v.push(s)) =~= views(v).push(s@));
    assert(views(v).push(s@).to_set() =~= views(v).to_set().insert(s@)) by {
        assert forall|x: Seq<char>| views(v).push(s@).contains(x) <==> views(v).contains(x) || x
            == s@ by {
            if views(v).contains(x) {
                let i = choose|i: int| 0 <= i < views(v).len() && views(v)[i] == x;
                assert(views(v).push(s@)[i] == x);
            }
            if x == s@ {
                assert(views(v).push(s@)[views(v).len() as int] == x);
            }
        }
    }
}

/// The names of `names` that `set` does not hold.
fn names_outside(names: &Vec<String>, set: &StringHashSet) -> (out: Vec<String>)
    requires
        views(names@).no_duplicates(),
    ensures
        views(out@).no_duplicates(),
        name_set(out@) == name_set(names@).difference(set@),
        out.len() == name_set(names@).difference(set@).len(),
{
    let mut out: Vec<String> = Vec::new();
    let mut i: usize = 0;
    assert(name_set(out@) =~= name_set(names@.take(0)).difference(set@));
    while i < names.len()
        invariant
            i <= names.len(),
            views(names@).no_duplicates(),
            views(out@).no_duplicates(),
            name_set(out@) == name_set(names@.take(i as int)).difference(set@),
        decreases names.len() - i,
    {
        proof {
            lemma_name_set_push(names@.take(i as int), names@[i as int]);
            assert(names@.take(i + 1) =~= names@.take(i as int).push(names@[i as int]));
        }
        if !set.contains(names[i].as_str()) {
            proof {
                lemma_name_set_push(out@, names@[i as int]);
                let x = names@[i as int]@;
                if views(out@).contains(x) {
                    assert(views(out@).to_set().contains(x));
                    assert(name_set(out@).contains(x));
                    assert(name_set(names@.take(i as int)).contains(x));
                    assert(views(names@.take(i as int)).contains(x));
                    let j = choose|j: int|
                        0 <= j < views(names@.take(i as int)).len() && views(
                            names@.take(i as int),
                        )[j] == x;
                    assert(views(names@)[j] == x && views(names@)[i as int] == x);
                }
                assert(views(out@).push(x).no_duplicates());
            }
            out.push(names[i].clone());
            assert(name_set(out@) =~= name_set(names@.take(i + 1)).difference(set@));
        } else {
            assert(name_set(out@) =~= name_set(names@.take(i + 1)).difference(set@));
        }
        i += 1;
    }
    assert(names@.take(names.len() as int) =~= names@);
    proof {
        views(out@).unique_seq_to_set();
    }
    out
}

/// The content cache of one build: the names that the last build left
/// ("old") and the names that this build has asked for so far ("new").
pub struct ContentCache {
    old_names: Vec<String>,
    old_set: StringHashSet,
    new_names: Vec<String>,
    new_set: StringHashSet,
    force_rebuild: bool,
}

impl ContentCache {
    /// Whether the cache is in order: each name is held once.
    pub closed spec fn wf(&self) -> bool {
        &&& views(self.old_names@).no_duplicates()
        &&& name_set(self.old_names@) == self.old_set@
        &&& views(self.new_names@).no_duplicates()
        &&& name_set(self.new_names@) == self.new_set@
    }

    /// The names that the last build left.
    pub closed spec fn old_names(&self) -> Set<Seq<char>> {
        self.old_set@
    }

    /// The names that this build has asked for so far.
    pub closed spec fn new_names(&self) -> Set<Seq<char>> {
        self.new_set@
    }

    /// Whether every file is built anew, whatever the last build left.
    pub closed spec fn forced(&self) -> bool {
        self.force_rebuild
    }

    /// The cache of a build that follows no other.
    pub fn new(force_rebuild: bool) -> (cache: Self)
        ensures
            cache.wf(),
            cache.old_names() == Set::<Seq<char>>::empty(),
            cache.new_names() == Set::<Seq<char>>::empty(),
            cache.forced() == force_rebuild,
    {
        let cache = ContentCache {
            old_names: Vec::new(),
            old_set: StringHashSet::new(),
            new_names: Vec::new(),
            new_set: StringHashSet::new(),
            force_rebuild,
        };
        assert(name_set(cache.old_names@) =~= Set::empty());
        cache
    }

    /// The cache of a build that follows one which left `record`.
    pub fn load(record: &str, force_rebuild: bool) -> (cache: Self)
        ensures
            cache.wf(),
            cache.old_names() == names_of(record@),
            cache.new_names() == Set::<Seq<char>>::empty(),
            cache.forced() == force_rebuild,
    {
        let all = split_entries(record, SEPARATOR);
        let mut old_names: Vec<String> = Vec::new();
        let mut old_set = StringHashSet::new();
        let mut i: usize = 0;
        assert(name_set(old_names@) =~= Set::empty());
        assert(name_set(all@.take(0)) =~= Set::empty());
        while i < all.len()
            invariant
                i <= all.len(),
                views(old_names@).no_duplicates(),
                name_set(old_names@) == old_set@,
                old_set@ == name_set(all@.take(i as int)),
            decreases all.len() - i,
        {
            proof {
                lemma_name_set_push(all@.take(i as int), all@[i as int]);
                assert(all@.take(i + 1) =~= all@.take(i as int).push(all@[i as int]));
            }
            if !old_set.contains(all[i].as_str()) {
                proof {
                    lemma_name_set_push(old_names@, all@[i as int]);
                }
                old_set.insert(all[i].clone());
                old_names.push(all[i].clone());
            } else {
                assert(old_set@.insert(all@[i as int]@) =~= old_set@);
            }
            i += 1;
        }
        assert(all@.take(all.len() as int) =~= all@);
        let new_names: Vec<String> = Vec::new();
        assert(name_set(new_names@) =~= Set::empty());
        ContentCache { old_names, old_set, new_names, new_set: StringHashSet::new(), force_rebuild }
    }

    /// Registers `filename` as needed by this build, and says whether the
    /// file that the last build left can stay: it can where the last build
    /// left the name and the build is not forced. Where this returns false
    /// the caller has to make the file.
    pub fn is_up_to_date(&mut self, filename: &str) -> (fresh: bool)
        requires
            old(self).wf(),
        ensures
            final(self).wf(),
            final(self).new_names() == old(self).new_names().insert(filename@),
            final(self).old_names() == old(self).old_names(),
            final(self).forced() == old(self).forced(),
            fresh == (old(self).old_names().contains(filename@) && !old(self).forced()),
    {
        if !self.new_set.contains(filename) {
            let name = filename.to_owned();
            proof {
                lemma_name_set_push(self.new_names@, name);
            }
            self.new_set.insert(filename.to_owned());
            self.new_names.push(name);
        } else {
        }
        self.old_set.contains(filename) && !self.force_rebuild
    }

    /// The cache of a build that follows one which left the bytes `bytes`.
    /// Bytes that are no text are a corrupt record.
    pub fn load_bytes(bytes: &[u8], force_rebuild: bool) -> (r: Result<Self, IconError>)
        ensures
            match r {
                Ok(cache) => {
                    &&& valid_utf8(bytes@)
                    &&& cache.wf()
                    &&& cache.old_names() == names_of(decode_utf8(bytes@))
                    &&& cache.new_names() == Set::<Seq<char>>::empty()
                    &&& cache.forced() == force_rebuild
                },
                Err(IconError::CorruptIndex) => !valid_utf8(bytes@),
                Err(_) => false,
            },
    {
        match string_from_utf8(bytes) {
            Some(record) => Ok(Self::load(record.as_str(), force_rebuild)),
            None => Err(IconError::CorruptIndex),
        }
    }

    /// The names that this build has asked for, each once, in ascending
    /// order.
    pub fn sorted_names(&self) -> (names: Vec<String>)
        requires
            self.wf(),
        ensures
            views(names@) == listing(self.new_names()),
            is_listing(views(names@), self.new_names()),
    {
        let names = sort_strings(&self.new_names);
        proof {
            lemma_same_members(views(self.new_names@), views(names@));
            lemma_listing_unique(views(names@), self.new_names());
        }
        names
    }

    /// The record that this build leaves: the names it has asked for, in
    /// ascending order, with the separator between each two.
    pub fn record(&self) -> (s: String)
        requires
            self.wf(),
        ensures
            s@ == record_of(self.new_names()),
    {
        let names = self.sorted_names();
        join_strings(&names, SEPARATOR)
    }

    /// The bytes of the record that this build leaves.
    pub fn record_bytes(&self) -> (bytes: Vec<u8>)
        requires
            self.wf(),
        ensures
            bytes@ == encode_utf8(record_of(self.new_names())),
    {
        let record = self.record();
        record.as_str().as_bytes_vec()
    }

    /// The names that this build has asked for and the last build did not
    /// leave.
    pub fn added(&self) -> (names: Vec<String>)
        requires
            self.wf(),
        ensures
            views(names@).no_duplicates(),
            name_set(names@) == self.new_names().difference(self.old_names()),
            names.len() == self.new_names().difference(self.old_names()).len(),
    {
        names_outside(&self.new_names, &self.old_set)
    }

    /// The names that the last build left and this build has not asked for:
    /// the files to delete once the build is through.
    pub fn removed(&self) -> (names: Vec<String>)
        requires
            self.wf(),
        ensures
            views(names@).no_duplicates(),
            name_set(names@) == self.old_names().difference(self.new_names()),
            names.len() == self.old_names().difference(self.new_names()).len(),
    {
        names_outside(&self.old_names, &self.new_set)
    }

    /// Whether the build has asked for `filename`.
    pub fn needs(&self, filename: &str) -> (b: bool)
        ensures
            b == self.new_names().contains(filename@),
    {
        self.new_set.contains(filename)
    }

    /// Whether the last build left `filename`.
    pub fn had(&self, filename: &str) -> (b: bool)
        ensures
            b == self.old_names().contains(filename@),
    {
        self.old_set.contains(filename)
    }
}

/// Whether a set of names comes back from its record: no name holds the
/// separator, and the set is not the empty name alone.
pub open spec fn storable(s: Set<Seq<char>>) -> bool {
    &&& s.finite()
    &&& forall|n: Seq<char>| s.contains(n) ==> !n.contains(SEPARATOR)
    &&& s != set![Seq::<char>::empty()]
}

/// Round trip: the record of a set of names, written as bytes and read back,
/// holds the names of the set and no others.
pub proof fn lemma_record_round_trip(s: Set<Seq<char>>)
    requires
        storable(s),
    ensures
        names_of(record_of(s)) == s,
        valid_utf8(encode_utf8(record_of(s))),
        names_of(decode_utf8(encode_utf8(record_of(s)))) == s,
{
    let q = listing(s);
    lemma_listing(s);
    assert forall|i: int| 0 <= i < q.len() implies !(#[trigger] q[i]).contains(SEPARATOR) by {
        assert(q.contains(q[i]));
        assert(q.to_set().contains(q[i]));
    }
    if q.len() > 0 && q.last().len() == 0 {
        assert(q.last() =~= Seq::<char>::empty());
        if q.len() == 1 {
            assert(q.to_set() =~= set![q[0]]) by {
                assert forall|x: Seq<char>| q.to_set().contains(x) <==> x == q[0] by {
                    if q.contains(x) {
                        let i = choose|i: int| 0 <= i < q.len() && q[i] == x;
                    }
                    assert(q.contains(q[0]));
                }
            }
            assert(false);
        } else {
            assert(name_order()(q[0], q[q.len() - 1]));
            assert(lex_le(q[0], q.last()));
            assert(q[0] =~= q.last());
            assert(false);
        }
    }
    lemma_entries_of_join(q, SEPARATOR);
    vstd::utf8::encode_utf8_valid_utf8(record_of(s));
    vstd::utf8::encode_utf8_decode_utf8(record_of(s));
}

} // verus!
