//! Lists of item types, given by types, groups and categories to include
//! and to exclude.

use vstd::prelude::*;
use crate::types::ids::{CategoryID, GroupID, TypeID};

verus! {

/// A list of item types: what is included by type, group or category, and
/// not excluded by type, group or category.
#[derive(Debug, Copy, Clone, Eq, PartialEq)]
pub struct TypeList<'a> {
    pub included_types: &'a [TypeID],
    pub excluded_types: &'a [TypeID],
    pub included_groups: &'a [GroupID],
    pub excluded_groups: &'a [GroupID],
    pub included_categories: &'a [CategoryID],
    pub excluded_categories: &'a [CategoryID],
}

/// Whether `list` holds `id`.
pub fn holds(list: &[u32], id: u32) -> (b: bool)
    ensures
        b == list@.contains(id),
{
    let mut i: usize = 0;
    while i < list.len()
        invariant
            i <= list.len(),
            forall|j: int| 0 <= j < i ==> list@[j] != id,
        decreases list.len() - i,
    {
        if list[i] == id {
            return true;
        }
        i += 1;
    }
    false
}

/// Those of the first `n` of `list` that `excluded` does not hold.
pub open spec fn kept(list: Seq<u32>, excluded: Seq<u32>, n: nat) -> Seq<u32>
    decreases n,
{
    if n == 0 {
        Seq::empty()
    } else if excluded.contains(list[n - 1]) {
        kept(list, excluded, (n - 1) as nat)
    } else {
        kept(list, excluded, (n - 1) as nat).push(list[n - 1])
    }
}

/// Whether the lookup `f` answers a type with its group and category as
/// `types` gives them.
pub open spec fn answers_types<FT: Fn(TypeID) -> (GroupID, CategoryID)>(
    f: FT,
    types: spec_fn(TypeID) -> (GroupID, CategoryID),
) -> bool {
    forall|t: TypeID, r: (GroupID, CategoryID)| #[trigger] f.ensures((t,), r) ==> r == types(t)
}

/// Whether the lookup `f` answers a group with its category and its types
/// as `groups` gives them.
pub open spec fn answers_groups<'b, FG: Fn(GroupID) -> (CategoryID, &'b [TypeID])>(
    f: FG,
    groups: spec_fn(GroupID) -> (CategoryID, Seq<TypeID>),
) -> bool {
    forall|g: GroupID, r: (CategoryID, &'b [TypeID])| #[trigger]
        f.ensures((g,), r) ==> (r.0, r.1@) == groups(g)
}

/// Whether the lookup `f` answers a category with its groups as
/// `categories` gives them.
pub open spec fn answers_categories<'b, FC: Fn(CategoryID) -> &'b [GroupID]>(
    f: FC,
    categories: spec_fn(CategoryID) -> Seq<GroupID>,
) -> bool {
    forall|c: CategoryID, r: &'b [GroupID]| #[trigger] f.ensures((c,), r) ==> r@ == categories(c)
}

impl<'a> TypeList<'a> {
    /// The types that the first `n` included types give: each that is not
    /// excluded, by itself, by its group or by its category.
    pub open spec fn types_part(&self, types: spec_fn(TypeID) -> (GroupID, CategoryID), n: nat) -> Seq<
        TypeID,
    >
        decreases n,
    {
        if n == 0 {
            Seq::empty()
        } else {
            let before = self.types_part(types, (n - 1) as nat);
            let t = self.included_types@[n - 1];
            if !self.excluded_types@.contains(t) && !self.excluded_groups@.contains(types(t).0)
                && !self.excluded_categories@.contains(types(t).1) {
                before.push(t)
            } else {
                before
            }
        }
    }

    /// The types that the first `n` of the groups `list` give: for each
    /// group that is not excluded, its types that are not excluded. Where
    /// `by_category` holds the category of the group must not be excluded
    /// either.
    pub open spec fn groups_part(
        &self,
        list: Seq<GroupID>,
        by_category: bool,
        groups: spec_fn(GroupID) -> (CategoryID, Seq<TypeID>),
        n: nat,
    ) -> Seq<TypeID>
        decreases n,
    {
        if n == 0 {
            Seq::empty()
        } else {
            let before = self.groups_part(list, by_category, groups, (n - 1) as nat);
            let g = list[n - 1];
            if !self.excluded_groups@.contains(g) && (by_category
                ==> !self.excluded_categories@.contains(groups(g).0)) {
                before + kept(groups(g).1, self.excluded_types@, groups(g).1.len())
            } else {
                before
            }
        }
    }

    /// The types that the first `n` included categories give: for each
    /// category that is not excluded, the types of its groups.
    pub open spec fn categories_part(
        &self,
        groups: spec_fn(GroupID) -> (CategoryID, Seq<TypeID>),
        categories: spec_fn(CategoryID) -> Seq<GroupID>,
        n: nat,
    ) -> Seq<TypeID>
        decreases n,
    {
        if n == 0 {
            Seq::empty()
        } else {
            let before = self.categories_part(groups, categories, (n - 1) as nat);
            let c = self.included_categories@[n - 1];
            if !self.excluded_categories@.contains(c) {
                before + self.groups_part(categories(c), false, groups, categories(c).len())
            } else {
                before
            }
        }
    }

    /// The types of the list, written out: the included types, then the
    /// types of the included groups, then those of the groups of the
    /// included categories, without what is excluded.
    pub open spec fn spec_flatten(
        &self,
        types: spec_fn(TypeID) -> (GroupID, CategoryID),
        groups: spec_fn(GroupID) -> (CategoryID, Seq<TypeID>),
        categories: spec_fn(CategoryID) -> Seq<GroupID>,
    ) -> Seq<TypeID> {
        self.types_part(types, self.included_types@.len()) + self.groups_part(
            self.included_groups@,
            true,
            groups,
            self.included_groups@.len(),
        ) + self.categories_part(groups, categories, self.included_categories@.len())
    }

    /// Whether the list includes the type `type_id` of the group `group_id`
    /// and the category `category_id`.
    pub open spec fn spec_includes_type(
        &self,
        type_id: TypeID,
        group_id: GroupID,
        category_id: CategoryID,
    ) -> bool {
        &&& self.included_types@.contains(type_id) || self.included_groups@.contains(group_id)
            || self.included_categories@.contains(category_id)
        &&& !(self.excluded_types@.contains(type_id) || self.excluded_groups@.contains(group_id)
            || self.excluded_categories@.contains(category_id))
    }

    /// The list that includes nothing.
    pub fn empty() -> (list: Self)
        ensures
            list.included_types@.len() == 0,
            list.excluded_types@.len() == 0,
            list.included_groups@.len() == 0,
            list.excluded_groups@.len() == 0,
            list.included_categories@.len() == 0,
            list.excluded_categories@.len() == 0,
            forall|t: TypeID, g: GroupID, c: CategoryID| !list.spec_includes_type(t, g, c),
    {
        let list = TypeList {
            included_types: &[],
            excluded_types: &[],
            included_groups: &[],
            excluded_groups: &[],
            included_categories: &[],
            excluded_categories: &[],
        };
        list
    }

    /// Whether the list includes the type: it is included by type, group or
    /// category and excluded by none of them.
    pub fn includes_type(&self, type_id: TypeID, group_id: GroupID, category_id: CategoryID) -> (b:
        bool)
        ensures
            b == self.spec_includes_type(type_id, group_id, category_id),
    {
        (holds(self.included_types, type_id) || holds(self.included_groups, group_id) || holds(
            self.included_categories,
            category_id,
        )) && !(holds(self.excluded_types, type_id) || holds(self.excluded_groups, group_id)
            || holds(self.excluded_categories, category_id))
    }

    /// Whether the list includes the type, where `f` gives the group and the
    /// category of a type.
    pub fn includes<F: FnOnce(TypeID) -> (GroupID, CategoryID)>(&self, type_id: TypeID, f: F) -> (b:
        bool)
        requires
            f.requires((type_id,)),
        ensures
            exists|g: GroupID, c: CategoryID|
                f.ensures((type_id,), (g, c)) && b == self.spec_includes_type(type_id, g, c),
    {
        let (group_id, category_id) = f(type_id);
        self.includes_type(type_id, group_id, category_id)
    }

    /// Appends the types of `types` that are not excluded.
    fn push_kept(&self, buf: &mut Vec<TypeID>, types: &[TypeID])
        ensures
            final(buf)@ == old(buf)@ + kept(types@, self.excluded_types@, types@.len()),
    {
        let ghost start = buf@;
        let mut i: usize = 0;
        while i < types.len()
            invariant
                i <= types.len(),
                buf@ == start + kept(types@, self.excluded_types@, i as nat),
            decreases types.len() - i,
        {
            if !holds(self.excluded_types, types[i]) {
                buf.push(types[i]);
            }
            i += 1;
        }
    }

    /// Writes the list out: the included types, then the types of the
    /// included groups, then those of the groups of the included
    /// categories, each time without what is excluded by type, group or
    /// category. `type_info` gives the group and the category of a type,
    /// `group_info` the category and the types of a group, `category_info`
    /// the groups of a category.
    pub fn flatten<
        'b,
        FT: Fn(TypeID) -> (GroupID, CategoryID),
        FG: Fn(GroupID) -> (CategoryID, &'b [TypeID]),
        FC: Fn(CategoryID) -> &'b [GroupID],
    >(&'b self, type_info: FT, group_info: FG, category_info: FC) -> (buf: Vec<TypeID>)
        requires
            forall|t: TypeID| type_info.requires((t,)),
            forall|g: GroupID| group_info.requires((g,)),
            forall|c: CategoryID| category_info.requires((c,)),
        ensures
            forall|
                types: spec_fn(TypeID) -> (GroupID, CategoryID),
                groups: spec_fn(GroupID) -> (CategoryID, Seq<TypeID>),
                categories: spec_fn(CategoryID) -> Seq<GroupID>,
            |
                answers_types(type_info, types) && answers_groups(group_info, groups)
                    && answers_categories(category_info, categories) ==> buf@
                    == #[trigger] self.spec_flatten(types, groups, categories),
    {
        let mut buf: Vec<TypeID> = Vec::new();
        let mut i: usize = 0;
        while i < self.included_types.len()
            invariant
                i <= self.included_types.len(),
                forall|t: TypeID| type_info.requires((t,)),
                forall|types: spec_fn(TypeID) -> (GroupID, CategoryID)|
                    answers_types(type_info, types) ==> buf@ == #[trigger] self.types_part(
                        types,
                        i as nat,
                    ),
            decreases self.included_types.len() - i,
        {
            let type_id = self.included_types[i];
            let ghost before = buf@;
            let ghost mut asked: Option<(GroupID, CategoryID)> = None;
            if !holds(self.excluded_types, type_id) {
                let (group, category) = type_info(type_id);
                proof {
                    asked = Some((group, category));
                }
                if !(holds(self.excluded_groups, group) || holds(self.excluded_categories, category)) {
                    buf.push(type_id);
                }
            }
            assert forall|types: spec_fn(TypeID) -> (GroupID, CategoryID)|
                answers_types(type_info, types) implies buf@ == #[trigger] self.types_part(
                types,
                (i + 1) as nat,
            ) by {
                assert(before == self.types_part(types, i as nat));
                if asked is Some {
                    assert(type_info.ensures((type_id,), asked->0));
                    assert(asked->0 == types(type_id));
                }
                assert(buf@ =~= self.types_part(types, (i + 1) as nat));
            }
            i += 1;
            assert forall|types: spec_fn(TypeID) -> (GroupID, CategoryID)|
                answers_types(type_info, types) implies buf@ == #[trigger] self.types_part(
                types,
                i as nat,
            ) by {
                assert(buf@ == self.types_part(types, ((i - 1) + 1) as nat));
            }
        }
        let ghost first = buf@;
        let mut g: usize = 0;
        assert forall|groups: spec_fn(GroupID) -> (CategoryID, Seq<TypeID>)|
            answers_groups(group_info, groups) implies buf@ == first + #[trigger] self.groups_part(
            self.included_groups@,
            true,
            groups,
            0,
        ) by {
            assert(buf@ =~= first + self.groups_part(self.included_groups@, true, groups, 0));
        }
        while g < self.included_groups.len()
            invariant
                g <= self.included_groups.len(),
                forall|x: GroupID| group_info.requires((x,)),
                forall|groups: spec_fn(GroupID) -> (CategoryID, Seq<TypeID>)|
                    answers_groups(group_info, groups) ==> buf@ == first + #[trigger] self.groups_part(
                        self.included_groups@,
                        true,
                        groups,
                        g as nat,
                    ),
            decreases self.included_groups.len() - g,
        {
            let group = self.included_groups[g];
            let ghost before = buf@;
            let ghost mut asked: Option<(CategoryID, &'b [TypeID])> = None;
            if !holds(self.excluded_groups, group) {
                let (category, types) = group_info(group);
                proof {
                    asked = Some((category, types));
                }
                if !holds(self.excluded_categories, category) {
                    self.push_kept(&mut buf, types);
                }
            }
            assert forall|groups: spec_fn(GroupID) -> (CategoryID, Seq<TypeID>)|
                answers_groups(group_info, groups) implies buf@ == first + #[trigger] self.groups_part(
                self.included_groups@,
                true,
                groups,
                (g + 1) as nat,
            ) by {
                assert(before == first + self.groups_part(
                    self.included_groups@,
                    true,
                    groups,
                    g as nat,
                ));
                if asked is Some {
                    assert(group_info.ensures((group,), asked->0));
                    let answer = asked->0;
                    assert((answer.0, answer.1@) == groups(group));
                }
                assert(buf@ =~= first + self.groups_part(
                    self.included_groups@,
                    true,
                    groups,
                    (g + 1) as nat,
                ));
            }
            g += 1;
            assert forall|groups: spec_fn(GroupID) -> (CategoryID, Seq<TypeID>)|
                answers_groups(group_info, groups) implies buf@ == first + #[trigger] self.groups_part(
                self.included_groups@,
                true,
                groups,
                g as nat,
            ) by {
                assert(buf@ == first + self.groups_part(
                    self.included_groups@,
                    true,
                    groups,
                    ((g - 1) + 1) as nat,
                ));
            }
        }
        let ghost second = buf@;
        let mut c: usize = 0;
        assert forall|
            groups: spec_fn(GroupID) -> (CategoryID, Seq<TypeID>),
            categories: spec_fn(CategoryID) -> Seq<GroupID>,
        |
            answers_groups(group_info, groups) && answers_categories(
                category_info,
                categories,
            ) implies buf@ == second + #[trigger] self.categories_part(groups, categories, 0) by {
            assert(buf@ =~= second + self.categories_part(groups, categories, 0));
        }
        while c < self.included_categories.len()
            invariant
                c <= self.included_categories.len(),
                forall|x: GroupID| group_info.requires((x,)),
                forall|x: CategoryID| category_info.requires((x,)),
                forall|
                    groups: spec_fn(GroupID) -> (CategoryID, Seq<TypeID>),
                    categories: spec_fn(CategoryID) -> Seq<GroupID>,
                |
                    answers_groups(group_info, groups) && answers_categories(
                        category_info,
                        categories,
                    ) ==> buf@ == second + #[trigger] self.categories_part(
                        groups,
                        categories,
                        c as nat,
                    ),
            decreases self.included_categories.len() - c,
        {
            let category = self.included_categories[c];
            let ghost before = buf@;
            let ghost mut listed: Option<&'b [GroupID]> = None;
            if !holds(self.excluded_categories, category) {
                let list = category_info(category);
                proof {
                    listed = Some(list);
                }
                let mut k: usize = 0;
                assert forall|groups: spec_fn(GroupID) -> (CategoryID, Seq<TypeID>)|
                    answers_groups(group_info, groups) implies buf@ == before
                    + #[trigger] self.groups_part(list@, false, groups, 0) by {
                    assert(buf@ =~= before + self.groups_part(list@, false, groups, 0));
                }
                while k < list.len()
                    invariant
                        k <= list.len(),
                        forall|x: GroupID| group_info.requires((x,)),
                        forall|groups: spec_fn(GroupID) -> (CategoryID, Seq<TypeID>)|
                            answers_groups(group_info, groups) ==> buf@ == before
                                + #[trigger] self.groups_part(list@, false, groups, k as nat),
                    decreases list.len() - k,
                {
                    let group = list[k];
                    let ghost so_far = buf@;
                    let ghost mut asked: Option<(CategoryID, &'b [TypeID])> = None;
                    if !holds(self.excluded_groups, group) {
                        let answer = group_info(group);
                        proof {
                            asked = Some(answer);
                        }
                        self.push_kept(&mut buf, answer.1);
                    }
                    assert forall|groups: spec_fn(GroupID) -> (CategoryID, Seq<TypeID>)|
                        answers_groups(group_info, groups) implies buf@ == before
                        + #[trigger] self.groups_part(list@, false, groups, (k + 1) as nat) by {
                        assert(so_far == before + self.groups_part(list@, false, groups, k as nat));
                        if asked is Some {
                            assert(group_info.ensures((group,), asked->0));
                            let answer = asked->0;
                    assert((answer.0, answer.1@) == groups(group));
                        }
                        assert(buf@ =~= before + self.groups_part(
                            list@,
                            false,
                            groups,
                            (k + 1) as nat,
                        ));
                    }
                    k += 1;
                    assert forall|groups: spec_fn(GroupID) -> (CategoryID, Seq<TypeID>)|
                        answers_groups(group_info, groups) implies buf@ == before
                        + #[trigger] self.groups_part(list@, false, groups, k as nat) by {
                        assert(buf@ == before + self.groups_part(
                            list@,
                            false,
                            groups,
                            ((k - 1) + 1) as nat,
                        ));
                    }
                }
            }
            assert forall|
                groups: spec_fn(GroupID) -> (CategoryID, Seq<TypeID>),
                categories: spec_fn(CategoryID) -> Seq<GroupID>,
            |
                answers_groups(group_info, groups) && answers_categories(
                    category_info,
                    categories,
                ) implies buf@ == second + #[trigger] self.categories_part(
                groups,
                categories,
                (c + 1) as nat,
            ) by {
                assert(before == second + self.categories_part(groups, categories, c as nat));
                if listed is Some {
                    assert(category_info.ensures((category,), listed->0));
                    assert(listed->0@ == categories(category));
                    assert(buf@ == before + self.groups_part(
                        listed->0@,
                        false,
                        groups,
                        listed->0@.len(),
                    ));
                }
                assert(buf@ =~= second + self.categories_part(groups, categories, (c + 1) as nat));
            }
            c += 1;
            assert forall|
                groups: spec_fn(GroupID) -> (CategoryID, Seq<TypeID>),
                categories: spec_fn(CategoryID) -> Seq<GroupID>,
            |
                answers_groups(group_info, groups) && answers_categories(
                    category_info,
                    categories,
                ) implies buf@ == second + #[trigger] self.categories_part(
                groups,
                categories,
                c as nat,
            ) by {
                assert(buf@ == second + self.categories_part(
                    groups,
                    categories,
                    ((c - 1) + 1) as nat,
                ));
            }
        }
        assert forall|
            types: spec_fn(TypeID) -> (GroupID, CategoryID),
            groups: spec_fn(GroupID) -> (CategoryID, Seq<TypeID>),
            categories: spec_fn(CategoryID) -> Seq<GroupID>,
        |
            answers_types(type_info, types) && answers_groups(group_info, groups)
                && answers_categories(category_info, categories) implies buf@
            == #[trigger] self.spec_flatten(types, groups, categories) by {
            assert(first == self.types_part(types, self.included_types@.len()));
            assert(second == first + self.groups_part(
                self.included_groups@,
                true,
                groups,
                self.included_groups@.len(),
            ));
            assert(buf@ == second + self.categories_part(
                groups,
                categories,
                self.included_categories@.len(),
            ));
        }
        buf
    }
}

} // verus!
