//! What holds of every run of the web publisher: no two files of the
//! directory share a name, a run after a run changes nothing, and the files
//! of a type that is gone are deleted.

use vstd::prelude::*;
use crate::icons::kind::IconKind;
use crate::icons::metadata::{in_order, MetadataView};
use crate::icons::web::{
    changed, created, created_upto, due_upto, file_names, link_map, link_name, link_suffix,
    manifest_name, manifests_of, stale_upto, type_files, web_plan, WebFileView,
};
use crate::text::{decimal_digits, digit_char};

verus! {

/// Whether a character is a decimal digit.
pub open spec fn is_digit(c: char) -> bool {
    '0' <= c <= '9'
}

/// A decimal numeral has at least one character, and digits only.
pub proof fn lemma_decimal_is_digits(n: nat)
    ensures
        decimal_digits(n).len() >= 1,
        forall|i: int| 0 <= i < decimal_digits(n).len() ==> is_digit(#[trigger] decimal_digits(n)[i]),
    decreases n,
{
    if n >= 10 {
        lemma_decimal_is_digits(n / 10);
    }
}

/// Different numbers have different decimal numerals.
pub proof fn lemma_decimal_injective(a: nat, b: nat)
    requires
        decimal_digits(a) == decimal_digits(b),
    ensures
        a == b,
    decreases a,
{
    lemma_decimal_is_digits(a / 10);
    lemma_decimal_is_digits(b / 10);
    if a < 10 && b < 10 {
        assert(decimal_digits(a)[0] == decimal_digits(b)[0]);
        assert(digit_char(a) as u32 == 48 + a);
        assert(digit_char(b) as u32 == 48 + b);
        assert(decimal_digits(a)[0] == digit_char(a));
        assert(decimal_digits(b)[0] == digit_char(b));
        assert(a == b);
    } else if a >= 10 && b >= 10 {
        let x = decimal_digits(a);
        let y = decimal_digits(b);
        assert(x.last() == y.last());
        assert(digit_char(a % 10) as u32 == 48 + a % 10);
        assert(digit_char(b % 10) as u32 == 48 + b % 10);
        assert(x.drop_last() =~= decimal_digits(a / 10));
        assert(y.drop_last() =~= decimal_digits(b / 10));
        lemma_decimal_injective(a / 10, b / 10);
        assert(x.last() == digit_char(a % 10));
        assert(y.last() == digit_char(b % 10));
        assert(a % 10 == b % 10);
        assert(a == b);
    } else if a < 10 {
        assert(decimal_digits(a).len() == 1);
        assert(decimal_digits(b).len() == decimal_digits(b / 10).len() + 1);
    } else {
        assert(decimal_digits(b).len() == 1);
        assert(decimal_digits(a).len() == decimal_digits(a / 10).len() + 1);
    }
}

/// Whether `s` is what follows the number in the name of a file of the
/// web directory: it has a first character, which is no digit.
pub open spec fn is_suffix(s: Seq<char>) -> bool {
    s.len() > 0 && !is_digit(s[0])
}

/// A numeral before a suffix can be read back: two such names are one only
/// where the numbers are one and the suffixes are one.
pub proof fn lemma_numbered_names(a: nat, s: Seq<char>, b: nat, r: Seq<char>)
    requires
        is_suffix(s),
        is_suffix(r),
        decimal_digits(a) + s == decimal_digits(b) + r,
    ensures
        a == b,
        s == r,
{
    let x = decimal_digits(a);
    let y = decimal_digits(b);
    let whole = x + s;
    lemma_decimal_is_digits(a);
    lemma_decimal_is_digits(b);
    if x.len() < y.len() {
        assert(whole[x.len() as int] == s[0]);
        assert((y + r)[x.len() as int] == y[x.len() as int]);
        assert(false);
    }
    if y.len() < x.len() {
        assert((y + r)[y.len() as int] == r[0]);
        assert(whole[y.len() as int] == x[y.len() as int]);
        assert(false);
    }
    assert(x =~= whole.take(x.len() as int));
    assert(y =~= (y + r).take(y.len() as int));
    assert(s =~= whole.skip(x.len() as int));
    assert(r =~= (y + r).skip(y.len() as int));
    lemma_decimal_injective(a, b);
}

/// What follows the number in the name of a manifest.
pub open spec fn manifest_suffix() -> Seq<char> {
    ".json"@
}

/// The suffixes of the files of the web directory: each is a suffix, that of
/// the manifest differs from those of the links, and two kinds have
/// different suffixes.
pub proof fn lemma_suffixes()
    ensures
        is_suffix(manifest_suffix()),
        forall|k: IconKind| is_suffix(#[trigger] link_suffix(k)),
        forall|k: IconKind| #[trigger] link_suffix(k) != manifest_suffix(),
        forall|j: IconKind, k: IconKind| #[trigger] link_suffix(j) == #[trigger] link_suffix(k) ==> j == k,
{
    reveal_strlit(".json");
    reveal_strlit("_icon.png");
    reveal_strlit("_bp.png");
    reveal_strlit("_bpc.png");
    reveal_strlit("_reaction.png");
    reveal_strlit("_relic.png");
    reveal_strlit("_render.jpg");
    assert forall|k: IconKind| is_suffix(#[trigger] link_suffix(k)) by {
        assert(link_suffix(k).len() >= 7);
        assert(link_suffix(k)[0] == '_');
    }
    assert forall|k: IconKind| #[trigger] link_suffix(k) != manifest_suffix() by {
        assert(link_suffix(k).len() >= 7);
    }
    assert forall|j: IconKind, k: IconKind| #[trigger]
        link_suffix(j) == #[trigger] link_suffix(k) implies j == k by {
        assert(link_suffix(j).len() == link_suffix(k).len());
    }
}

/// Whether the file `f` is a file of the type `type_id`: its manifest with
/// the text `manifest`, or the link of one of its kinds.
pub open spec fn file_of_type(
    f: WebFileView,
    type_id: u32,
    files: Map<IconKind, Seq<char>>,
    manifest: Seq<char>,
) -> bool {
    ||| f == (WebFileView { name: manifest_name(type_id), content: manifest, link: false })
    ||| exists|k: IconKind|
        files.contains_key(k) && f == (WebFileView {
            name: #[trigger] link_name(type_id, k),
            content: files[k],
            link: true,
        })
}

/// Two files of the web directory with one name: they are files of one
/// type, and where the manifests of that type are one text, they are one
/// file.
pub proof fn lemma_names_tell_files(
    f: WebFileView,
    a: u32,
    files_a: Map<IconKind, Seq<char>>,
    manifest_a: Seq<char>,
    g: WebFileView,
    b: u32,
    files_b: Map<IconKind, Seq<char>>,
    manifest_b: Seq<char>,
)
    requires
        file_of_type(f, a, files_a, manifest_a),
        file_of_type(g, b, files_b, manifest_b),
        f.name == g.name,
    ensures
        a == b,
        files_a == files_b && manifest_a == manifest_b ==> f == g,
{
    lemma_suffixes();
    let f_manifest = f == (WebFileView { name: manifest_name(a), content: manifest_a, link: false });
    let g_manifest = g == (WebFileView { name: manifest_name(b), content: manifest_b, link: false });
    if f_manifest {
        if g_manifest {
            lemma_numbered_names(a as nat, manifest_suffix(), b as nat, manifest_suffix());
        } else {
            let k = choose|k: IconKind|
                files_b.contains_key(k) && g == (WebFileView {
                    name: #[trigger] link_name(b, k),
                    content: files_b[k],
                    link: true,
                });
            lemma_numbered_names(a as nat, manifest_suffix(), b as nat, link_suffix(k));
        }
    } else {
        let j = choose|j: IconKind|
            files_a.contains_key(j) && f == (WebFileView {
                name: #[trigger] link_name(a, j),
                content: files_a[j],
                link: true,
            });
        if g_manifest {
            lemma_numbered_names(a as nat, link_suffix(j), b as nat, manifest_suffix());
        } else {
            let k = choose|k: IconKind|
                files_b.contains_key(k) && g == (WebFileView {
                    name: #[trigger] link_name(b, k),
                    content: files_b[k],
                    link: true,
                });
            lemma_numbered_names(a as nat, link_suffix(j), b as nat, link_suffix(k));
        }
    }
}

/// The files that `type_files` lists are the files of the type: the
/// manifest, and the links of the kinds among the first `n`.
pub proof fn lemma_type_files(type_id: u32, files: Map<IconKind, Seq<char>>, manifest: Seq<char>, n: nat)
    requires
        n <= 6,
    ensures
        forall|i: int|
            0 <= i < type_files(type_id, files, manifest, n).len() ==> file_of_type(
                #[trigger] type_files(type_id, files, manifest, n)[i],
                type_id,
                files,
                manifest,
            ),
        type_files(type_id, files, manifest, n).contains(
            WebFileView { name: manifest_name(type_id), content: manifest, link: false },
        ),
        forall|k: IconKind|
            files.contains_key(k) && k.spec_ordinal() < n ==> type_files(
                type_id,
                files,
                manifest,
                n,
            ).contains(
                WebFileView { name: #[trigger] link_name(type_id, k), content: files[k], link: true },
            ),
    decreases n,
{
    let all = type_files(type_id, files, manifest, n);
    let first = WebFileView { name: manifest_name(type_id), content: manifest, link: false };
    if n == 0 {
        assert(all[0] == first);
    } else {
        let before = type_files(type_id, files, manifest, (n - 1) as nat);
        lemma_type_files(type_id, files, manifest, (n - 1) as nat);
        let kind = IconKind::spec_all()[n - 1];
        assert(kind.spec_ordinal() == n - 1);
        let i0 = choose|i: int| 0 <= i < before.len() && before[i] == first;
        assert(all[i0] == first);
        assert forall|i: int| 0 <= i < all.len() implies file_of_type(
            #[trigger] all[i],
            type_id,
            files,
            manifest,
        ) by {
            if i < before.len() {
                assert(all[i] == before[i]);
            } else {
                assert(all[i] == (WebFileView {
                    name: link_name(type_id, kind),
                    content: files[kind],
                    link: true,
                }));
            }
        }
        assert forall|k: IconKind| files.contains_key(k) && k.spec_ordinal() < n implies all.contains(
            WebFileView { name: #[trigger] link_name(type_id, k), content: files[k], link: true },
        ) by {
            let f = WebFileView { name: link_name(type_id, k), content: files[k], link: true };
            if k.spec_ordinal() < n - 1 {
                let i = choose|i: int| 0 <= i < before.len() && before[i] == f;
                assert(all[i] == f);
            } else {
                assert(k == kind);
                assert(all[before.len() as int] == f);
            }
        }
    }
}

/// The files that `created_upto` lists are the files of the first `n`
/// types, and all of them.
pub proof fn lemma_created(m: MetadataView, manifests: Seq<Seq<char>>, n: nat)
    requires
        n <= m.order.len(),
    ensures
        forall|i: int|
            0 <= i < created_upto(m, manifests, n).len() ==> exists|p: int|
                0 <= p < n && file_of_type(
                    #[trigger] created_upto(m, manifests, n)[i],
                    m.order[p],
                    m.files[m.order[p]],
                    #[trigger] manifests[p],
                ),
        forall|p: int, f: WebFileView|
            0 <= p < n && type_files(m.order[p], m.files[m.order[p]], #[trigger] manifests[p], 6).contains(
                f,
            ) ==> #[trigger] created_upto(m, manifests, n).contains(f),
    decreases n,
{
    let all = created_upto(m, manifests, n);
    if n > 0 {
        let before = created_upto(m, manifests, (n - 1) as nat);
        let t = m.order[n - 1];
        let own = type_files(t, m.files[t], manifests[n - 1], 6);
        lemma_created(m, manifests, (n - 1) as nat);
        lemma_type_files(t, m.files[t], manifests[n - 1], 6);
        assert forall|i: int| 0 <= i < all.len() implies exists|p: int|
            0 <= p < n && file_of_type(
                #[trigger] all[i],
                m.order[p],
                m.files[m.order[p]],
                #[trigger] manifests[p],
            ) by {
            if i < before.len() {
                assert(all[i] == before[i]);
                let p = choose|p: int|
                    0 <= p < n - 1 && file_of_type(
                        before[i],
                        m.order[p],
                        m.files[m.order[p]],
                        #[trigger] manifests[p],
                    );
                assert(file_of_type(all[i], m.order[p], m.files[m.order[p]], manifests[p]));
            } else {
                assert(all[i] == own[i - before.len()]);
                assert(file_of_type(all[i], m.order[n - 1], m.files[m.order[n - 1]], manifests[n - 1]));
            }
        }
        assert forall|p: int, f: WebFileView|
            0 <= p < n && type_files(m.order[p], m.files[m.order[p]], #[trigger] manifests[p], 6).contains(
                f,
            ) implies #[trigger] all.contains(f) by {
            if p < n - 1 {
                assert(before.contains(f));
                let i = choose|i: int| 0 <= i < before.len() && before[i] == f;
                assert(all[i] == f);
            } else {
                let i = choose|i: int| 0 <= i < own.len() && own[i] == f;
                assert(all[before.len() + i] == f);
            }
        }
    }
}

/// Whether files with one name have one content.
pub open spec fn consistent(list: Seq<WebFileView>) -> bool {
    forall|i: int, j: int|
        0 <= i < list.len() && 0 <= j < list.len() && (#[trigger] list[i]).name == (#[trigger] list[j]).name
            ==> list[i].content == list[j].content
}

/// No two files of the web directory share a name, unless they are one
/// file.
pub proof fn lemma_created_consistent(m: MetadataView, manifests: Seq<Seq<char>>)
    requires
        in_order(m),
    ensures
        consistent(created(m, manifests)),
{
    let all = created(m, manifests);
    lemma_created(m, manifests, m.order.len());
    assert forall|i: int, j: int|
        0 <= i < all.len() && 0 <= j < all.len() && (#[trigger] all[i]).name == (#[trigger] all[j]).name implies all[i].content
        == all[j].content by {
        let p = choose|p: int|
            0 <= p < m.order.len() && file_of_type(
                all[i],
                m.order[p],
                m.files[m.order[p]],
                #[trigger] manifests[p],
            );
        let q = choose|q: int|
            0 <= q < m.order.len() && file_of_type(
                all[j],
                m.order[q],
                m.files[m.order[q]],
                #[trigger] manifests[q],
            );
        lemma_names_tell_files(
            all[i],
            m.order[p],
            m.files[m.order[p]],
            manifests[p],
            all[j],
            m.order[q],
            m.files[m.order[q]],
            manifests[q],
        );
    }
}

/// The index of links of a list of files holds each file of the list with
/// its content, where files with one name have one content.
pub proof fn lemma_link_map(list: Seq<WebFileView>)
    requires
        consistent(list),
    ensures
        forall|i: int|
            0 <= i < list.len() ==> link_map(list).contains_key((#[trigger] list[i]).name) && link_map(
                list,
            )[list[i].name] == list[i].content,
        forall|x: Seq<char>| link_map(list).contains_key(x) ==> file_names(list).contains(x),
    decreases list.len(),
{
    if list.len() > 0 {
        let rest = list.drop_last();
        assert forall|i: int, j: int|
            0 <= i < rest.len() && 0 <= j < rest.len() && (#[trigger] rest[i]).name == (#[trigger] rest[j]).name implies rest[i].content
            == rest[j].content by {
            assert(rest[i] == list[i] && rest[j] == list[j]);
        }
        lemma_link_map(rest);
        assert forall|i: int| 0 <= i < list.len() implies link_map(list).contains_key(
            (#[trigger] list[i]).name,
        ) && link_map(list)[list[i].name] == list[i].content by {
            if i < rest.len() {
                assert(rest[i] == list[i]);
                assert(list[list.len() - 1].name == list[i].name ==> list[list.len() - 1].content
                    == list[i].content);
            }
        }
        assert forall|x: Seq<char>| link_map(list).contains_key(x) implies file_names(list).contains(
            x,
        ) by {
            let names = list.map_values(|f: WebFileView| f.name);
            if x == list.last().name {
                assert(names[list.len() - 1] == x);
            } else {
                assert(file_names(rest).contains(x));
                let rest_names = rest.map_values(|f: WebFileView| f.name);
                let i = choose|i: int| 0 <= i < rest_names.len() && rest_names[i] == x;
                assert(names[i] == x);
            }
        }
    }
}

/// No file is due where the index of links holds every file with its
/// content and the run is not forced.
proof fn lemma_nothing_due(files: Seq<WebFileView>, old_links: Map<Seq<char>, Seq<char>>, n: nat)
    requires
        n <= files.len(),
        forall|i: int|
            0 <= i < files.len() ==> old_links.contains_key((#[trigger] files[i]).name) && old_links[files[i].name]
                == files[i].content,
    ensures
        due_upto(files, old_links, false, n).len() == 0,
    decreases n,
{
    if n > 0 {
        lemma_nothing_due(files, old_links, (n - 1) as nat);
    }
}

/// Which files of the last run are deleted: those whose name is not kept.
pub proof fn lemma_stale(old_list: Seq<WebFileView>, keep: Set<Seq<char>>, n: nat)
    requires
        n <= old_list.len(),
    ensures
        forall|i: int|
            0 <= i < n && !keep.contains((#[trigger] old_list[i]).name) ==> stale_upto(
                old_list,
                keep,
                n,
            ).contains(old_list[i].name),
        (forall|i: int| 0 <= i < n ==> keep.contains((#[trigger] old_list[i]).name)) ==> stale_upto(
            old_list,
            keep,
            n,
        ).len() == 0,
    decreases n,
{
    if n > 0 {
        lemma_stale(old_list, keep, (n - 1) as nat);
        let before = stale_upto(old_list, keep, (n - 1) as nat);
        let after = stale_upto(old_list, keep, n);
        assert forall|i: int| 0 <= i < n && !keep.contains((#[trigger] old_list[i]).name) implies after.contains(
            old_list[i].name,
        ) by {
            if i < n - 1 {
                let j = choose|j: int| 0 <= j < before.len() && before[j] == old_list[i].name;
                assert(after[j] == old_list[i].name);
            } else {
                assert(after[before.len() as int] == old_list[i].name);
            }
        }
    }
}

/// Idempotence of the web directory: a run that follows a run for the same
/// metadata, and is not forced, writes no manifest, makes no link and
/// deletes no file.
pub proof fn lemma_web_idempotent(m: MetadataView, old_list: Seq<WebFileView>, force: bool)
    requires
        in_order(m),
    ensures
        ({
            let first = web_plan(m, old_list, force);
            let second = web_plan(m, first.created, false);
            &&& second.created == first.created
            &&& second.due.len() == 0
            &&& second.removals.len() == 0
        }),
{
    let files = created(m, manifests_of(m));
    lemma_created_consistent(m, manifests_of(m));
    lemma_link_map(files);
    lemma_nothing_due(files, link_map(files), files.len());
    assert forall|i: int| 0 <= i < files.len() implies file_names(files).contains(
        (#[trigger] files[i]).name,
    ) by {
        let names = files.map_values(|f: WebFileView| f.name);
        assert(names[i] == files[i].name);
    }
    lemma_stale(files, file_names(files), files.len());
}

/// Web stale cleanup: where a type had files in the last run and the
/// metadata of this run does not hold the type, this run deletes the
/// manifest of the type and the link of each kind that the type had.
pub proof fn lemma_web_stale_cleanup(
    last: MetadataView,
    last_links: Seq<WebFileView>,
    last_force: bool,
    now: MetadataView,
    force: bool,
    type_id: u32,
)
    requires
        in_order(last),
        in_order(now),
        last.files.contains_key(type_id),
        !now.files.contains_key(type_id),
    ensures
        ({
            let first = web_plan(last, last_links, last_force);
            let second = web_plan(now, first.created, force);
            &&& second.removals.contains(manifest_name(type_id))
            &&& forall|k: IconKind|
                last.files[type_id].contains_key(k) ==> second.removals.contains(
                    #[trigger] link_name(type_id, k),
                )
        }),
{
    let texts = manifests_of(last);
    let old_files = created(last, texts);
    let new_files = created(now, manifests_of(now));
    let keep = file_names(new_files);
    assert(last.order.contains(type_id));
    let p = choose|p: int| 0 <= p < last.order.len() && last.order[p] == type_id;
    let files = last.files[type_id];
    lemma_created(last, texts, last.order.len());
    lemma_created(now, manifests_of(now), now.order.len());
    lemma_type_files(type_id, files, texts[p], 6);
    lemma_stale(old_files, keep, old_files.len());
    assert forall|f: WebFileView| file_of_type(f, type_id, files, texts[p]) implies !keep.contains(
        f.name,
    ) by {
        if keep.contains(f.name) {
            let names = new_files.map_values(|g: WebFileView| g.name);
            let i = choose|i: int| 0 <= i < names.len() && names[i] == f.name;
            let q = choose|q: int|
                0 <= q < now.order.len() && file_of_type(
                    new_files[i],
                    now.order[q],
                    now.files[now.order[q]],
                    #[trigger] manifests_of(now)[q],
                );
            lemma_names_tell_files(
                f,
                type_id,
                files,
                texts[p],
                new_files[i],
                now.order[q],
                now.files[now.order[q]],
                manifests_of(now)[q],
            );
            assert(now.order.contains(type_id));
        }
    }
    let removals = stale_upto(old_files, keep, old_files.len());
    let manifest = WebFileView { name: manifest_name(type_id), content: texts[p], link: false };
    assert(file_of_type(manifest, type_id, files, texts[p]));
    assert(type_files(last.order[p], last.files[last.order[p]], texts[p], 6).contains(manifest));
    assert(created_upto(last, texts, last.order.len()).contains(manifest));
    assert(old_files.contains(manifest));
    let i = choose|i: int| 0 <= i < old_files.len() && old_files[i] == manifest;
    assert(removals.contains(old_files[i].name));
    assert forall|k: IconKind| files.contains_key(k) implies removals.contains(
        #[trigger] link_name(type_id, k),
    ) by {
        let link = WebFileView { name: link_name(type_id, k), content: files[k], link: true };
        assert(file_of_type(link, type_id, files, texts[p]));
        assert(k.spec_ordinal() < 6);
        assert(type_files(last.order[p], last.files[last.order[p]], texts[p], 6).contains(link));
        assert(created_upto(last, texts, last.order.len()).contains(link));
        assert(old_files.contains(link));
        let j = choose|j: int| 0 <= j < old_files.len() && old_files[j] == link;
        assert(removals.contains(old_files[j].name));
    }
}

} // verus!
