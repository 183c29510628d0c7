//! Text helpers shared by the whole library: the characters of a string,
//! decimal numerals, suffix tests and trimming.

use vstd::prelude::*;

verus! {

/// `String::push` appends one character to the string.
pub assume_specification[ std::string::String::push ](s: &mut std::string::String, c: char)
    ensures
        final(s)@ == old(s)@.push(c),
;

/// `std::str::from_utf8`: the text that the bytes encode, where they are
/// valid UTF-8, and nothing where they are not.
#[verifier::external_body]
pub(crate) fn str_from_utf8(bytes: &[u8]) -> (r: Option<&str>)
    ensures
        match r {
            Some(s) => vstd::utf8::valid_utf8(bytes@) && s@ == vstd::utf8::decode_utf8(bytes@),
            None => !vstd::utf8::valid_utf8(bytes@),
        },
{
    std::str::from_utf8(bytes).ok()
}

/// The string that the bytes encode, where they are valid UTF-8, and
/// nothing where they are not.
pub fn string_from_utf8(bytes: &[u8]) -> (r: Option<String>)
    ensures
        match r {
            Some(s) => vstd::utf8::valid_utf8(bytes@) && s@ == vstd::utf8::decode_utf8(bytes@),
            None => !vstd::utf8::valid_utf8(bytes@),
        },
{
    match str_from_utf8(bytes) {
        Some(s) => Some(s.to_owned()),
        None => None,
    }
}

/// Bytes below 128 are valid UTF-8.
pub proof fn lemma_ascii_is_utf8(bytes: Seq<u8>)
    requires
        forall|i: int| 0 <= i < bytes.len() ==> (#[trigger] bytes[i]) < 128,
    ensures
        vstd::utf8::valid_utf8(bytes),
    decreases bytes.len(),
{
    if bytes.len() > 0 {
        let rest = vstd::utf8::pop_first_scalar(bytes);
        lemma_ascii_is_utf8(rest);
    }
}

/// The characters of `s`, in order.
pub fn chars_of(s: &str) -> (v: Vec<char>)
    ensures
        v@ == s@,
{
    let mut v: Vec<char> = Vec::new();
    for c in it: s.chars()
        invariant
            v@ == it.seq().take(it.index() as int),
    {
        v.push(c);
    }
    v
}

/// The string whose characters are those of `v`, in order.
pub fn string_of(v: &Vec<char>) -> (s: String)
    ensures
        s@ == v@,
{
    let mut s = String::new();
    let mut i: usize = 0;
    while i < v.len()
        invariant
            i <= v.len(),
            s@ == v@.take(i as int),
        decreases v.len() - i,
    {
        s.push(v[i]);
        i += 1;
    }
    s
}

/// Appends the characters of `s` to `out`.
pub fn push_str(out: &mut Vec<char>, s: &str)
    ensures
        final(out)@ == old(out)@ + s@,
{
    let ghost start = out@;
    for c in it: s.chars()
        invariant
            out@ == start + it.seq().take(it.index() as int),
    {
        out.push(c);
    }
}

/// Appends the characters of `s` to `out`.
pub fn push_chars(out: &mut Vec<char>, s: &Vec<char>)
    ensures
        final(out)@ == old(out)@ + s@,
{
    let ghost start = out@;
    let mut i: usize = 0;
    while i < s.len()
        invariant
            i <= s.len(),
            out@ == start + s@.take(i as int),
        decreases s.len() - i,
    {
        out.push(s[i]);
        i += 1;
    }
}

/// The character that writes the decimal digit `d`.
pub open spec fn digit_char(d: nat) -> char
    recommends
        d < 10,
{
    ((48 + d) as u8) as char
}

/// The decimal numeral of `n`, without sign or leading zeros.
pub open spec fn decimal_digits(n: nat) -> Seq<char>
    decreases n,
{
    if n < 10 {
        seq![digit_char(n)]
    } else {
        decimal_digits(n / 10).push(digit_char(n % 10))
    }
}

/// Appends the decimal numeral of `n` to `out`.
pub fn push_decimal(out: &mut Vec<char>, n: u64)
    ensures
        final(out)@ == old(out)@ + decimal_digits(n as nat),
    decreases n,
{
    if n >= 10 {
        push_decimal(out, n / 10);
    }
    let d: u8 = (n % 10) as u8;
    out.push((48u8 + d) as char);
}

/// The decimal numeral of `n` as a string.
pub fn decimal(n: u64) -> (s: String)
    ensures
        s@ == decimal_digits(n as nat),
{
    let mut out: Vec<char> = Vec::new();
    push_decimal(&mut out, n);
    string_of(&out)
}

/// Whether `s` ends with `suffix`.
pub open spec fn ends_with_spec(s: Seq<char>, suffix: Seq<char>) -> bool {
    suffix.len() <= s.len() && s.skip(s.len() - suffix.len()) == suffix
}

/// Whether `s` ends with `suffix`.
pub fn ends_with(s: &Vec<char>, suffix: &Vec<char>) -> (b: bool)
    ensures
        b == ends_with_spec(s@, suffix@),
{
    if suffix.len() > s.len() {
        return false;
    }
    let off: usize = s.len() - suffix.len();
    let mut i: usize = 0;
    while i < suffix.len()
        invariant
            i <= suffix.len(),
            off + suffix.len() == s.len(),
            forall|j: int| 0 <= j < i ==> s@[off + j] == suffix@[j],
        decreases suffix.len() - i,
    {
        if s[off + i] != suffix[i] {
            assert(s@.skip(off as int)[i as int] != suffix@[i as int]);
            return false;
        }
        i += 1;
    }
    assert(s@.skip(off as int) =~= suffix@);
    true
}

/// Whether `s` starts with `prefix`.
pub open spec fn starts_with_spec(s: Seq<char>, prefix: Seq<char>) -> bool {
    prefix.len() <= s.len() && s.take(prefix.len() as int) == prefix
}

/// Whether `s` starts with `prefix`.
pub fn starts_with(s: &Vec<char>, prefix: &Vec<char>) -> (b: bool)
    ensures
        b == starts_with_spec(s@, prefix@),
{
    if prefix.len() > s.len() {
        return false;
    }
    let mut i: usize = 0;
    while i < prefix.len()
        invariant
            i <= prefix.len() <= s.len(),
            forall|j: int| 0 <= j < i ==> s@[j] == prefix@[j],
        decreases prefix.len() - i,
    {
        if s[i] != prefix[i] {
            assert(s@.take(prefix.len() as int)[i as int] != prefix@[i as int]);
            return false;
        }
        i += 1;
    }
    assert(s@.take(prefix.len() as int) =~= prefix@);
    true
}

/// Whether `a` and `b` are the same text.
pub fn same_text(a: &str, b: &str) -> (same: bool)
    ensures
        same == (a@ == b@),
{
    let x = chars_of(a);
    let y = chars_of(b);
    if x.len() != y.len() {
        return false;
    }
    let same = ends_with(&x, &y);
    assert(x@.skip(0) =~= x@);
    same
}

/// `s` without the run of `c` at its end.
pub open spec fn trim_end_spec(s: Seq<char>, c: char) -> Seq<char>
    decreases s.len(),
{
    if s.len() > 0 && s.last() == c {
        trim_end_spec(s.drop_last(), c)
    } else {
        s
    }
}

/// The number of characters of `s` that stay when the run of `c` at its end
/// is taken off.
pub fn trimmed_len(s: &Vec<char>, c: char) -> (n: usize)
    ensures
        n <= s.len(),
        s@.take(n as int) == trim_end_spec(s@, c),
{
    let mut n: usize = s.len();
    assert(s@.take(n as int) =~= s@);
    while n > 0 && s[n - 1] == c
        invariant
            n <= s.len(),
            trim_end_spec(s@.take(n as int), c) == trim_end_spec(s@, c),
        decreases n,
    {
        assert(s@.take(n as int).drop_last() =~= s@.take(n - 1));
        n -= 1;
    }
    n
}

/// The parts in order, with `sep` between each two.
pub open spec fn join(parts: Seq<Seq<char>>, sep: char) -> Seq<char>
    decreases parts.len(),
{
    if parts.len() == 0 {
        Seq::empty()
    } else if parts.len() == 1 {
        parts[0]
    } else {
        parts[0] + seq![sep] + join(parts.drop_first(), sep)
    }
}

/// Joining one part more puts the separator and the part at the end.
pub proof fn lemma_join_push(parts: Seq<Seq<char>>, last: Seq<char>, sep: char)
    requires
        parts.len() > 0,
    ensures
        join(parts.push(last), sep) == join(parts, sep) + seq![sep] + last,
    decreases parts.len(),
{
    let all = parts.push(last);
    assert(all.drop_first() =~= parts.drop_first().push(last));
    if parts.len() == 1 {
        assert(all.drop_first() =~= seq![last]);
        assert(join(all.drop_first(), sep) == last);
        assert(join(all, sep) =~= join(parts, sep) + seq![sep] + last);
    } else {
        lemma_join_push(parts.drop_first(), last, sep);
        assert(join(all, sep) =~= join(parts, sep) + seq![sep] + last);
    }
}

/// The views of the strings of `v`, in order.
pub open spec fn views(v: Seq<String>) -> Seq<Seq<char>> {
    v.map_values(|s: String| s@)
}

/// The strings of `parts` in order, with `sep` between each two.
pub fn join_strings(parts: &Vec<String>, sep: char) -> (s: String)
    ensures
        s@ == join(views(parts@), sep),
{
    let mut out: Vec<char> = Vec::new();
    let mut i: usize = 0;
    while i < parts.len()
        invariant
            i <= parts.len(),
            out@ == join(views(parts@).take(i as int), sep),
        decreases parts.len() - i,
    {
        let ghost before = out@;
        if i > 0 {
            out.push(sep);
        }
        push_str(&mut out, parts[i].as_str());
        proof {
            let all = views(parts@);
            assert(all.take(i + 1) =~= all.take(i as int).push(parts@[i as int]@));
            if i > 0 {
                lemma_join_push(all.take(i as int), parts@[i as int]@, sep);
                assert(out@ =~= before + seq![sep] + parts@[i as int]@);
            } else {
                assert(all.take(1) =~= seq![parts@[0]@]);
                assert(out@ =~= parts@[0]@);
            }
        }
        i += 1;
    }
    assert(views(parts@).take(parts.len() as int) =~= views(parts@));
    string_of(&out)
}

/// The place of the first `sep` in `s`, the length of `s` where it has none.
pub open spec fn first_sep(s: Seq<char>, sep: char) -> int
    decreases s.len(),
{
    if s.len() == 0 || s[0] == sep {
        0
    } else {
        1 + first_sep(s.drop_first(), sep)
    }
}

/// The entries of a record whose entries are parted by `sep`: what stands
/// before the first `sep`, then the entries of what follows it. A record
/// that ends after a `sep`, and the empty record, have no entry there.
pub open spec fn entries(record: Seq<char>, sep: char) -> Seq<Seq<char>>
    decreases record.len(),
{
    if record.len() == 0 {
        Seq::empty()
    } else {
        let k = first_sep(record, sep);
        if 0 <= k < record.len() {
            seq![record.take(k)] + entries(record.skip(k + 1), sep)
        } else {
            seq![record]
        }
    }
}

/// Where the first separator stands: no `sep` before it, a `sep` at it
/// unless it is the end.
pub proof fn lemma_first_sep(s: Seq<char>, sep: char)
    ensures
        0 <= first_sep(s, sep) <= s.len(),
        forall|i: int| 0 <= i < first_sep(s, sep) ==> s[i] != sep,
        first_sep(s, sep) < s.len() ==> s[first_sep(s, sep)] == sep,
    decreases s.len(),
{
    if s.len() == 0 || s[0] == sep {
    } else {
        lemma_first_sep(s.drop_first(), sep);
        assert forall|i: int| 0 <= i < first_sep(s, sep) implies s[i] != sep by {
            if i > 0 {
                assert(s[i] == s.drop_first()[i - 1]);
            }
        }
    }
}

/// The first separator of `s` is at `k` where `s` has none before `k` and
/// has one at `k`, or ends there.
pub proof fn lemma_first_sep_at(s: Seq<char>, sep: char, k: int)
    requires
        0 <= k <= s.len(),
        forall|i: int| 0 <= i < k ==> s[i] != sep,
        k < s.len() ==> s[k] == sep,
    ensures
        first_sep(s, sep) == k,
{
    lemma_first_sep(s, sep);
    let f = first_sep(s, sep);
    if f < k {
    } else if f > k {
    }
}

/// The entries of the record `record`, parted by `sep`.
pub fn split_entries(record: &str, sep: char) -> (out: Vec<String>)
    ensures
        views(out@) == entries(record@, sep),
{
    let src = chars_of(record);
    let mut out: Vec<String> = Vec::new();
    let mut cur: Vec<char> = Vec::new();
    let mut start: usize = 0;
    let mut i: usize = 0;
    assert(src@.skip(0) =~= src@);
    assert(views(out@) =~= Seq::empty());
    while i < src.len()
        invariant
            start <= i <= src.len(),
            cur@ == src@.subrange(start as int, i as int),
            forall|j: int| start <= j < i ==> src@[j] != sep,
            views(out@) + entries(src@.skip(start as int), sep) == entries(src@, sep),
        decreases src.len() - i,
    {
        let c = src[i];
        if c == sep {
            let ghost rest = src@.skip(start as int);
            let ghost done = views(out@);
            let ghost entry = cur@;
            proof {
                lemma_first_sep_at(rest, sep, i - start);
                assert(rest.take(i - start) =~= cur@);
                assert(rest.skip(i - start + 1) =~= src@.skip(i + 1));
            }
            out.push(string_of(&cur));
            cur = Vec::new();
            start = i + 1;
            proof {
                assert(views(out@) =~= done.push(entry));
                assert(views(out@) + entries(src@.skip(start as int), sep) =~= done + entries(
                    rest,
                    sep,
                ));
                assert(cur@ =~= src@.subrange(start as int, i + 1));
            }
        } else {
            cur.push(c);
            assert(cur@ =~= src@.subrange(start as int, i + 1));
        }
        i += 1;
    }
    let ghost rest = src@.skip(start as int);
    let ghost done = views(out@);
    if start < src.len() {
        proof {
            lemma_first_sep_at(rest, sep, rest.len() as int);
            assert(rest =~= cur@);
        }
        out.push(string_of(&cur));
        assert(views(out@) =~= done.push(rest));
        assert(done + entries(rest, sep) =~= done.push(rest));
    } else {
        assert(done + entries(rest, sep) =~= done);
    }
    out
}

/// Splitting what was joined gives the parts back, where no part holds the
/// separator and the last part is not empty.
pub proof fn lemma_entries_of_join(parts: Seq<Seq<char>>, sep: char)
    requires
        forall|i: int| 0 <= i < parts.len() ==> !(#[trigger] parts[i]).contains(sep),
        parts.len() > 0 ==> parts.last().len() > 0,
    ensures
        entries(join(parts, sep), sep) == parts,
    decreases parts.len(),
{
    let record = join(parts, sep);
    if parts.len() == 0 {
    } else if parts.len() == 1 {
        assert forall|i: int| 0 <= i < record.len() implies record[i] != sep by {
            assert(parts[0].contains(record[i]));
        }
        lemma_first_sep_at(record, sep, record.len() as int);
        assert(entries(record, sep) =~= parts);
    } else {
        let head = parts[0];
        let rest = parts.drop_first();
        assert forall|i: int| 0 <= i < head.len() implies record[i] != sep by {
            assert(head.contains(head[i]));
        }
        lemma_first_sep_at(record, sep, head.len() as int);
        assert(record.take(head.len() as int) =~= head);
        assert(record.skip(head.len() as int + 1) =~= join(rest, sep));
        assert forall|i: int| 0 <= i < rest.len() implies !(#[trigger] rest[i]).contains(sep) by {
            assert(rest[i] == parts[i + 1]);
        }
        assert(rest.last() == parts.last());
        lemma_entries_of_join(rest, sep);
        assert(seq![head] + rest =~= parts);
    }
}

} // verus!
