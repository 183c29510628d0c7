//! Reading text line by line and field by field: lines, fields between
//! commas, blank lines and unsigned numbers.

use vstd::prelude::*;
use crate::text::{
    chars_of, entries, first_sep, lemma_first_sep_at, split_entries, views,
};

verus! {

/// A line without the carriage return at its end, if it has one.
pub open spec fn strip_cr(line: Seq<char>) -> Seq<char> {
    if line.len() > 0 && line.last() == '\r' {
        line.drop_last()
    } else {
        line
    }
}

/// The lines of a text: what stands between line feeds, each without the
/// carriage return before its line feed. The text after the last line feed
/// is a line if it is not empty.
pub open spec fn text_lines(text: Seq<char>) -> Seq<Seq<char>> {
    let chunks = entries(text, '\n');
    Seq::new(
        chunks.len(),
        |i: int|
            if i < chunks.len() - 1 || text.last() == '\n' {
                strip_cr(chunks[i])
            } else {
                chunks[i]
            },
    )
}

/// The lines of a text.
pub fn lines_of(text: &str) -> (lines: Vec<Vec<char>>)
    ensures
        lines.len() == text_lines(text@).len(),
        forall|i: int| 0 <= i < lines.len() ==> (#[trigger] lines@[i])@ == text_lines(text@)[i],
{
    let src = chars_of(text);
    let chunks = split_entries(text, '\n');
    let ended = src.len() > 0 && src[src.len() - 1] == '\n';
    let mut lines: Vec<Vec<char>> = Vec::new();
    let mut i: usize = 0;
    while i < chunks.len()
        invariant
            i <= chunks.len(),
            lines.len() == i,
            src@ == text@,
            views(chunks@) == entries(text@, '\n'),
            ended == (text@.len() > 0 && text@.last() == '\n'),
            forall|j: int| 0 <= j < i ==> (#[trigger] lines@[j])@ == text_lines(text@)[j],
        decreases chunks.len() - i,
    {
        let mut line = chars_of(chunks[i].as_str());
        if (i + 1 < chunks.len() || ended) && line.len() > 0 && line[line.len() - 1] == '\r' {
            line.pop();
        }
        proof {
            if chunks.len() > 0 && text@.len() == 0 {
            }
        }
        lines.push(line);
        i += 1;
    }
    lines
}

/// Whether a character is white space.
pub open spec fn is_space(c: char) -> bool {
    let n = c as u32;
    ||| 0x09 <= n <= 0x0d
    ||| n == 0x20
    ||| n == 0x85
    ||| n == 0xa0
    ||| n == 0x1680
    ||| 0x2000 <= n <= 0x200a
    ||| n == 0x2028
    ||| n == 0x2029
    ||| n == 0x202f
    ||| n == 0x205f
    ||| n == 0x3000
}

/// Whether a line is blank: it holds white space only.
pub open spec fn is_blank(line: Seq<char>) -> bool {
    forall|i: int| 0 <= i < line.len() ==> is_space(#[trigger] line[i])
}

/// Whether a line is blank.
pub fn blank(line: &Vec<char>) -> (b: bool)
    ensures
        b == is_blank(line@),
{
    let mut i: usize = 0;
    while i < line.len()
        invariant
            i <= line.len(),
            forall|j: int| 0 <= j < i ==> is_space(#[trigger] line@[j]),
        decreases line.len() - i,
    {
        let n = line[i] as u32;
        let space = (0x09 <= n && n <= 0x0d) || n == 0x20 || n == 0x85 || n == 0xa0 || n == 0x1680 || (
        0x2000 <= n && n <= 0x200a) || n == 0x2028 || n == 0x2029 || n == 0x202f || n == 0x205f || n
            == 0x3000;
        if !space {
            return false;
        }
        i += 1;
    }
    true
}

/// The first `n` fields of a line whose fields are parted by `sep`; nothing
/// where the line has fewer. The last of them ends at the next `sep` or
/// with the line.
pub open spec fn fields(line: Seq<char>, sep: char, n: nat) -> Option<Seq<Seq<char>>>
    decreases n,
{
    if n == 0 {
        Some(Seq::empty())
    } else {
        let k = first_sep(line, sep);
        if 0 <= k < line.len() {
            match fields(line.skip(k + 1), sep, (n - 1) as nat) {
                Some(rest) => Some(seq![line.take(k)] + rest),
                None => None,
            }
        } else if n == 1 {
            Some(seq![line])
        } else {
            None
        }
    }
}

/// The first `n` fields of a line whose fields are parted by `sep`.
pub fn fields_of(line: &Vec<char>, sep: char, n: usize) -> (r: Option<Vec<Vec<char>>>)
    ensures
        match r {
            Some(v) => fields(line@, sep, n as nat) is Some && v.len() == n && forall|i: int|
                0 <= i < n ==> (#[trigger] v@[i])@ == fields(line@, sep, n as nat)->0[i],
            None => fields(line@, sep, n as nat) is None,
        },
{
    let mut out: Vec<Vec<char>> = Vec::new();
    let mut start: usize = 0;
    let mut done: usize = 0;
    let ghost mut got: Seq<Seq<char>> = Seq::empty();
    assert(line@.skip(0) =~= line@);
    while done < n
        invariant
            done <= n,
            start <= line.len(),
            out.len() == done == got.len(),
            forall|i: int| 0 <= i < done ==> (#[trigger] out@[i])@ == got[i],
            fields(line@, sep, n as nat) == match fields(
                line@.skip(start as int),
                sep,
                (n - done) as nat,
            ) {
                Some(rest) => Some(got + rest),
                None => None,
            },
        decreases n - done,
    {
        let ghost rest = line@.skip(start as int);
        let mut field: Vec<char> = Vec::new();
        let mut i: usize = start;
        while i < line.len() && line[i] != sep
            invariant
                start <= i <= line.len(),
                field@ == line@.subrange(start as int, i as int),
                forall|j: int| start <= j < i ==> line@[j] != sep,
            decreases line.len() - i,
        {
            field.push(line[i]);
            assert(field@ =~= line@.subrange(start as int, i + 1));
            i += 1;
        }
        proof {
            lemma_first_sep_at(rest, sep, i - start);
            assert(rest.take(i - start) =~= field@);
        }
        if i < line.len() {
            proof {
                assert(rest.skip(i - start + 1) =~= line@.skip(i + 1));
                let tail = fields(line@.skip(i + 1), sep, (n - done - 1) as nat);
                if tail is Some {
                    assert(got + (seq![field@] + tail->0) =~= got.push(field@) + tail->0);
                }
                got = got.push(field@);
            }
            out.push(field);
            start = i + 1;
            done += 1;
        } else if done + 1 == n {
            proof {
                assert(rest =~= field@);
                assert(fields(line@, sep, n as nat) == Some(got + seq![field@]));
                got = got.push(field@);
                assert(got =~= fields(line@, sep, n as nat)->0);
            }
            out.push(field);
            return Some(out);
        } else {
            return None;
        }
    }
    assert(got + Seq::<Seq<char>>::empty() =~= got);
    Some(out)
}

/// The value of a run of decimal digits.
pub open spec fn digits_value(digits: Seq<char>) -> nat
    decreases digits.len(),
{
    if digits.len() == 0 {
        0
    } else {
        digits_value(digits.drop_last()) * 10 + (digits.last() as u32 - 48) as nat
    }
}

/// Whether every character is a decimal digit.
pub open spec fn all_digits(s: Seq<char>) -> bool {
    forall|i: int| 0 <= i < s.len() ==> '0' <= #[trigger] s[i] <= '9'
}

/// The number that a text writes: decimal digits, after a plus sign or
/// without one, with a value that 64 bits hold. Any other text writes
/// none.
pub open spec fn number(s: Seq<char>) -> Option<u64> {
    let digits = if s.len() > 0 && s[0] == '+' {
        s.skip(1)
    } else {
        s
    };
    if digits.len() > 0 && all_digits(digits) && digits_value(digits) <= u64::MAX {
        Some(digits_value(digits) as u64)
    } else {
        None
    }
}

/// The value of a run of digits is at least that of each run it starts with.
proof fn lemma_digits_value_grows(digits: Seq<char>, n: int)
    requires
        0 <= n <= digits.len(),
        all_digits(digits),
    ensures
        digits_value(digits.take(n)) <= digits_value(digits),
    decreases digits.len(),
{
    if n == digits.len() {
        assert(digits.take(n) =~= digits);
    } else {
        assert(digits.drop_last().take(n) =~= digits.take(n));
        lemma_digits_value_grows(digits.drop_last(), n);
    }
}

/// The number that a text writes.
pub fn parse_number(s: &Vec<char>) -> (r: Option<u64>)
    ensures
        r == number(s@),
{
    let start: usize = if s.len() > 0 && s[0] == '+' {
        1
    } else {
        0
    };
    let ghost digits = s@.skip(start as int);
    assert(s@.skip(0) =~= s@);
    assert(digits == (if s@.len() > 0 && s@[0] == '+' {
        s@.skip(1)
    } else {
        s@
    }));
    if start == s.len() {
        return None;
    }
    let mut value: u64 = 0;
    let mut i: usize = start;
    assert(digits.take(0) =~= Seq::empty());
    while i < s.len()
        invariant
            start <= i <= s.len(),
            start < s.len(),
            digits == s@.skip(start as int),
            digits == (if s@.len() > 0 && s@[0] == '+' {
                s@.skip(1)
            } else {
                s@
            }),
            all_digits(digits.take(i - start)),
            value == digits_value(digits.take(i - start)),
        decreases s.len() - i,
    {
        let c = s[i];
        let ghost next = digits.take(i - start + 1);
        assert(next.drop_last() =~= digits.take(i - start));
        assert(next.last() == c);
        if !('0' <= c && c <= '9') {
            assert(digits[i - start] == c);
            return None;
        }
        let d: u64 = (c as u32 - 48) as u64;
        if value > (u64::MAX - d) / 10 {
            proof {
                assert(digits_value(next) > u64::MAX);
                if all_digits(digits) {
                    lemma_digits_value_grows(digits, i - start + 1);
                }
            }
            return None;
        }
        value = value * 10 + d;
        assert(all_digits(next)) by {
            assert forall|j: int| 0 <= j < next.len() implies '0' <= #[trigger] next[j] <= '9' by {
                if j < next.len() - 1 {
                    assert(digits.take(i - start)[j] == next[j]);
                }
            }
        }
        i += 1;
    }
    assert(digits.take(s.len() - start) =~= digits);
    Some(value)
}

} // verus!
