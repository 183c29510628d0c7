//! The checksum of a build: the MD5 digest of the bytes of its record, in
//! lower-case hexadecimal.

use vstd::prelude::*;
use vstd::utf8::encode_utf8;
use crate::icons::index::{record_of, ContentCache};
use crate::text::string_of;

verus! {

/// The MD5 digest of `bytes`: the sixteen bytes that `md5::compute` gives.
pub uninterp spec fn md5_of(bytes: Seq<u8>) -> Seq<u8>;

/// `md5::compute`: the sixteen bytes of the MD5 digest of `bytes`.
#[verifier::external_body]
fn md5_digest(bytes: &[u8]) -> (digest: [u8; 16])
    ensures
        digest@ == md5_of(bytes@),
{
    md5::compute(bytes).0
}

/// The character of one hexadecimal digit.
pub open spec fn hex_digit(n: nat) -> char
    recommends
        n < 16,
{
    if n < 10 {
        ((48 + n) as u8) as char
    } else {
        ((87 + n) as u8) as char
    }
}

/// Each byte as two lower-case hexadecimal digits, the high one first.
pub open spec fn hex_of(bytes: Seq<u8>) -> Seq<char>
    decreases bytes.len(),
{
    if bytes.len() == 0 {
        Seq::empty()
    } else {
        hex_of(bytes.drop_last()).push(hex_digit((bytes.last() / 16) as nat)).push(
            hex_digit((bytes.last() % 16) as nat),
        )
    }
}

/// The character of one hexadecimal digit.
fn hex_char(n: u8) -> (c: char)
    requires
        n < 16,
    ensures
        c == hex_digit(n as nat),
{
    if n < 10 {
        (48u8 + n) as char
    } else {
        (87u8 + n) as char
    }
}

/// Each byte as two lower-case hexadecimal digits, the high one first.
pub fn to_hex(bytes: &[u8]) -> (s: String)
    ensures
        s@ == hex_of(bytes@),
{
    let mut out: Vec<char> = Vec::new();
    let mut i: usize = 0;
    while i < bytes.len()
        invariant
            i <= bytes.len(),
            out@ == hex_of(bytes@.take(i as int)),
        decreases bytes.len() - i,
    {
        let b = bytes[i];
        out.push(hex_char(b / 16));
        out.push(hex_char(b % 16));
        assert(bytes@.take(i + 1).drop_last() =~= bytes@.take(i as int));
        i += 1;
    }
    assert(bytes@.take(bytes.len() as int) =~= bytes@);
    string_of(&out)
}

/// The checksum of a set of names: the MD5 digest of the bytes of its
/// record, in lower-case hexadecimal.
pub open spec fn checksum_of(names: Set<Seq<char>>) -> Seq<char> {
    hex_of(md5_of(encode_utf8(record_of(names))))
}

/// The checksum of the record `record`.
pub fn record_checksum(record: &[u8]) -> (s: String)
    ensures
        s@ == hex_of(md5_of(record@)),
{
    let digest = md5_digest(record);
    to_hex(digest.as_slice())
}

/// The checksum of a build: that of the names it has asked for. Two builds
/// that ask for the same names have the same checksum.
pub fn checksum(cache: &ContentCache) -> (s: String)
    requires
        cache.wf(),
    ensures
        s@ == checksum_of(cache.new_names()),
{
    let bytes = cache.record_bytes();
    record_checksum(bytes.as_slice())
}

} // verus!
