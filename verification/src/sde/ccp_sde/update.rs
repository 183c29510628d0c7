//! Keeping local copies of the export archives current, by their checksums.

use vstd::prelude::*;
use vstd::string::StrSliceExecFns;
use vstd::utf8::{decode_utf8, encode_utf8, valid_utf8};
use crate::text::{lemma_ascii_is_utf8, same_text, str_from_utf8, string_of};

verus! {

/// Where the checksums of the export archives are published.
pub const CHECKSUM_URL: &'static str =
    "https://eve-static-data-export.s3-eu-west-1.amazonaws.com/tranquility/checksum";

/// One of the archives of the export.
#[derive(Copy, Clone, Eq, PartialEq, Structural)]
pub enum SDEKind {
    FULL,
    FSD,
    BSD,
    UNIVERSE,
}

impl SDEKind {
    /// Where an archive is published.
    pub open spec fn spec_url(self) -> Seq<char> {
        match self {
            SDEKind::FULL => "https://eve-static-data-export.s3-eu-west-1.amazonaws.com/tranquility/sde.zip"@,
            SDEKind::FSD => "https://eve-static-data-export.s3-eu-west-1.amazonaws.com/tranquility/fsd.zip"@,
            SDEKind::BSD => "https://eve-static-data-export.s3-eu-west-1.amazonaws.com/tranquility/bsd.zip"@,
            SDEKind::UNIVERSE => "https://eve-static-data-export.s3-eu-west-1.amazonaws.com/tranquility/universe.zip"@,
        }
    }

    /// The file name of an archive.
    pub open spec fn spec_filename(self) -> Seq<char> {
        match self {
            SDEKind::FULL => "sde.zip"@,
            SDEKind::FSD => "fsd.zip"@,
            SDEKind::BSD => "bsd.zip"@,
            SDEKind::UNIVERSE => "universe.zip"@,
        }
    }

    /// URL for the kind of archive referred to.
    pub fn url(self) -> (s: &'static str)
        ensures
            s@ == self.spec_url(),
    {
        match self {
            SDEKind::FULL => "https://eve-static-data-export.s3-eu-west-1.amazonaws.com/tranquility/sde.zip",
            SDEKind::FSD => "https://eve-static-data-export.s3-eu-west-1.amazonaws.com/tranquility/fsd.zip",
            SDEKind::BSD => "https://eve-static-data-export.s3-eu-west-1.amazonaws.com/tranquility/bsd.zip",
            SDEKind::UNIVERSE => "https://eve-static-data-export.s3-eu-west-1.amazonaws.com/tranquility/universe.zip",
        }
    }

    /// Default file name for this kind of archive.
    pub fn filename(self) -> (s: &'static str)
        ensures
            s@ == self.spec_filename(),
    {
        match self {
            SDEKind::FULL => "sde.zip",
            SDEKind::FSD => "fsd.zip",
            SDEKind::BSD => "bsd.zip",
            SDEKind::UNIVERSE => "universe.zip",
        }
    }
}

/// The checksums of the four archives as plain values.
pub struct ChecksumsView {
    pub sde: Seq<u8>,
    pub fsd: Seq<u8>,
    pub bsd: Seq<u8>,
    pub universe: Seq<u8>,
}

/// The bytes of a checksum that is not known: 32 zeros.
pub open spec fn unknown() -> Seq<u8> {
    Seq::new(32, |i: int| 0u8)
}

/// No checksum known.
pub open spec fn no_checksums() -> ChecksumsView {
    ChecksumsView { sde: unknown(), fsd: unknown(), bsd: unknown(), universe: unknown() }
}

/// The bytes of the checksum of an archive.
pub open spec fn bytes_of(v: ChecksumsView, kind: SDEKind) -> Seq<u8> {
    match kind {
        SDEKind::FULL => v.sde,
        SDEKind::FSD => v.fsd,
        SDEKind::BSD => v.bsd,
        SDEKind::UNIVERSE => v.universe,
    }
}

/// The checksums with `bytes` as the checksum of the archive `kind`.
pub open spec fn with_bytes(v: ChecksumsView, kind: SDEKind, bytes: Seq<u8>) -> ChecksumsView {
    match kind {
        SDEKind::FULL => ChecksumsView { sde: bytes, ..v },
        SDEKind::FSD => ChecksumsView { fsd: bytes, ..v },
        SDEKind::BSD => ChecksumsView { bsd: bytes, ..v },
        SDEKind::UNIVERSE => ChecksumsView { universe: bytes, ..v },
    }
}

/// Whether each checksum is text.
pub open spec fn all_text(v: ChecksumsView) -> bool {
    valid_utf8(v.sde) && valid_utf8(v.fsd) && valid_utf8(v.bsd) && valid_utf8(v.universe)
}

/// Whether the checksum of every archive is known.
pub open spec fn all_known(v: ChecksumsView) -> bool {
    v.sde != unknown() && v.fsd != unknown() && v.bsd != unknown() && v.universe != unknown()
}

/// The checksums of the four archives, each as 32 bytes of text. Bytes that
/// are all zero stand for a checksum that is not known.
#[derive(Copy, Clone)]
pub struct SDEChecksums {
    sde: [u8; 32],
    fsd: [u8; 32],
    bsd: [u8; 32],
    universe: [u8; 32],
}

impl View for SDEChecksums {
    type V = ChecksumsView;

    closed spec fn view(&self) -> ChecksumsView {
        ChecksumsView { sde: self.sde@, fsd: self.fsd@, bsd: self.bsd@, universe: self.universe@ }
    }
}

impl Default for SDEChecksums {
    fn default() -> (checksums: Self)
        ensures
            checksums@ == no_checksums(),
            checksums.wf(),
    {
        let zero: [u8; 32] = [0u8; 32];
        let checksums = SDEChecksums { sde: zero, fsd: zero, bsd: zero, universe: zero };
        proof {
            lemma_ascii_is_utf8(zero@);
            assert(zero@ =~= unknown());
        }
        checksums
    }
}

/// The text of a checksum, from its bytes.
fn checksum_text(bytes: &[u8; 32]) -> (s: &str)
    requires
        valid_utf8(bytes@),
    ensures
        s@ == decode_utf8(bytes@),
{
    match str_from_utf8(bytes.as_slice()) {
        Some(s) => s,
        None => "",
    }
}

/// The 32 bytes of a checksum, where the text has as many.
fn checksum_bytes(hex: &str) -> (r: Option<[u8; 32]>)
    ensures
        match r {
            Some(bytes) => bytes@ == encode_utf8(hex@),
            None => encode_utf8(hex@).len() != 32,
        },
{
    let src = hex.as_bytes_vec();
    if src.len() != 32 {
        return None;
    }
    let mut bytes: [u8; 32] = [0u8; 32];
    let mut i: usize = 0;
    while i < 32
        invariant
            i <= 32,
            src.len() == 32,
            forall|j: int| 0 <= j < i ==> bytes@[j] == src@[j],
        decreases 32 - i,
    {
        bytes[i] = src[i];
        i += 1;
    }
    Some(bytes)
}

/// The place of the first pair of spaces in a line, the length of the line
/// where it has none.
pub open spec fn first_gap(line: Seq<char>) -> int
    decreases line.len(),
{
    if line.len() < 2 {
        line.len() as int
    } else if line[0] == ' ' && line[1] == ' ' {
        0
    } else {
        1 + first_gap(line.drop_first())
    }
}

/// The archive that a file name names.
pub open spec fn kind_of_file(name: Seq<char>) -> Option<SDEKind> {
    if name == "sde.zip"@ {
        Some(SDEKind::FULL)
    } else if name == "fsd.zip"@ {
        Some(SDEKind::FSD)
    } else if name == "bsd.zip"@ {
        Some(SDEKind::BSD)
    } else if name == "universe.zip"@ {
        Some(SDEKind::UNIVERSE)
    } else {
        None
    }
}

/// What one line of a checksum file holds.
pub enum ChecksumLine {
    /// No pair of spaces, or a checksum that does not have 32 bytes.
    Malformed,
    /// The checksum of a file that is none of the archives.
    Other,
    /// The checksum of an archive.
    Sum(SDEKind, Seq<char>),
}

/// What the line `line` of a checksum file holds: a checksum, two spaces
/// and the name of the file.
pub open spec fn checksum_line(line: Seq<char>) -> ChecksumLine {
    let gap = first_gap(line);
    if !(0 <= gap < line.len()) || encode_utf8(line.take(gap)).len() != 32 {
        ChecksumLine::Malformed
    } else {
        match kind_of_file(line.skip(gap + 2)) {
            Some(kind) => ChecksumLine::Sum(kind, line.take(gap)),
            None => ChecksumLine::Other,
        }
    }
}

/// The checksums after the first `n` lines of a checksum file; nothing
/// where one of them is malformed.
pub open spec fn sums_after(lines: Seq<Seq<char>>, n: nat) -> Option<ChecksumsView>
    decreases n,
{
    if n == 0 {
        Some(no_checksums())
    } else {
        match sums_after(lines, (n - 1) as nat) {
            None => None,
            Some(v) => match checksum_line(lines[n - 1]) {
                ChecksumLine::Malformed => None,
                ChecksumLine::Other => Some(v),
                ChecksumLine::Sum(kind, hex) => Some(with_bytes(v, kind, encode_utf8(hex))),
            },
        }
    }
}

/// The checksums that the text of a checksum file gives: nothing where a
/// line is malformed or the checksum of an archive is missing.
pub open spec fn checksums_of(text: Seq<char>) -> Option<ChecksumsView> {
    let lines = crate::lines::text_lines(text);
    match sums_after(lines, lines.len()) {
        Some(v) => if all_known(v) {
            Some(v)
        } else {
            None
        },
        None => None,
    }
}

/// Where the first pair of spaces of a line stands.
proof fn lemma_first_gap(line: Seq<char>)
    ensures
        0 <= first_gap(line) <= line.len(),
        first_gap(line) < line.len() ==> first_gap(line) + 1 < line.len(),
    decreases line.len(),
{
    if line.len() >= 2 && !(line[0] == ' ' && line[1] == ' ') {
        lemma_first_gap(line.drop_first());
    }
}

/// The place of the first pair of spaces in a line.
fn find_gap(line: &Vec<char>) -> (gap: usize)
    ensures
        gap == first_gap(line@),
        gap <= line.len(),
        gap < line.len() ==> gap + 1 < line.len(),
{
    let mut i: usize = 0;
    proof {
        lemma_first_gap(line@);
        assert(line@.skip(0) =~= line@);
    }
    while line.len() - i > 1
        invariant
            i <= line.len(),
            first_gap(line@) == i + first_gap(line@.skip(i as int)),
        decreases line.len() - i,
    {
        assert(line@.skip(i as int)[0] == line@[i as int]);
        assert(line@.skip(i as int)[1] == line@[i + 1]);
        if line[i] == ' ' && line[i + 1] == ' ' {
            return i;
        }
        assert(line@.skip(i as int).drop_first() =~= line@.skip(i + 1));
        i += 1;
    }
    proof {
        lemma_first_gap(line@);
    }
    line.len()
}

impl SDEChecksums {
    /// Whether each checksum is text.
    pub open spec fn wf(&self) -> bool {
        all_text(self@)
    }

    /// The text of the checksum of an archive.
    pub open spec fn text(&self, kind: SDEKind) -> Seq<char> {
        decode_utf8(bytes_of(self@, kind))
    }

    /// Whether the checksum of every archive is known.
    pub open spec fn complete(&self) -> bool {
        all_known(self@)
    }

    /// The checksums with `hex` as that of the archive `kind`; nothing where
    /// `hex` does not have 32 bytes.
    pub fn with(self, kind: SDEKind, hex: &str) -> (r: Option<SDEChecksums>)
        requires
            self.wf(),
        ensures
            match r {
                Some(c) => c.wf() && encode_utf8(hex@).len() == 32 && c@ == with_bytes(
                    self@,
                    kind,
                    encode_utf8(hex@),
                ) && c.text(kind) == hex@,
                None => encode_utf8(hex@).len() != 32,
            },
    {
        let bytes = match checksum_bytes(hex) {
            Some(b) => b,
            None => { return None; },
        };
        proof {
            vstd::utf8::encode_utf8_valid_utf8(hex@);
            vstd::utf8::encode_utf8_decode_utf8(hex@);
        }
        let mut c = self;
        match kind {
            SDEKind::FULL => { c.sde = bytes; },
            SDEKind::FSD => { c.fsd = bytes; },
            SDEKind::BSD => { c.bsd = bytes; },
            SDEKind::UNIVERSE => { c.universe = bytes; },
        }
        Some(c)
    }

    /// Whether the checksum of every archive is known.
    pub fn is_complete(&self) -> (b: bool)
        ensures
            b == self.complete(),
    {
        !(is_unknown(&self.sde) || is_unknown(&self.fsd) || is_unknown(&self.bsd) || is_unknown(
            &self.universe,
        ))
    }

    /// Reads the text of a checksum file: on each line a checksum, two
    /// spaces and the name of a file. The checksums of the four archives are
    /// taken, those of other files passed over.
    pub fn parse(checksum_text: &str) -> (r: Option<SDEChecksums>)
        ensures
            match r {
                Some(c) => c.wf() && checksums_of(checksum_text@) == Some(c@),
                None => checksums_of(checksum_text@) is None,
            },
    {
        let lines = crate::lines::lines_of(checksum_text);
        let ghost all = crate::lines::text_lines(checksum_text@);
        let mut sums = SDEChecksums::default();
        let mut i: usize = 0;
        while i < lines.len()
            invariant
                i <= lines.len(),
                lines.len() == all.len(),
                all == crate::lines::text_lines(checksum_text@),
                forall|j: int| 0 <= j < lines.len() ==> (#[trigger] lines@[j])@ == all[j],
                sums.wf(),
                sums_after(all, i as nat) == Some(sums@),
            decreases lines.len() - i,
        {
            let line = &lines[i];
            let gap = find_gap(line);
            if gap >= line.len() {
                proof {
                    lemma_sums_stay_lost(all, (i + 1) as nat, all.len());
                }
                return None;
            }
            let mut hex: Vec<char> = Vec::new();
            let mut k: usize = 0;
            while k < gap
                invariant
                    k <= gap < line.len(),
                    hex@ == line@.take(k as int),
                decreases gap - k,
            {
                hex.push(line[k]);
                k += 1;
            }
            let mut file: Vec<char> = Vec::new();
            let mut f: usize = gap + 2;
            while f < line.len()
                invariant
                    gap + 2 <= f <= line.len(),
                    file@ == line@.subrange(gap + 2, f as int),
                decreases line.len() - f,
            {
                file.push(line[f]);
                f += 1;
            }
            let hex_text = string_of(&hex);
            let name = string_of(&file);
            let kind = if same_text(name.as_str(), "sde.zip") {
                Some(SDEKind::FULL)
            } else if same_text(name.as_str(), "fsd.zip") {
                Some(SDEKind::FSD)
            } else if same_text(name.as_str(), "bsd.zip") {
                Some(SDEKind::BSD)
            } else if same_text(name.as_str(), "universe.zip") {
                Some(SDEKind::UNIVERSE)
            } else {
                None
            };
            match kind {
                Some(kind) => match sums.with(kind, hex_text.as_str()) {
                    Some(next) => {
                        sums = next;
                    },
                    None => {
                        proof {
                            lemma_sums_stay_lost(all, (i + 1) as nat, all.len());
                        }
                        return None;
                    },
                },
                None => {
                    let bytes = hex_text.as_str().as_bytes_vec();
                    if bytes.len() != 32 {
                        proof {
                            lemma_sums_stay_lost(all, (i + 1) as nat, all.len());
                        }
                        return None;
                    }
                },
            }
            i += 1;
        }
        if sums.is_complete() {
            Some(sums)
        } else {
            None
        }
    }

    /// The checksum of the full archive.
    pub fn sde(&self) -> (s: &str)
        requires
            self.wf(),
        ensures
            s@ == self.text(SDEKind::FULL),
    {
        checksum_text(&self.sde)
    }

    /// The checksum of the archive of the dogma and type data.
    pub fn fsd(&self) -> (s: &str)
        requires
            self.wf(),
        ensures
            s@ == self.text(SDEKind::FSD),
    {
        checksum_text(&self.fsd)
    }

    /// The checksum of the archive of the inventory data.
    pub fn bsd(&self) -> (s: &str)
        requires
            self.wf(),
        ensures
            s@ == self.text(SDEKind::BSD),
    {
        checksum_text(&self.bsd)
    }

    /// The checksum of the archive of the universe data.
    pub fn universe(&self) -> (s: &str)
        requires
            self.wf(),
        ensures
            s@ == self.text(SDEKind::UNIVERSE),
    {
        checksum_text(&self.universe)
    }

    /// The checksum of the archive `kind`.
    pub fn get(&self, kind: SDEKind) -> (s: &str)
        requires
            self.wf(),
        ensures
            s@ == self.text(kind),
    {
        match kind {
            SDEKind::FULL => self.sde(),
            SDEKind::FSD => self.fsd(),
            SDEKind::BSD => self.bsd(),
            SDEKind::UNIVERSE => self.universe(),
        }
    }
}

/// Whether the bytes of a checksum are all zero.
fn is_unknown(bytes: &[u8; 32]) -> (b: bool)
    ensures
        b == (bytes@ == unknown()),
{
    let mut i: usize = 0;
    while i < 32
        invariant
            i <= 32,
            forall|j: int| 0 <= j < i ==> bytes@[j] == 0,
        decreases 32 - i,
    {
        if bytes[i] != 0 {
            assert(unknown()[i as int] == 0);
            return false;
        }
        i += 1;
    }
    assert(bytes@ =~= unknown());
    true
}

/// Once a line is malformed, no later line mends the file.
proof fn lemma_sums_stay_lost(lines: Seq<Seq<char>>, n: nat, m: nat)
    requires
        n <= m,
        sums_after(lines, n) is None,
    ensures
        sums_after(lines, m) is None,
    decreases m,
{
    if n < m {
        lemma_sums_stay_lost(lines, n, (m - 1) as nat);
    }
}

/// Whether a local copy of an archive is current: the checksum that was
/// stored beside it is the published one, and the file of the copy exists.
pub fn is_fresh(stored: Option<&str>, published: &str, file_exists: bool) -> (fresh: bool)
    ensures
        fresh == (stored is Some && stored->0@ == published@ && file_exists),
{
    match stored {
        Some(s) => crate::text::same_text(s, published) && file_exists,
        None => false,
    }
}

} // verus!
