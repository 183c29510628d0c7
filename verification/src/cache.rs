//! The index of a shared resource cache: which resources exist, where their
//! files lie and what their content hashes are.

use vstd::prelude::*;
use vstd::hash_map::StringHashMap;
use crate::lines::{blank, fields, fields_of, is_blank, lines_of, number, parse_number, text_lines};
use crate::text::{chars_of, push_str, starts_with, starts_with_spec, string_of};

verus! {

/// What can go wrong when a shared cache is opened or asked for a resource.
#[derive(Debug)]
pub enum CacheError {
    /// A downloading cache was pointed at the directory of a game install.
    DownloadIntoGameInstall,
    /// A reading cache was pointed at a directory that is no game install.
    NotGameInstall,
    /// The game server is marked as protected.
    GameServerProtected,
    /// The index file could not be parsed.
    MalformedIndexFile,
    /// The resource is not known in the shared cache; holds its normalized key.
    ResourceNotFound(String),
}

impl CacheError {
    /// The message of an error.
    pub open spec fn spec_message(&self) -> Seq<char> {
        match *self {
            CacheError::DownloadIntoGameInstall => "CacheDownloader cannot be used on a game install; Use CacheReader instead"@,
            CacheError::NotGameInstall => "CacheReader must be used on the game install `SharedCache` folder"@,
            CacheError::GameServerProtected => "game server is protected"@,
            CacheError::MalformedIndexFile => "malformed index file"@,
            CacheError::ResourceNotFound(k) => "resource not found: `"@ + k@ + "`"@,
        }
    }

    /// The message of this error.
    pub fn message(&self) -> (s: String)
        ensures
            s@ == self.spec_message(),
    {
        match self {
            CacheError::DownloadIntoGameInstall => {
                "CacheDownloader cannot be used on a game install; Use CacheReader instead".to_owned()
            },
            CacheError::NotGameInstall => {
                "CacheReader must be used on the game install `SharedCache` folder".to_owned()
            },
            CacheError::GameServerProtected => "game server is protected".to_owned(),
            CacheError::MalformedIndexFile => "malformed index file".to_owned(),
            CacheError::ResourceNotFound(k) => {
                let mut out: Vec<char> = Vec::new();
                push_str(&mut out, "resource not found: `");
                push_str(&mut out, k.as_str());
                push_str(&mut out, "`");
                assert(out@ =~= "resource not found: `"@ + k@ + "`"@);
                string_of(&out)
            },
        }
    }
}

/// One file of the shared cache as plain values.
pub struct EntryView {
    pub path: Seq<char>,
    pub md5: Seq<char>,
    pub size: u64,
    pub compressed: u64,
}

/// One file of the shared cache.
#[derive(Debug, Clone)]
pub struct IndexEntry {
    /// Where the file lies, below the directory of the cache.
    pub path: String,
    /// The content hash of the file.
    pub md5: String,
    /// The size of the file in bytes.
    pub size: u64,
    /// The size of the file as it is transferred.
    pub compressed: u64,
}

impl View for IndexEntry {
    type V = EntryView;

    open spec fn view(&self) -> EntryView {
        EntryView { path: self.path@, md5: self.md5@, size: self.size, compressed: self.compressed }
    }
}

/// What one line of an index file holds.
pub enum IndexLine {
    /// White space only: the line is passed over.
    Blank,
    /// A resource, by its normalized key, with its file.
    Entry(Seq<char>, EntryView),
    /// Fewer than five fields, or a size that is no number.
    Malformed,
}

/// What the line `line` of an index file holds: the key of the resource,
/// the path, the content hash, the size and the transferred size, with
/// commas between them; what follows a fifth comma is not read.
pub open spec fn index_line(line: Seq<char>) -> IndexLine {
    if is_blank(line) {
        IndexLine::Blank
    } else {
        match fields(line, ',', 5) {
            None => IndexLine::Malformed,
            Some(f) => match (number(f[3]), number(f[4])) {
                (Some(size), Some(compressed)) => IndexLine::Entry(
                    normalize(f[0]),
                    EntryView { path: f[1], md5: f[2], size, compressed },
                ),
                _ => IndexLine::Malformed,
            },
        }
    }
}

/// The resources of an index after the first `n` of `lines` were read into
/// it, a later line in place of an earlier one for the same resource.
pub open spec fn loaded(start: Map<Seq<char>, EntryView>, lines: Seq<Seq<char>>, n: nat) -> Map<
    Seq<char>,
    EntryView,
>
    decreases n,
{
    if n == 0 {
        start
    } else {
        let before = loaded(start, lines, (n - 1) as nat);
        match index_line(lines[n - 1]) {
            IndexLine::Entry(key, entry) => before.insert(key, entry),
            _ => before,
        }
    }
}

/// Whether none of the first `n` lines is malformed.
pub open spec fn readable(lines: Seq<Seq<char>>, n: nat) -> bool {
    forall|i: int| 0 <= i < n ==> !(index_line(#[trigger] lines[i]) is Malformed)
}

impl IndexEntry {
    /// Reads the text of an index file into `index`, line by line. A
    /// malformed line ends the reading: the lines before it are in the index
    /// then.
    pub fn load_index(index_text: &str, index: &mut ResourceIndex) -> (r: Result<(), CacheError>)
        ensures
            match r {
                Ok(()) => {
                    let lines = text_lines(index_text@);
                    readable(lines, lines.len()) && final(index).entries() == loaded(
                        old(index).entries(),
                        lines,
                        lines.len(),
                    )
                },
                Err(CacheError::MalformedIndexFile) => {
                    let lines = text_lines(index_text@);
                    exists|k: int|
                        0 <= k < lines.len() && readable(lines, k as nat) && index_line(
                            #[trigger] lines[k],
                        ) is Malformed && final(index).entries() == loaded(
                            old(index).entries(),
                            lines,
                            k as nat,
                        )
                },
                Err(_) => false,
            },
    {
        let lines = lines_of(index_text);
        let ghost all = text_lines(index_text@);
        let mut i: usize = 0;
        while i < lines.len()
            invariant
                i <= lines.len(),
                lines.len() == all.len(),
                all == text_lines(index_text@),
                forall|j: int| 0 <= j < lines.len() ==> (#[trigger] lines@[j])@ == all[j],
                readable(all, i as nat),
                index.entries() == loaded(old(index).entries(), all, i as nat),
            decreases lines.len() - i,
        {
            let line = &lines[i];
            if !blank(line) {
                let parts = match fields_of(line, ',', 5) {
                    Some(parts) => parts,
                    None => { return Err(CacheError::MalformedIndexFile); },
                };
                let size = match parse_number(&parts[3]) {
                    Some(n) => n,
                    None => { return Err(CacheError::MalformedIndexFile); },
                };
                let compressed = match parse_number(&parts[4]) {
                    Some(n) => n,
                    None => { return Err(CacheError::MalformedIndexFile); },
                };
                let resource = string_of(&parts[0]);
                let entry = IndexEntry {
                    path: string_of(&parts[1]),
                    md5: string_of(&parts[2]),
                    size,
                    compressed,
                };
                index.insert(resource.as_str(), entry);
            }
            i += 1;
        }
        Ok(())
    }
}

/// The form under which one character of a resource key is stored: ASCII
/// capitals in lower case, a backslash as a slash.
pub open spec fn normalize_char(c: char) -> char {
    if c == '\\' {
        '/'
    } else if 'A' <= c <= 'Z' {
        ((c as u8) + 32) as char
    } else {
        c
    }
}

/// The form under which a resource key is stored in an index.
pub open spec fn normalize(key: Seq<char>) -> Seq<char> {
    key.map_values(|c: char| normalize_char(c))
}

/// The stored form of the resource key `key`.
pub fn normalized(key: &str) -> (s: String)
    ensures
        s@ == normalize(key@),
{
    let src = chars_of(key);
    let mut out: Vec<char> = Vec::new();
    let mut i: usize = 0;
    while i < src.len()
        invariant
            i <= src.len(),
            out@ == normalize(src@.take(i as int)),
        decreases src.len() - i,
    {
        let c = src[i];
        let n = if c == '\\' {
            '/'
        } else if 'A' <= c && c <= 'Z' {
            ((c as u8) + 32u8) as char
        } else {
            c
        };
        out.push(n);
        i += 1;
    }
    string_of(&out)
}

/// The resources of a shared cache, by normalized key.
pub struct ResourceIndex {
    entries: StringHashMap<IndexEntry>,
    keys: Vec<String>,
}

impl View for ResourceIndex {
    type V = Map<Seq<char>, IndexEntry>;

    closed spec fn view(&self) -> Map<Seq<char>, IndexEntry> {
        self.entries@
    }
}

impl ResourceIndex {
    /// The content hashes of the resources, by normalized key.
    pub open spec fn hashes(&self) -> Map<Seq<char>, Seq<char>> {
        Map::new(|k: Seq<char>| self@.contains_key(k), |k: Seq<char>| self@[k].md5@)
    }

    /// The files of the resources, by normalized key, as plain values.
    pub open spec fn entries(&self) -> Map<Seq<char>, EntryView> {
        Map::new(|k: Seq<char>| self@.contains_key(k), |k: Seq<char>| self@[k]@)
    }

    /// Whether the index knows the resource `key`.
    pub open spec fn has(&self, key: Seq<char>) -> bool {
        self@.contains_key(normalize(key))
    }

    /// The normalized keys of the resources, each once, in the order in
    /// which the index first got them.
    pub closed spec fn listed(&self) -> Seq<Seq<char>> {
        crate::text::views(self.keys@)
    }

    /// Whether the list of the keys is in step with the index: it holds the
    /// key of each resource once, and nothing else.
    pub open spec fn in_step(&self) -> bool {
        &&& self.listed().no_duplicates()
        &&& forall|k: Seq<char>| self.listed().contains(k) <==> self@.contains_key(k)
    }

    /// An index without resources.
    pub fn new() -> (index: Self)
        ensures
            index@ == Map::<Seq<char>, IndexEntry>::empty(),
            index.listed() == Seq::<Seq<char>>::empty(),
            index.in_step(),
    {
        let index = ResourceIndex { entries: StringHashMap::new(), keys: Vec::new() };
        index
    }

    /// Records `entry` for `resource`, in place of what the index held for it.
    pub fn insert(&mut self, resource: &str, entry: IndexEntry)
        ensures
            final(self)@ == old(self)@.insert(normalize(resource@), entry),
            final(self).listed() == if old(self)@.contains_key(normalize(resource@)) {
                old(self).listed()
            } else {
                old(self).listed().push(normalize(resource@))
            },
            old(self).in_step() ==> final(self).in_step(),
    {
        let key = normalized(resource);
        if !self.entries.contains_key(key.as_str()) {
            let ghost before = self.listed();
            self.keys.push(key.clone());
            assert(self.listed() =~= before.push(key@));
            proof {
                if old(self).in_step() {
                    assert(!before.contains(key@));
                    assert forall|i: int, j: int|
                        0 <= i < self.listed().len() && 0 <= j < self.listed().len() && i != j implies self.listed()[i]
                        != self.listed()[j] by {
                        if i < before.len() {
                            assert(before.contains(self.listed()[i]));
                        }
                        if j < before.len() {
                            assert(before.contains(self.listed()[j]));
                        }
                    }
                    assert forall|k: Seq<char>| self.listed().contains(k) <==> (before.contains(k) || k
                        == key@) by {
                        if before.contains(k) {
                            let i = choose|i: int| 0 <= i < before.len() && before[i] == k;
                            assert(self.listed()[i] == k);
                        }
                        if k == key@ {
                            assert(self.listed()[before.len() as int] == k);
                        }
                    }
                }
            }
        }
        let ghost name = key@;
        self.entries.insert(key, entry);
        proof {
            if old(self).in_step() {
                assert forall|k: Seq<char>| self.listed().contains(k) <==> self@.contains_key(k) by {
                    if old(self)@.contains_key(name) {
                        assert(old(self).listed().contains(name));
                    } else {
                        assert(self.listed().contains(k) <==> (old(self).listed().contains(k) || k
                            == name));
                    }
                }
            }
        }
    }

    /// The number of resources that the list of keys holds.
    pub fn resource_count(&self) -> (n: usize)
        ensures
            n == self.listed().len(),
    {
        self.keys.len()
    }

    /// The normalized key at place `i` of the list of keys.
    pub fn resource_at(&self, i: usize) -> (key: &str)
        requires
            i < self.listed().len(),
        ensures
            key@ == self.listed()[i as int],
    {
        self.keys[i].as_str()
    }

    /// Whether the resource is listed in the index.
    pub fn has_resource(&self, resource: &str) -> (b: bool)
        ensures
            b == self.has(resource@),
    {
        let key = normalized(resource);
        self.entries.contains_key(key.as_str())
    }

    /// The entry of a resource.
    pub fn entry_of(&self, resource: &str) -> (r: Result<&IndexEntry, CacheError>)
        ensures
            match r {
                Ok(entry) => self.has(resource@) && *entry == self@[normalize(resource@)],
                Err(CacheError::ResourceNotFound(key)) => !self.has(resource@) && key@ == normalize(
                    resource@,
                ),
                Err(_) => false,
            },
    {
        let key = normalized(resource);
        match self.entries.get(key.as_str()) {
            Some(entry) => Ok(entry),
            None => Err(CacheError::ResourceNotFound(key)),
        }
    }

    /// The content hash of a resource.
    pub fn hash_of(&self, resource: &str) -> (r: Result<&str, CacheError>)
        ensures
            match r {
                Ok(hash) => self.has(resource@) && hash@ == self.hashes()[normalize(resource@)],
                Err(CacheError::ResourceNotFound(key)) => !self.has(resource@) && key@ == normalize(
                    resource@,
                ),
                Err(_) => false,
            },
    {
        match self.entry_of(resource) {
            Ok(entry) => Ok(entry.md5.as_str()),
            Err(e) => Err(e),
        }
    }
}

/// The client version that the lines of a start file give: what follows
/// `build = ` on the first line that starts with it.
pub open spec fn client_version_of(lines: Seq<Seq<char>>) -> Option<Seq<char>>
    decreases lines.len(),
{
    if lines.len() == 0 {
        None
    } else if starts_with_spec(lines[0], "build = "@) {
        Some(lines[0].skip("build = "@.len() as int))
    } else {
        client_version_of(lines.drop_first())
    }
}

/// The client version that the start file of a game install gives. A start
/// file without one is not that of a game install.
pub fn read_client_version(start_ini: &str) -> (r: Result<String, CacheError>)
    ensures
        match r {
            Ok(version) => client_version_of(text_lines(start_ini@)) == Some(version@),
            Err(CacheError::NotGameInstall) => client_version_of(text_lines(start_ini@)) is None,
            Err(_) => false,
        },
{
    let lines = lines_of(start_ini);
    let prefix = chars_of("build = ");
    let ghost all = text_lines(start_ini@);
    let mut i: usize = 0;
    assert(all.skip(0) =~= all);
    while i < lines.len()
        invariant
            i <= lines.len(),
            lines.len() == all.len(),
            prefix@ == "build = "@,
            all == text_lines(start_ini@),
            forall|j: int| 0 <= j < lines.len() ==> (#[trigger] lines@[j])@ == all[j],
            client_version_of(all) == client_version_of(all.skip(i as int)),
        decreases lines.len() - i,
    {
        let line = &lines[i];
        assert(all.skip(i as int)[0] == line@);
        if starts_with(line, &prefix) {
            let mut version: Vec<char> = Vec::new();
            let mut k: usize = prefix.len();
            while k < line.len()
                invariant
                    prefix.len() <= k <= line.len(),
                    version@ == line@.subrange(prefix.len() as int, k as int),
                decreases line.len() - k,
            {
                version.push(line[k]);
                assert(version@ =~= line@.subrange(prefix.len() as int, k + 1));
                k += 1;
            }
            assert(version@ =~= line@.skip(prefix.len() as int));
            return Ok(string_of(&version));
        }
        assert(all.skip(i as int).drop_first() =~= all.skip(i + 1));
        i += 1;
    }
    Err(CacheError::NotGameInstall)
}

/// The shared cache of a game install: its resource directory, the version
/// of the client and the index of its resources.
pub struct CacheReader {
    res_dir: String,
    client_version: String,
    index: ResourceIndex,
}

impl CacheReader {
    /// The directory below which the files lie.
    pub closed spec fn spec_res_dir(&self) -> Seq<char> {
        self.res_dir@
    }

    /// The version of the client.
    pub closed spec fn spec_client_version(&self) -> Seq<char> {
        self.client_version@
    }

    /// The index of the resources.
    pub closed spec fn spec_index(&self) -> ResourceIndex {
        self.index
    }

    /// The cache of the game install whose files lie below `res_dir`, whose
    /// start file has the text `start_ini` and whose resources `index`
    /// lists.
    pub fn new(res_dir: &str, start_ini: &str, index: ResourceIndex) -> (r: Result<
        CacheReader,
        CacheError,
    >)
        ensures
            match r {
                Ok(reader) => client_version_of(text_lines(start_ini@)) == Some(
                    reader.spec_client_version(),
                ) && reader.spec_res_dir() == res_dir@ && reader.spec_index() == index,
                Err(CacheError::NotGameInstall) => client_version_of(text_lines(start_ini@)) is None,
                Err(_) => false,
            },
    {
        match read_client_version(start_ini) {
            Ok(client_version) => Ok(CacheReader { res_dir: res_dir.to_owned(), client_version, index }),
            Err(e) => Err(e),
        }
    }

    /// The directory below which the files lie.
    pub fn res_dir(&self) -> (s: &str)
        ensures
            s@ == self.spec_res_dir(),
    {
        self.res_dir.as_str()
    }

    /// The version of the client.
    pub fn client_version(&self) -> (s: &str)
        ensures
            s@ == self.spec_client_version(),
    {
        self.client_version.as_str()
    }

    /// The index of the resources.
    pub fn index(&self) -> (index: &ResourceIndex)
        ensures
            *index == self.spec_index(),
    {
        &self.index
    }

    /// Whether the resource is listed in the index.
    pub fn has_resource(&self, resource: &str) -> (b: bool)
        ensures
            b == self.spec_index().has(resource@),
    {
        self.index.has_resource(resource)
    }

    /// The content hash of a resource.
    pub fn hash_of(&self, resource: &str) -> (r: Result<&str, CacheError>)
        ensures
            match r {
                Ok(hash) => self.spec_index().has(resource@) && hash@
                    == self.spec_index().hashes()[normalize(resource@)],
                Err(CacheError::ResourceNotFound(key)) => !self.spec_index().has(resource@) && key@
                    == normalize(resource@),
                Err(_) => false,
            },
    {
        self.index.hash_of(resource)
    }
}

/// Where the files of the game client are published.
pub const BINARIES_URL: &'static str = "https://binaries.eveonline.com/";

/// Where the resource files of the game are published.
pub const RESOURCES_URL: &'static str = "https://resources.eveonline.com/";

/// Which of the two indices of a downloading cache lists a resource.
#[derive(Debug, Clone, Copy, PartialEq, Eq, Structural)]
pub enum Origin {
    /// The index of the client's own files.
    App,
    /// The index of the resource files.
    Res,
}

/// Checks the directory of a downloading cache: it must not be that of a
/// game install, which holds the updater or the directory of the server.
pub fn check_download_directory(has_updater: bool, has_server_directory: bool) -> (r: Result<
    (),
    CacheError,
>)
    ensures
        match r {
            Ok(()) => !has_updater && !has_server_directory,
            Err(CacheError::DownloadIntoGameInstall) => has_updater || has_server_directory,
            Err(_) => false,
        },
{
    if has_updater || has_server_directory {
        Err(CacheError::DownloadIntoGameInstall)
    } else {
        Ok(())
    }
}

/// Checks what the server says of itself: a server that is marked as
/// protected gives no files.
pub fn check_server(protected: Option<bool>) -> (r: Result<(), CacheError>)
    ensures
        match r {
            Ok(()) => protected != Some(true),
            Err(CacheError::GameServerProtected) => protected == Some(true),
            Err(_) => false,
        },
{
    match protected {
        Some(true) => Err(CacheError::GameServerProtected),
        _ => Ok(()),
    }
}

/// The name of the index file of the client version `client_version`.
pub open spec fn index_file_name_spec(client_version: Seq<char>) -> Seq<char> {
    "eveonline_"@ + client_version + ".txt"@
}

/// The name of the index file of a client version.
pub fn index_file_name(client_version: &str) -> (s: String)
    ensures
        s@ == index_file_name_spec(client_version@),
{
    let mut out: Vec<char> = Vec::new();
    push_str(&mut out, "eveonline_");
    push_str(&mut out, client_version);
    push_str(&mut out, ".txt");
    string_of(&out)
}

/// Where the index file of a client version is published, for the build
/// for macOS or the one for Windows.
pub fn index_url(client_version: &str, use_macos_build: bool) -> (s: String)
    ensures
        s@ == BINARIES_URL@ + (if use_macos_build {
            "eveonlinemacOS_"@
        } else {
            "eveonline_"@
        }) + client_version@ + ".txt"@,
{
    let mut out: Vec<char> = Vec::new();
    push_str(&mut out, BINARIES_URL);
    if use_macos_build {
        push_str(&mut out, "eveonlinemacOS_");
    } else {
        push_str(&mut out, "eveonline_");
    }
    push_str(&mut out, client_version);
    push_str(&mut out, ".txt");
    assert(out@ =~= BINARIES_URL@ + (if use_macos_build {
        "eveonlinemacOS_"@
    } else {
        "eveonline_"@
    }) + client_version@ + ".txt"@);
    string_of(&out)
}

/// Where the file with the path `path` is published.
pub fn file_url(origin: Origin, path: &str) -> (s: String)
    ensures
        s@ == (match origin {
            Origin::App => BINARIES_URL@,
            Origin::Res => RESOURCES_URL@,
        }) + path@,
{
    let mut out: Vec<char> = Vec::new();
    match origin {
        Origin::App => push_str(&mut out, BINARIES_URL),
        Origin::Res => push_str(&mut out, RESOURCES_URL),
    }
    push_str(&mut out, path);
    assert(out@ =~= (match origin {
        Origin::App => BINARIES_URL@,
        Origin::Res => RESOURCES_URL@,
    }) + path@);
    string_of(&out)
}

/// Finds a resource in the two indices of a downloading cache, the index of
/// the client's own files first.
pub fn locate<'a>(app_index: &'a ResourceIndex, res_index: &'a ResourceIndex, resource: &str) -> (r:
    Result<(Origin, &'a IndexEntry), CacheError>)
    ensures
        match r {
            Ok((Origin::App, entry)) => app_index.has(resource@) && *entry
                == app_index@[normalize(resource@)],
            Ok((Origin::Res, entry)) => !app_index.has(resource@) && res_index.has(resource@)
                && *entry == res_index@[normalize(resource@)],
            Err(CacheError::ResourceNotFound(key)) => !app_index.has(resource@) && !res_index.has(
                resource@,
            ) && key@ == normalize(resource@),
            Err(_) => false,
        },
{
    match app_index.entry_of(resource) {
        Ok(entry) => Ok((Origin::App, entry)),
        Err(_) => match res_index.entry_of(resource) {
            Ok(entry) => Ok((Origin::Res, entry)),
            Err(e) => Err(e),
        },
    }
}

/// A text with its ASCII capitals in lower case.
pub open spec fn lowercase(s: Seq<char>) -> Seq<char> {
    s.map_values(
        |c: char|
            if 'A' <= c <= 'Z' {
                ((c as u8) + 32) as char
            } else {
                c
            },
    )
}

/// The path of a cached file as the indices write it: the name of its
/// directory, a slash and the name of the file, in lower case.
pub open spec fn cached_path(directory: Seq<char>, file: Seq<char>) -> Seq<char> {
    lowercase(directory + seq!['/'] + file)
}

/// The path of a cached file as the indices write it.
pub fn cached_file_path(directory: &str, file: &str) -> (s: String)
    ensures
        s@ == cached_path(directory@, file@),
{
    let mut full: Vec<char> = Vec::new();
    push_str(&mut full, directory);
    full.push('/');
    push_str(&mut full, file);
    let mut out: Vec<char> = Vec::new();
    let mut i: usize = 0;
    while i < full.len()
        invariant
            i <= full.len(),
            out@ == lowercase(full@.take(i as int)),
        decreases full.len() - i,
    {
        let c = full[i];
        let n = if 'A' <= c && c <= 'Z' {
            ((c as u8) + 32u8) as char
        } else {
            c
        };
        out.push(n);
        i += 1;
    }
    string_of(&out)
}

/// Whether a purge keeps a file that lies directly in the directory of the
/// cache: the index file of the client version, and the files that the
/// caller names.
pub fn keeps_top_level(name: &str, client_version: &str, keep_files: &Vec<String>) -> (keep: bool)
    ensures
        keep == (name@ == index_file_name_spec(client_version@) || exists|i: int|
            0 <= i < keep_files.len() && (#[trigger] keep_files@[i])@ == name@),
{
    let index_name = index_file_name(client_version);
    if crate::text::same_text(name, index_name.as_str()) {
        return true;
    }
    let mut i: usize = 0;
    while i < keep_files.len()
        invariant
            i <= keep_files.len(),
            forall|j: int| 0 <= j < i ==> (#[trigger] keep_files@[j])@ != name@,
        decreases keep_files.len() - i,
    {
        if crate::text::same_text(keep_files[i].as_str(), name) {
            return true;
        }
        i += 1;
    }
    false
}

} // verus!
