//! File identifiers, cached files and the file cache.
//!
//! Virtual paths are normalised and resolved by `typst`'s `VirtualPath`, and
//! bytes are checked to be UTF-8 by std. Verus does not see that code: the
//! five items at the top of this file state what this crate relies on.

use vstd::prelude::*;
use vstd::string::*;
use vstd::utf8::*;
use crate::fetch::{PackageError, PackageErrorView};
use crate::package::{CoordinateView, PackageCoordinate};
use crate::text::{strip_marks, without_marks};

verus! {

/// The normal form that `typst::syntax::VirtualPath::new` gives to a path, as
/// its rooted path reads. `VirtualPath` splits a path as `std::path` does, by
/// the separators of the platform: the name stands for the result on the
/// platform that the crate is built for.
pub uninterp spec fn normalized_path(path: Seq<char>) -> Seq<char>;

/// The place of the virtual path `vpath` below the directory `root`, as
/// `typst::syntax::VirtualPath::resolve` gives it: `None` where the path
/// leaves the root. Like [`normalized_path`], it stands for the result on the
/// platform that the crate is built for.
pub uninterp spec fn resolved_path(vpath: Seq<char>, root: Seq<char>) -> Option<Seq<char>>;

/// Calls `typst::syntax::VirtualPath::new` and returns the rooted path as
/// text. The contract claims that the result is a function of the path alone,
/// named [`normalized_path`].
#[verifier::external_body]
fn normalize_path(path: &str) -> (normal: String)
    ensures
        normal@ == normalized_path(path@),
{
    typst::syntax::VirtualPath::new(path).as_rooted_path().to_string_lossy().into_owned()
}

/// Calls `typst::syntax::VirtualPath::resolve` on the virtual path made of
/// `vpath`, with the directory `root`. The contract claims that the result is
/// a function of the two paths alone, named [`resolved_path`].
#[verifier::external_body]
fn resolve_path(vpath: &str, root: &str) -> (place: Option<String>)
    ensures
        match place {
            Some(p) => resolved_path(vpath@, root@) == Some(p@),
            None => resolved_path(vpath@, root@) is None,
        },
{
    let path = typst::syntax::VirtualPath::new(vpath).resolve(std::path::Path::new(root));
    path.map(|p| p.to_string_lossy().into_owned())
}

/// Calls `std::str::from_utf8`. The contract claims that it accepts exactly
/// the byte sequences that are valid UTF-8, and that the text it returns is
/// made of the bytes given.
#[verifier::external_body]
fn text_of_bytes(bytes: &[u8]) -> (text: Option<&str>)
    ensures
        match text {
            Some(t) => valid_utf8(bytes@) && t.spec_bytes() == bytes@,
            None => !valid_utf8(bytes@),
        },
{
    std::str::from_utf8(bytes).ok()
}

/// Why a file could not be had.
#[derive(Debug, PartialEq, Eq)]
pub enum FileError {
    /// No file at this path.
    NotFound(String),
    /// The file may not be read, or its path leaves the root.
    AccessDenied,
    /// There is a directory where a file was expected.
    IsDirectory,
    /// The file is no source, and a source was asked for.
    NotSource,
    /// The file is no UTF-8 text, and text was asked for.
    InvalidUtf8,
    /// The package that holds the file could not be had.
    Package(PackageError),
    /// Reading failed for another reason, with its message where there is one.
    Other(Option<String>),
}

/// The mathematical value of a [`FileError`].
pub enum FileErrorView {
    NotFound(Seq<char>),
    AccessDenied,
    IsDirectory,
    NotSource,
    InvalidUtf8,
    Package(PackageErrorView),
    Other(Option<Seq<char>>),
}

impl View for FileError {
    type V = FileErrorView;

    open spec fn view(&self) -> FileErrorView {
        match self {
            FileError::NotFound(path) => FileErrorView::NotFound(path@),
            FileError::AccessDenied => FileErrorView::AccessDenied,
            FileError::IsDirectory => FileErrorView::IsDirectory,
            FileError::NotSource => FileErrorView::NotSource,
            FileError::InvalidUtf8 => FileErrorView::InvalidUtf8,
            FileError::Package(e) => FileErrorView::Package(e@),
            FileError::Other(Some(reason)) => FileErrorView::Other(Some(reason@)),
            FileError::Other(None) => FileErrorView::Other(None),
        }
    }
}

/// Names one file: a path in the virtual file system of the project, or of a
/// package.
#[derive(Debug, PartialEq, Eq)]
pub struct FileId {
    package: Option<PackageCoordinate>,
    vpath: String,
}

/// The mathematical value of a [`FileId`].
pub struct FileIdView {
    pub package: Option<CoordinateView>,
    pub vpath: Seq<char>,
}

impl View for FileId {
    type V = FileIdView;

    closed spec fn view(&self) -> FileIdView {
        FileIdView {
            package: match self.package {
                Some(c) => Some(c@),
                None => None,
            },
            vpath: self.vpath@,
        }
    }
}

impl Clone for FileId {
    fn clone(&self) -> (copy: Self)
        ensures
            copy@ == self@,
    {
        FileId {
            package: match &self.package {
                Some(c) => Some(c.clone()),
                None => None,
            },
            vpath: self.vpath.clone(),
        }
    }
}

impl FileId {
    /// The identifier of the file at `path` in `package`, or in the project
    /// where `package` is `None`. The path is brought to its normal form.
    pub fn new(package: Option<PackageCoordinate>, path: &str) -> (id: FileId)
        ensures
            id@ == (FileIdView {
                package: match package {
                    Some(c) => Some(c@),
                    None => None,
                },
                vpath: normalized_path(path@),
            }),
    {
        FileId { package, vpath: normalize_path(path) }
    }

    /// The package that holds the file, if one does.
    pub fn package(&self) -> (package: Option<&PackageCoordinate>)
        ensures
            match package {
                Some(c) => self@.package == Some(c@),
                None => self@.package is None,
            },
    {
        self.package.as_ref()
    }

    /// The path of the file, in its normal form.
    pub fn vpath(&self) -> (vpath: &str)
        ensures
            vpath@ == self@.vpath,
    {
        self.vpath.as_str()
    }

    /// Whether two identifiers name the same file.
    pub fn same(&self, other: &FileId) -> (eq: bool)
        ensures
            eq == (self@ == other@),
    {
        let packages = match (&self.package, &other.package) {
            (Some(a), Some(b)) => a.same(b),
            (None, None) => true,
            _ => false,
        };
        packages && self.vpath == other.vpath
    }

    /// The place of the file below the directory `root`, or `None` where its
    /// path leaves the root.
    pub fn resolve(&self, root: &str) -> (place: Option<String>)
        ensures
            match place {
                Some(p) => resolved_path(self@.vpath, root@) == Some(p@),
                None => resolved_path(self@.vpath, root@) is None,
            },
    {
        resolve_path(self.vpath.as_str(), root)
    }
}

/// A file as text: the parsed form of a file, as far as this crate reads it.
#[derive(Debug, PartialEq, Eq)]
pub struct Source {
    id: FileId,
    text: String,
}

/// The mathematical value of a [`Source`].
pub struct SourceView {
    pub id: FileIdView,
    pub text: Seq<char>,
}

impl View for Source {
    type V = SourceView;

    closed spec fn view(&self) -> SourceView {
        SourceView { id: self.id@, text: self.text@ }
    }
}

impl Clone for Source {
    fn clone(&self) -> (copy: Self)
        ensures
            copy@ == self@,
    {
        Source { id: self.id.clone(), text: self.text.clone() }
    }
}

/// The path under which a source without a file of its own goes.
pub open spec fn detached_path() -> Seq<char> {
    normalized_path("main.typ"@)
}

impl Source {
    /// The source with this identifier and text.
    pub fn new(id: FileId, text: String) -> (source: Source)
        ensures
            source@ == (SourceView { id: id@, text: text@ }),
    {
        Source { id, text }
    }

    /// A source that no file backs: the main document of a compilation. It
    /// goes under the path `main.typ` of the project.
    pub fn detached(text: String) -> (source: Source)
        ensures
            source@ == (SourceView {
                id: FileIdView { package: None, vpath: detached_path() },
                text: text@,
            }),
    {
        Source { id: FileId::new(None, "main.typ"), text }
    }

    /// The identifier of the source.
    pub fn id(&self) -> (id: &FileId)
        ensures
            id@ == self@.id,
    {
        &self.id
    }

    /// The text of the source.
    pub fn text(&self) -> (text: &str)
        ensures
            text@ == self@.text,
    {
        self.text.as_str()
    }
}

/// A cached file: its bytes and, once it was asked for, its parsed form.
#[derive(Debug, PartialEq, Eq)]
pub struct FileEntry {
    bytes: Vec<u8>,
    source: Option<Source>,
}

/// The mathematical value of a [`FileEntry`].
pub struct FileEntryView {
    pub bytes: Seq<u8>,
    pub source: Option<SourceView>,
}

impl View for FileEntry {
    type V = FileEntryView;

    closed spec fn view(&self) -> FileEntryView {
        FileEntryView {
            bytes: self.bytes@,
            source: match self.source {
                Some(s) => Some(s@),
                None => None,
            },
        }
    }
}

impl Clone for FileEntry {
    fn clone(&self) -> (copy: Self)
        ensures
            copy@ == self@,
    {
        let bytes = self.bytes.clone();
        assert(bytes@ =~= self.bytes@);
        FileEntry {
            bytes,
            source: match &self.source {
                Some(s) => Some(s.clone()),
                None => None,
            },
        }
    }
}

/// The text that the bytes of a file stand for: the bytes decoded as UTF-8,
/// without byte order marks at the start. `None` where the bytes are not
/// UTF-8.
pub open spec fn text_of(bytes: Seq<u8>) -> Option<Seq<char>> {
    if valid_utf8(bytes) {
        Some(without_marks(decode_utf8(bytes)))
    } else {
        None
    }
}

/// What asking an entry for its source gives, and the entry afterwards: the
/// parsed form that the entry holds, or else the one made of its bytes, which
/// the entry then holds.
pub open spec fn source_of_entry(entry: FileEntryView, id: FileIdView) -> (
    Result<SourceView, FileErrorView>,
    FileEntryView,
) {
    match entry.source {
        Some(s) => (Ok(s), entry),
        None => match text_of(entry.bytes) {
            Some(text) => {
                let s = SourceView { id, text };
                (Ok(s), FileEntryView { bytes: entry.bytes, source: Some(s) })
            },
            None => (Err(FileErrorView::InvalidUtf8), entry),
        },
    }
}

/// The view of a result that holds a source.
pub open spec fn source_result_view(r: Result<Source, FileError>) -> Result<
    SourceView,
    FileErrorView,
> {
    match r {
        Ok(s) => Ok(s@),
        Err(e) => Err(e@),
    }
}

impl FileEntry {
    /// An entry with these bytes and, where it is known already, this parsed
    /// form.
    pub fn new(bytes: Vec<u8>, source: Option<Source>) -> (entry: FileEntry)
        ensures
            entry@ == (FileEntryView {
                bytes: bytes@,
                source: match source {
                    Some(s) => Some(s@),
                    None => None,
                },
            }),
    {
        FileEntry { bytes, source }
    }

    /// The bytes of the file.
    pub fn bytes(&self) -> (bytes: &Vec<u8>)
        ensures
            bytes@ == self@.bytes,
    {
        &self.bytes
    }

    /// The file as a source. The first call parses the bytes and keeps the
    /// result in the entry; later calls return what was kept. Bytes that are
    /// not UTF-8 give `InvalidUtf8`, and nothing is kept.
    pub fn source(&mut self, id: FileId) -> (r: Result<Source, FileError>)
        ensures
            (source_result_view(r), final(self)@) == source_of_entry(old(self)@, id@),
    {
        if let Some(source) = &self.source {
            return Ok(source.clone());
        }
        match text_of_bytes(self.bytes.as_slice()) {
            Some(contents) => {
                proof {
                    encode_utf8_decode_utf8(contents@);
                }
                let contents = strip_marks(contents);
                let source = Source::new(id, String::from_str(contents));
                self.source = Some(source.clone());
                Ok(source)
            },
            None => Err(FileError::InvalidUtf8),
        }
    }
}

/// One file in the cache.
#[derive(Debug, PartialEq, Eq)]
struct Slot {
    id: FileId,
    entry: FileEntry,
}

/// The file cache: the files known so far, by identifier. It grows and never
/// evicts. The files are kept in a vector that is searched by the value of the
/// identifier, so that every lookup can be followed in the proofs; to its
/// users the cache is the map that its view is.
#[derive(Debug, PartialEq, Eq)]
pub struct FileCache {
    slots: Vec<Slot>,
}

/// The map that a sequence of slots stands for: a later slot prevails over an
/// earlier one with the same identifier.
spec fn map_of(slots: Seq<Slot>) -> Map<FileIdView, FileEntryView>
    decreases slots.len(),
{
    if slots.len() == 0 {
        Map::empty()
    } else {
        map_of(slots.drop_last()).insert(slots.last().id@, slots.last().entry@)
    }
}

proof fn lemma_absent(slots: Seq<Slot>, k: FileIdView)
    requires
        forall|j: int| 0 <= j < slots.len() ==> slots[j].id@ != k,
    ensures
        !map_of(slots).contains_key(k),
    decreases slots.len(),
{
    if slots.len() > 0 {
        lemma_absent(slots.drop_last(), k);
    }
}

proof fn lemma_last_match(slots: Seq<Slot>, i: int, k: FileIdView)
    requires
        0 <= i < slots.len(),
        slots[i].id@ == k,
        forall|j: int| i < j < slots.len() ==> slots[j].id@ != k,
    ensures
        map_of(slots).contains_key(k),
        map_of(slots)[k] == slots[i].entry@,
    decreases slots.len(),
{
    if i < slots.len() - 1 {
        lemma_last_match(slots.drop_last(), i, k);
    }
}

proof fn lemma_update(slots: Seq<Slot>, i: int, slot: Slot)
    requires
        0 <= i < slots.len(),
        slots[i].id@ == slot.id@,
        forall|j: int| i < j < slots.len() ==> slots[j].id@ != slot.id@,
    ensures
        map_of(slots.update(i, slot)) =~= map_of(slots).insert(slot.id@, slot.entry@),
    decreases slots.len(),
{
    let updated = slots.update(i, slot);
    if i < slots.len() - 1 {
        lemma_update(slots.drop_last(), i, slot);
        assert(updated.drop_last() =~= slots.drop_last().update(i, slot));
        assert(updated.last() == slots.last());
    } else {
        assert(updated.drop_last() =~= slots.drop_last());
    }
}

impl View for FileCache {
    type V = Map<FileIdView, FileEntryView>;

    closed spec fn view(&self) -> Map<FileIdView, FileEntryView> {
        map_of(self.slots@)
    }
}

impl FileCache {
    /// A cache that holds nothing.
    pub fn new() -> (cache: FileCache)
        ensures
            cache@ == Map::<FileIdView, FileEntryView>::empty(),
    {
        FileCache { slots: Vec::new() }
    }

    fn position(&self, id: &FileId) -> (at: Option<usize>)
        ensures
            match at {
                Some(i) => {
                    &&& i < self.slots@.len()
                    &&& self.slots@[i as int].id@ == id@
                    &&& forall|j: int| i < j < self.slots@.len() ==> self.slots@[j].id@ != id@
                    &&& self@.contains_key(id@)
                    &&& self@[id@] == self.slots@[i as int].entry@
                },
                None => !self@.contains_key(id@),
            },
    {
        let mut i: usize = self.slots.len();
        while i > 0
            invariant
                i <= self.slots@.len(),
                forall|j: int| i <= j < self.slots@.len() ==> self.slots@[j].id@ != id@,
            decreases i,
        {
            i -= 1;
            if self.slots[i].id.same(id) {
                proof {
                    lemma_last_match(self.slots@, i as int, id@);
                }
                return Some(i);
            }
        }
        proof {
            lemma_absent(self.slots@, id@);
        }
        None
    }

    /// The entry of `id`, if the cache holds one.
    pub fn get(&self, id: &FileId) -> (entry: Option<&FileEntry>)
        ensures
            match entry {
                Some(e) => self@.contains_key(id@) && e@ == self@[id@],
                None => !self@.contains_key(id@),
            },
    {
        match self.position(id) {
            Some(i) => Some(&self.slots[i].entry),
            None => None,
        }
    }

    /// Puts `entry` under `id`, in place of any entry that is there.
    pub fn insert(&mut self, id: FileId, entry: FileEntry)
        ensures
            final(self)@ == old(self)@.insert(id@, entry@),
    {
        match self.position(&id) {
            Some(i) => {
                let slot = Slot { id, entry };
                proof {
                    lemma_update(self.slots@, i as int, slot);
                }
                self.slots.set(i, slot);
            },
            None => {
                let slot = Slot { id, entry };
                assert(self.slots@.push(slot).drop_last() =~= self.slots@);
                self.slots.push(slot);
            },
        }
    }

    /// Puts `entry` under `id` unless the cache holds an entry for `id`
    /// already: the entry that came first stays.
    pub fn insert_if_absent(&mut self, id: FileId, entry: FileEntry)
        ensures
            final(self)@ == if old(self)@.contains_key(id@) {
                old(self)@
            } else {
                old(self)@.insert(id@, entry@)
            },
    {
        if self.position(&id).is_none() {
            let slot = Slot { id, entry };
            assert(self.slots@.push(slot).drop_last() =~= self.slots@);
            self.slots.push(slot);
        }
    }

    /// The file `id` as a source, parsed on the first call and kept in the
    /// entry for later ones. `None` where the cache holds no entry for `id`.
    pub fn source(&mut self, id: &FileId) -> (r: Option<Result<Source, FileError>>)
        ensures
            match r {
                Some(outcome) => {
                    &&& old(self)@.contains_key(id@)
                    &&& source_result_view(outcome) == source_of_entry(old(self)@[id@], id@).0
                    &&& final(self)@ == old(self)@.insert(
                        id@,
                        source_of_entry(old(self)@[id@], id@).1,
                    )
                },
                None => !old(self)@.contains_key(id@) && final(self)@ == old(self)@,
            },
    {
        match self.position(id) {
            Some(i) => {
                let outcome = self.slots[i].entry.source(id.clone());
                proof {
                    lemma_update(old(self).slots@, i as int, self.slots@[i as int]);
                    assert(self.slots@ =~= old(self).slots@.update(i as int, self.slots@[i as int]));
                }
                Some(outcome)
            },
            None => None,
        }
    }
}

} // verus!
