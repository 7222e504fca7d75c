//! The environment of one compilation: the main source, the file cache with
//! its overlay of seeded files, and the resolution of files that the cache
//! does not hold yet.
//!
//! A file is resolved in steps, like a package is fetched: the world hands out
//! a [`FileAction`], the caller carries it out and reports back with a
//! [`FileEvent`], until the world hands out [`FileAction::Finish`].

use vstd::prelude::*;
use vstd::string::*;
use crate::date::{date_of, date_on, in_calendar, valid_offset, Date};
use crate::fetch::{
    fetch_next, Fetch, FetchAction, FetchActionView, FetchEvent, FetchEventView, FetchView,
    StageView,
};
use crate::files::{
    detached_path, normalized_path, resolved_path, source_of_entry, FileCache, FileEntry,
    FileEntryView, FileError, FileErrorView, FileId, FileIdView, Source, SourceView,
};
use crate::package::{package_dir_text, package_url_text, CoordinateView, PackageCoordinate};

verus! {

/// What is asked of a file.
#[derive(Debug, Clone, Copy, PartialEq, Eq)]
pub enum Want {
    /// Its bytes as they are.
    Bytes,
    /// Its parsed form.
    Source,
}

/// What a resolution gives.
#[derive(Debug, PartialEq, Eq)]
pub enum Resolved {
    Bytes(Vec<u8>),
    Source(Source),
}

/// The mathematical value of a [`Resolved`].
pub enum ResolvedView {
    Bytes(Seq<u8>),
    Source(SourceView),
}

impl View for Resolved {
    type V = ResolvedView;

    open spec fn view(&self) -> ResolvedView {
        match self {
            Resolved::Bytes(bytes) => ResolvedView::Bytes(bytes@),
            Resolved::Source(source) => ResolvedView::Source(source@),
        }
    }
}

/// What the world asks the caller to do next for a file.
#[derive(Debug, PartialEq, Eq)]
pub enum FileAction {
    /// Carry out this step of the fetch of the file's package.
    Fetch(FetchAction),
    /// Read the file at this path.
    Read { path: String },
    /// Nothing: the event did not answer what the resolution is waiting for.
    Nothing,
    /// The resolution is over.
    Finish(Result<Resolved, FileError>),
}

/// The mathematical value of a [`FileAction`].
pub enum FileActionView {
    Fetch(FetchActionView),
    Read { path: Seq<char> },
    Nothing,
    Finish(Result<ResolvedView, FileErrorView>),
}

impl View for FileAction {
    type V = FileActionView;

    open spec fn view(&self) -> FileActionView {
        match self {
            FileAction::Fetch(action) => FileActionView::Fetch(action@),
            FileAction::Read { path } => FileActionView::Read { path: path@ },
            FileAction::Nothing => FileActionView::Nothing,
            FileAction::Finish(Ok(resolved)) => FileActionView::Finish(Ok(resolved@)),
            FileAction::Finish(Err(error)) => FileActionView::Finish(Err(error@)),
        }
    }
}

/// What the caller reports back to the world.
#[derive(Debug, PartialEq, Eq)]
pub enum FileEvent {
    /// The answer to a step of the package fetch.
    Fetch(FetchEvent),
    /// The file was read.
    Read { bytes: Vec<u8> },
    /// The file could not be read.
    ReadFailed { error: FileError },
}

/// The mathematical value of a [`FileEvent`].
pub enum FileEventView {
    Fetch(FetchEventView),
    Read { bytes: Seq<u8> },
    ReadFailed { error: FileErrorView },
}

impl View for FileEvent {
    type V = FileEventView;

    open spec fn view(&self) -> FileEventView {
        match self {
            FileEvent::Fetch(event) => FileEventView::Fetch(event@),
            FileEvent::Read { bytes } => FileEventView::Read { bytes: bytes@ },
            FileEvent::ReadFailed { error } => FileEventView::ReadFailed { error: error@ },
        }
    }
}

/// How far the resolution of a file has come.
#[derive(Debug, PartialEq, Eq)]
pub enum Progress {
    /// The file's package is being fetched.
    Fetching(Fetch),
    /// The file is being read.
    Reading,
    /// The resolution is over.
    Done,
}

/// The mathematical value of a [`Progress`].
pub enum ProgressView {
    Fetching(FetchView),
    Reading,
    Done,
}

impl View for Progress {
    type V = ProgressView;

    open spec fn view(&self) -> ProgressView {
        match self {
            Progress::Fetching(fetch) => ProgressView::Fetching(fetch@),
            Progress::Reading => ProgressView::Reading,
            Progress::Done => ProgressView::Done,
        }
    }
}

/// The resolution of one file, under way or over.
#[derive(Debug, PartialEq, Eq)]
pub struct Resolution {
    pub id: FileId,
    pub want: Want,
    pub progress: Progress,
}

/// The mathematical value of a [`Resolution`].
pub struct ResolutionView {
    pub id: FileIdView,
    pub want: Want,
    pub progress: ProgressView,
}

impl View for Resolution {
    type V = ResolutionView;

    open spec fn view(&self) -> ResolutionView {
        ResolutionView { id: self.id@, want: self.want, progress: self.progress@ }
    }
}

/// The environment of one compilation.
#[derive(Debug, PartialEq, Eq)]
pub struct TypstNifWorld {
    /// The directory against which the project's files are resolved.
    root: String,
    /// The main source.
    source: Source,
    /// The files known so far.
    files: FileCache,
    /// The directory below which packages are kept.
    cache_directory: String,
    /// The instant at which the compilation began, in seconds after the Unix
    /// epoch.
    time: i64,
}

/// The mathematical value of a [`TypstNifWorld`].
pub struct WorldView {
    pub root: Seq<char>,
    pub source: SourceView,
    pub files: Map<FileIdView, FileEntryView>,
    pub cache_directory: Seq<char>,
    pub time: i64,
}

impl View for TypstNifWorld {
    type V = WorldView;

    closed spec fn view(&self) -> WorldView {
        WorldView {
            root: self.root@,
            source: self.source@,
            files: self.files@,
            cache_directory: self.cache_directory@,
            time: self.time,
        }
    }
}

/// The world with other files.
pub open spec fn with_files(w: WorldView, files: Map<FileIdView, FileEntryView>) -> WorldView {
    WorldView {
        root: w.root,
        source: w.source,
        files,
        cache_directory: w.cache_directory,
        time: w.time,
    }
}

/// The resolution at another point.
pub open spec fn at_progress(r: ResolutionView, progress: ProgressView) -> ResolutionView {
    ResolutionView { id: r.id, want: r.want, progress }
}

/// The end of a resolution whose file the cache holds: the bytes of the
/// entry, or its parsed form, which the entry keeps from then on.
pub open spec fn deliver(w: WorldView, r: ResolutionView) -> (
    WorldView,
    ResolutionView,
    FileActionView,
) {
    let entry = w.files[r.id];
    match r.want {
        Want::Bytes => (
            w,
            at_progress(r, ProgressView::Done),
            FileActionView::Finish(Ok(ResolvedView::Bytes(entry.bytes))),
        ),
        Want::Source => {
            let (outcome, kept) = source_of_entry(entry, r.id);
            (
                with_files(w, w.files.insert(r.id, kept)),
                at_progress(r, ProgressView::Done),
                FileActionView::Finish(
                    match outcome {
                        Ok(source) => Ok(ResolvedView::Source(source)),
                        Err(error) => Err(error),
                    },
                ),
            )
        },
    }
}

/// The step to the reading of a file below the directory `base`: the file's
/// place is asked for, or access is denied where its path leaves `base`.
pub open spec fn read_below(w: WorldView, r: ResolutionView, base: Seq<char>) -> (
    WorldView,
    ResolutionView,
    FileActionView,
) {
    match resolved_path(r.id.vpath, base) {
        Some(path) => (w, at_progress(r, ProgressView::Reading), FileActionView::Read { path }),
        None => (
            w,
            at_progress(r, ProgressView::Done),
            FileActionView::Finish(Err(FileErrorView::AccessDenied)),
        ),
    }
}

/// The machine that fetches `coordinate` into the cache of `w`, at its start.
pub open spec fn fetch_of(w: WorldView, coordinate: CoordinateView) -> FetchView {
    FetchView {
        dir: package_dir_text(w.cache_directory, coordinate),
        url: package_url_text(coordinate),
        stage: StageView::Probing,
    }
}

/// The start of a resolution. The main source is at hand. A file that the
/// cache holds is delivered from the cache. A file of a package waits for its
/// package; any other file is read below the root.
pub open spec fn begin_next(w: WorldView, id: FileIdView, want: Want) -> (
    WorldView,
    ResolutionView,
    FileActionView,
) {
    let r = ResolutionView { id, want, progress: ProgressView::Done };
    if want == Want::Source && id == w.source.id {
        (w, r, FileActionView::Finish(Ok(ResolvedView::Source(w.source))))
    } else if w.files.contains_key(id) {
        deliver(w, r)
    } else {
        match id.package {
            Some(coordinate) => {
                let fetch = fetch_of(w, coordinate);
                (
                    w,
                    at_progress(r, ProgressView::Fetching(fetch)),
                    FileActionView::Fetch(FetchActionView::Probe { dir: fetch.dir }),
                )
            },
            None => read_below(w, r, w.root),
        }
    }
}

/// One step of a resolution. While the package is fetched, the steps are
/// those of the fetch, and its end is the step to the reading of the file, or
/// the failure of the resolution. What was read goes into the cache unless
/// the cache holds the file by then, and the file is delivered from the cache.
pub open spec fn resume_next(w: WorldView, r: ResolutionView, e: FileEventView) -> (
    WorldView,
    ResolutionView,
    FileActionView,
) {
    match (r.progress, e) {
        (ProgressView::Fetching(fetch), FileEventView::Fetch(event)) => {
            let (after, action) = fetch_next(fetch, event);
            match action {
                FetchActionView::Finish(Ok(dir)) => read_below(w, r, dir),
                FetchActionView::Finish(Err(error)) => (
                    w,
                    at_progress(r, ProgressView::Done),
                    FileActionView::Finish(Err(FileErrorView::Package(error))),
                ),
                FetchActionView::Nothing => (w, r, FileActionView::Nothing),
                _ => (
                    w,
                    at_progress(r, ProgressView::Fetching(after)),
                    FileActionView::Fetch(action),
                ),
            }
        },
        (ProgressView::Reading, FileEventView::Read { bytes }) => {
            let files = if w.files.contains_key(r.id) {
                w.files
            } else {
                w.files.insert(r.id, FileEntryView { bytes, source: None })
            };
            deliver(with_files(w, files), r)
        },
        (ProgressView::Reading, FileEventView::ReadFailed { error }) => (
            w,
            at_progress(r, ProgressView::Done),
            FileActionView::Finish(Err(error)),
        ),
        _ => (w, r, FileActionView::Nothing),
    }
}

impl TypstNifWorld {
    /// The world of a compilation of the main source `source`, with the
    /// project's files below `root` and packages below `cache_directory`,
    /// begun at `time` seconds after the Unix epoch. Its cache is empty.
    pub fn new(root: String, source: String, cache_directory: String, time: i64) -> (world: Self)
        ensures
            world@ == (WorldView {
                root: root@,
                source: SourceView {
                    id: FileIdView { package: None, vpath: detached_path() },
                    text: source@,
                },
                files: Map::empty(),
                cache_directory: cache_directory@,
                time,
            }),
    {
        TypstNifWorld {
            root,
            source: Source::detached(source),
            files: FileCache::new(),
            cache_directory,
            time,
        }
    }

    /// Seeds the cache with a file of the project that is not on disk: `bytes`
    /// under the path `vpath`, in place of whatever the cache holds there.
    pub fn insert_virtual_file(&mut self, vpath: &str, bytes: Vec<u8>) -> (r: Result<
        FileId,
        FileError,
    >)
        ensures
            r matches Ok(id) && id@ == (FileIdView {
                package: None,
                vpath: normalized_path(vpath@),
            }) && final(self)@ == with_files(
                old(self)@,
                old(self)@.files.insert(id@, FileEntryView { bytes: bytes@, source: None }),
            ),
    {
        let id = FileId::new(None, vpath);
        self.files.insert(id.clone(), FileEntry::new(bytes, None));
        Ok(id)
    }

    /// The identifier of the main source.
    pub fn main(&self) -> (id: FileId)
        ensures
            id@ == self@.source.id,
    {
        self.source.id().clone()
    }

    /// The main source.
    pub fn main_source(&self) -> (source: &Source)
        ensures
            source@ == self@.source,
    {
        &self.source
    }

    /// Starts the fetch of `package` into this world's package cache.
    pub fn download_package(&self, package: &PackageCoordinate) -> (started: (Fetch, FetchAction))
        ensures
            started.0@ == fetch_of(self@, package@),
            started.1@ == (FetchActionView::Probe { dir: started.0@.dir }),
    {
        Fetch::begin(package, self.cache_directory.as_str())
    }

    /// The date of the instant at which the compilation began, at `offset`
    /// hours from UTC, or in UTC where no offset is given. `None` where the
    /// offset is not that of a time zone. In UTC there is a date for every
    /// instant of the years -9999 to 9999.
    pub fn today(&self, offset: Option<i64>) -> (date: Option<Date>)
        ensures
            date == date_on(self@.time, offset),
            offset matches Some(hours) && !valid_offset(hours) ==> date is None,
            (offset is None || offset == Some(0i64)) && in_calendar(self@.time) ==> date is Some,
    {
        date_of(self.time, offset)
    }

    fn deliver(&mut self, resolution: Resolution) -> (next: (Resolution, FileAction))
        requires
            old(self)@.files.contains_key(resolution@.id),
        ensures
            (final(self)@, next.0@, next.1@) == deliver(old(self)@, resolution@),
    {
        let Resolution { id, want, progress: _ } = resolution;
        let action = match want {
            Want::Bytes => {
                let bytes = match self.files.get(&id) {
                    Some(entry) => {
                        let bytes = entry.bytes().clone();
                        assert(bytes@ =~= entry@.bytes);
                        bytes
                    },
                    None => unreached(),
                };
                FileAction::Finish(Ok(Resolved::Bytes(bytes)))
            },
            Want::Source => {
                match self.files.source(&id) {
                    Some(Ok(source)) => FileAction::Finish(Ok(Resolved::Source(source))),
                    Some(Err(error)) => FileAction::Finish(Err(error)),
                    None => unreached(),
                }
            },
        };
        (Resolution { id, want, progress: Progress::Done }, action)
    }

    fn read_below(&self, resolution: Resolution, base: &str) -> (next: (Resolution, FileAction))
        ensures
            (self@, next.0@, next.1@) == read_below(self@, resolution@, base@),
    {
        let Resolution { id, want, progress: _ } = resolution;
        match id.resolve(base) {
            Some(path) => (
                Resolution { id, want, progress: Progress::Reading },
                FileAction::Read { path },
            ),
            None => (
                Resolution { id, want, progress: Progress::Done },
                FileAction::Finish(Err(FileError::AccessDenied)),
            ),
        }
    }

    fn begin(&mut self, id: FileId, want: Want) -> (next: (Resolution, FileAction))
        ensures
            (final(self)@, next.0@, next.1@) == begin_next(old(self)@, id@, want),
    {
        let is_main = match want {
            Want::Source => id.same(self.source.id()),
            Want::Bytes => false,
        };
        if is_main {
            let source = self.source.clone();
            return (
                Resolution { id, want, progress: Progress::Done },
                FileAction::Finish(Ok(Resolved::Source(source))),
            );
        }
        if self.files.get(&id).is_some() {
            return self.deliver(Resolution { id, want, progress: Progress::Done });
        }
        let fetch = match id.package() {
            Some(package) => Some(self.download_package(package)),
            None => None,
        };
        match fetch {
            Some((fetch, action)) => (
                Resolution { id, want, progress: Progress::Fetching(fetch) },
                FileAction::Fetch(action),
            ),
            None => {
                let resolution = Resolution { id, want, progress: Progress::Done };
                self.read_below(resolution, self.root.as_str())
            },
        }
    }

    /// Starts the resolution of the bytes of the file `id`.
    pub fn file(&mut self, id: FileId) -> (next: (Resolution, FileAction))
        ensures
            (final(self)@, next.0@, next.1@) == begin_next(old(self)@, id@, Want::Bytes),
    {
        self.begin(id, Want::Bytes)
    }

    /// Starts the resolution of the file `id` as a source.
    pub fn source(&mut self, id: FileId) -> (next: (Resolution, FileAction))
        ensures
            (final(self)@, next.0@, next.1@) == begin_next(old(self)@, id@, Want::Source),
    {
        self.begin(id, Want::Source)
    }

    /// Takes one step of a resolution: moves to what follows `event`, and
    /// returns what is to be done next.
    pub fn resume(&mut self, resolution: Resolution, event: FileEvent) -> (next: (
        Resolution,
        FileAction,
    ))
        ensures
            (final(self)@, next.0@, next.1@) == resume_next(old(self)@, resolution@, event@),
    {
        let Resolution { id, want, progress } = resolution;
        match (progress, event) {
            (Progress::Fetching(fetch), FileEvent::Fetch(answer)) => {
                let mut fetch = fetch;
                match fetch.step(answer) {
                    FetchAction::Finish(Ok(dir)) => {
                        let resolution = Resolution { id, want, progress: Progress::Done };
                        self.read_below(resolution, dir.as_str())
                    },
                    FetchAction::Finish(Err(error)) => (
                        Resolution { id, want, progress: Progress::Done },
                        FileAction::Finish(Err(FileError::Package(error))),
                    ),
                    FetchAction::Nothing => (
                        Resolution { id, want, progress: Progress::Fetching(fetch) },
                        FileAction::Nothing,
                    ),
                    other => (
                        Resolution { id, want, progress: Progress::Fetching(fetch) },
                        FileAction::Fetch(other),
                    ),
                }
            },
            (Progress::Reading, FileEvent::Read { bytes }) => {
                self.files.insert_if_absent(id.clone(), FileEntry::new(bytes, None));
                self.deliver(Resolution { id, want, progress: Progress::Done })
            },
            (Progress::Reading, FileEvent::ReadFailed { error }) => (
                Resolution { id, want, progress: Progress::Done },
                FileAction::Finish(Err(error)),
            ),
            (progress, _) => (Resolution { id, want, progress }, FileAction::Nothing),
        }
    }
}

/// The world after the file `id` of the project was seeded with `bytes`.
pub open spec fn seeded(w: WorldView, id: FileIdView, bytes: Seq<u8>) -> WorldView {
    with_files(w, w.files.insert(id, FileEntryView { bytes, source: None }))
}

/// A file that the cache holds is delivered from the cache at once, and its
/// bytes leave the world as it is. No reading and no fetching is asked for.
pub proof fn law_cached_file_is_at_hand(w: WorldView, id: FileIdView)
    requires
        w.files.contains_key(id),
    ensures
        begin_next(w, id, Want::Bytes) == (
            w,
            ResolutionView { id, want: Want::Bytes, progress: ProgressView::Done },
            FileActionView::Finish(Ok(ResolvedView::Bytes(w.files[id].bytes))),
        ),
{
}

/// Seeded files prevail: once `bytes` were seeded under `id`, the file
/// resolves to `bytes` without any reading, whatever is on disk.
pub proof fn law_seeded_file_prevails(w: WorldView, id: FileIdView, bytes: Seq<u8>)
    ensures
        begin_next(seeded(w, id, bytes), id, Want::Bytes) == (
            seeded(w, id, bytes),
            ResolutionView { id, want: Want::Bytes, progress: ProgressView::Done },
            FileActionView::Finish(Ok(ResolvedView::Bytes(bytes))),
        ),
{
}

/// Seeding replaces, where reading does not: bytes seeded under `id` take
/// the place of whatever the cache held there, seeded or read.
pub proof fn law_seeding_replaces(w: WorldView, id: FileIdView, bytes: Seq<u8>)
    ensures
        seeded(w, id, bytes).files[id] == (FileEntryView { bytes, source: None }),
        forall|k: FileIdView|
            k != id ==> (seeded(w, id, bytes).files.contains_key(k) <==> w.files.contains_key(k))
                && seeded(w, id, bytes).files[k] == w.files[k],
{
}

/// The main source is not a matter of the cache: asked for as a source, the
/// main source is handed out as it is, whatever the cache holds under its
/// identifier, and the world stays as it is.
pub proof fn law_main_source_prevails(w: WorldView)
    ensures
        begin_next(w, w.source.id, Want::Source) == (
            w,
            ResolutionView { id: w.source.id, want: Want::Source, progress: ProgressView::Done },
            FileActionView::Finish(Ok(ResolvedView::Source(w.source))),
        ),
{
}

/// No step of a resolution replaces what the cache holds: an entry keeps its
/// bytes, and keeps its parsed form once it has one.
pub proof fn law_steps_keep_entries(
    w: WorldView,
    r: ResolutionView,
    e: FileEventView,
    k: FileIdView,
)
    requires
        w.files.contains_key(k),
    ensures
        ({
            let after = resume_next(w, r, e).0;
            &&& after.files.contains_key(k)
            &&& after.files[k].bytes == w.files[k].bytes
            &&& w.files[k].source is Some ==> after.files[k].source == w.files[k].source
        }),
        ({
            let after = begin_next(w, r.id, r.want).0;
            &&& after.files.contains_key(k)
            &&& after.files[k].bytes == w.files[k].bytes
            &&& w.files[k].source is Some ==> after.files[k].source == w.files[k].source
        }),
{
}

/// Asking for bytes never parses: a resolution that wants bytes leaves the
/// parsed form of every entry as it is, and what it adds has none.
pub proof fn law_bytes_never_parse(
    w: WorldView,
    r: ResolutionView,
    e: FileEventView,
    k: FileIdView,
)
    requires
        r.want == Want::Bytes,
    ensures
        begin_next(w, r.id, Want::Bytes).0 == w,
        ({
            let after = resume_next(w, r, e).0;
            after.files.contains_key(k) ==> after.files[k].source == if w.files.contains_key(k) {
                w.files[k].source
            } else {
                None
            }
        }),
{
}

/// Resolving twice gives the same bytes. If a step ends a resolution with
/// bytes, a new resolution of the same file ends at once with these bytes,
/// and leaves the world as it is.
pub proof fn law_resolving_twice_gives_same_bytes(
    w: WorldView,
    r: ResolutionView,
    e: FileEventView,
    bytes: Seq<u8>,
)
    requires
        resume_next(w, r, e).2 == FileActionView::Finish(Ok(ResolvedView::Bytes(bytes))),
    ensures
        ({
            let after = resume_next(w, r, e).0;
            begin_next(after, r.id, Want::Bytes) == (
                after,
                ResolutionView { id: r.id, want: Want::Bytes, progress: ProgressView::Done },
                FileActionView::Finish(Ok(ResolvedView::Bytes(bytes))),
            )
        }),
{
}

/// The parsed form is stable. If a step ends the resolution of a file other
/// than the main source with a source, a new resolution of the same file as a
/// source ends at once with the same source, and leaves the world as it is.
pub proof fn law_parsed_form_is_stable(
    w: WorldView,
    r: ResolutionView,
    e: FileEventView,
    source: SourceView,
)
    requires
        r.id != w.source.id,
        resume_next(w, r, e).2 == FileActionView::Finish(
            Ok(ResolvedView::Source(source)),
        ),
    ensures
        ({
            let after = resume_next(w, r, e).0;
            begin_next(after, r.id, Want::Source) == (
                after,
                ResolutionView { id: r.id, want: Want::Source, progress: ProgressView::Done },
                FileActionView::Finish(Ok(ResolvedView::Source(source))),
            )
        }),
{
    let after = resume_next(w, r, e).0;
    assert(after.files.insert(r.id, after.files[r.id]) =~= after.files);
}

/// Asking twice for a source gives the same source. If a resolution ends at
/// its start with a source, a new resolution of the same file as a source
/// ends at once with the same source, and leaves the world as it is.
pub proof fn law_source_twice_is_same(w: WorldView, id: FileIdView, source: SourceView)
    requires
        begin_next(w, id, Want::Source).2 == FileActionView::Finish(
            Ok(ResolvedView::Source(source)),
        ),
    ensures
        ({
            let after = begin_next(w, id, Want::Source).0;
            begin_next(after, id, Want::Source) == (
                after,
                ResolutionView { id, want: Want::Source, progress: ProgressView::Done },
                FileActionView::Finish(Ok(ResolvedView::Source(source))),
            )
        }),
{
    let after = begin_next(w, id, Want::Source).0;
    if id != w.source.id {
        assert(after.files.insert(id, after.files[id]) =~= after.files);
    }
}

/// The first reader wins. Where two resolutions of a file that the cache does
/// not hold are both reading, what the first has read goes into the cache,
/// and the second, whatever it has read, is given what the first has read.
pub proof fn law_first_reader_wins(
    w: WorldView,
    id: FileIdView,
    first: Seq<u8>,
    second: Seq<u8>,
)
    requires
        !w.files.contains_key(id),
    ensures
        ({
            let reading = ResolutionView { id, want: Want::Bytes, progress: ProgressView::Reading };
            let (w1, _, a1) = resume_next(w, reading, FileEventView::Read { bytes: first });
            let (w2, _, a2) = resume_next(w1, reading, FileEventView::Read { bytes: second });
            &&& a1 == FileActionView::Finish(Ok(ResolvedView::Bytes(first)))
            &&& a2 == FileActionView::Finish(Ok(ResolvedView::Bytes(first)))
            &&& w2 == w1
            &&& w1.files == w.files.insert(id, FileEntryView { bytes: first, source: None })
        }),
{
}

} // verus!
