use typst_nif::date::{date_of, Date, FIRST_INSTANT, LAST_INSTANT};
use typst_nif::fetch::{FetchAction, FetchEvent, PackageError};
use typst_nif::files::{FileError, FileId};
use typst_nif::package::{PackageCoordinate, PackageVersion};
use typst_nif::world::{FileAction, FileEvent, Progress, Resolved, TypstNifWorld};

fn example() -> PackageCoordinate {
    PackageCoordinate {
        namespace: "preview".to_string(),
        name: "example".to_string(),
        version: PackageVersion { major: 1, minor: 0, patch: 0 },
    }
}

fn world() -> TypstNifWorld {
    TypstNifWorld::new(
        "/project".to_string(),
        "= Main".to_string(),
        "/cache".to_string(),
        1_546_300_800,
    )
}

fn bytes(action: FileAction) -> Vec<u8> {
    match action {
        FileAction::Finish(Ok(Resolved::Bytes(bytes))) => bytes,
        other => panic!("unexpected action {:?}", other),
    }
}

#[test]
fn seeded_file_prevails_over_disk() {
    let mut w = world();
    let id = w.insert_virtual_file("assets/logo.png", vec![1, 2, 3]).unwrap();
    assert!(id.same(&FileId::new(None, "assets/logo.png")));
    // No reading is asked for: the bytes come from the overlay.
    let (resolution, action) = w.file(FileId::new(None, "/assets/logo.png"));
    assert_eq!(action, FileAction::Finish(Ok(Resolved::Bytes(vec![1, 2, 3]))));
    assert_eq!(resolution.progress, Progress::Done);
}

#[test]
fn seeding_again_replaces_the_bytes() {
    let mut w = world();
    w.insert_virtual_file("data.csv", vec![1]).unwrap();
    w.insert_virtual_file("data.csv", vec![2]).unwrap();
    let (_, action) = w.file(FileId::new(None, "data.csv"));
    assert_eq!(bytes(action), vec![2]);
}

#[test]
fn file_of_the_project_is_read_below_the_root() {
    let mut w = world();
    let id = FileId::new(None, "chapters/one.typ");
    let (resolution, action) = w.file(id.clone());
    assert_eq!(action, FileAction::Read { path: "/project/chapters/one.typ".to_string() });
    assert_eq!(resolution.progress, Progress::Reading);
    let (resolution, action) = w.resume(resolution, FileEvent::Read { bytes: b"= One".to_vec() });
    assert_eq!(bytes(action), b"= One".to_vec());
    assert_eq!(resolution.progress, Progress::Done);
}

#[test]
fn resolving_twice_gives_identical_bytes() {
    let mut w = world();
    let id = FileId::new(None, "chapters/one.typ");
    let (resolution, _) = w.file(id.clone());
    let (_, first) = w.resume(resolution, FileEvent::Read { bytes: b"= One".to_vec() });
    // The second resolution ends at once, from the cache.
    let (_, second) = w.file(id.clone());
    assert_eq!(first, second);
    let (_, third) = w.file(id);
    assert_eq!(bytes(third), b"= One".to_vec());
}

#[test]
fn first_reader_wins() {
    let mut w = world();
    let id = FileId::new(None, "shared.typ");
    let (one, _) = w.file(id.clone());
    let (two, _) = w.file(id.clone());
    let (_, first) = w.resume(one, FileEvent::Read { bytes: b"early".to_vec() });
    let (_, second) = w.resume(two, FileEvent::Read { bytes: b"late".to_vec() });
    assert_eq!(bytes(first), b"early".to_vec());
    assert_eq!(bytes(second), b"early".to_vec());
    let (_, third) = w.file(id);
    assert_eq!(bytes(third), b"early".to_vec());
}

#[test]
fn path_that_leaves_the_root_is_denied() {
    let mut w = world();
    let (resolution, action) = w.file(FileId::new(None, "../outside.typ"));
    assert_eq!(action, FileAction::Finish(Err(FileError::AccessDenied)));
    assert_eq!(resolution.progress, Progress::Done);
}

#[test]
fn unreadable_file_gives_its_error() {
    let mut w = world();
    let id = FileId::new(None, "missing.typ");
    let (resolution, _) = w.file(id.clone());
    let error = FileError::NotFound("/project/missing.typ".to_string());
    let (_, action) =
        w.resume(resolution, FileEvent::ReadFailed { error: FileError::NotFound("/project/missing.typ".to_string()) });
    assert_eq!(action, FileAction::Finish(Err(error)));
    // Nothing was cached: the file is asked for again.
    let (_, action) = w.file(id);
    assert_eq!(action, FileAction::Read { path: "/project/missing.typ".to_string() });
}

#[test]
fn other_read_failures_are_handed_on() {
    let mut w = world();
    let (resolution, _) = w.file(FileId::new(None, "dir"));
    let (_, action) = w.resume(
        resolution,
        FileEvent::ReadFailed { error: FileError::Other(Some("disk failure".to_string())) },
    );
    assert_eq!(action, FileAction::Finish(Err(FileError::Other(Some("disk failure".to_string())))));
    for error in [FileError::IsDirectory, FileError::NotSource, FileError::Other(None)] {
        let (resolution, _) = w.file(FileId::new(None, "dir"));
        let expected = match &error {
            FileError::IsDirectory => FileError::IsDirectory,
            FileError::NotSource => FileError::NotSource,
            _ => FileError::Other(None),
        };
        let (_, action) = w.resume(resolution, FileEvent::ReadFailed { error });
        assert_eq!(action, FileAction::Finish(Err(expected)));
    }
    let (resolution, _) = w.file(FileId::new(None, "locked"));
    let (_, action) = w.resume(resolution, FileEvent::ReadFailed { error: FileError::AccessDenied });
    assert_eq!(action, FileAction::Finish(Err(FileError::AccessDenied)));
}

#[test]
fn main_source_is_at_hand() {
    let mut w = world();
    let main = w.main();
    assert_eq!(main.vpath(), "/main.typ");
    assert_eq!(w.main_source().text(), "= Main");
    let (_, action) = w.source(main.clone());
    match action {
        FileAction::Finish(Ok(Resolved::Source(source))) => {
            assert_eq!(source.text(), "= Main");
            assert!(source.id().same(&main));
        }
        other => panic!("unexpected action {:?}", other),
    }
    // Its bytes are not at hand: as a file, it is read like any other.
    let (_, action) = w.file(main);
    assert_eq!(action, FileAction::Read { path: "/project/main.typ".to_string() });
}

#[test]
fn source_is_parsed_once_and_stays() {
    let mut w = world();
    let id = FileId::new(None, "lib.typ");
    let (resolution, action) = w.source(id.clone());
    assert_eq!(action, FileAction::Read { path: "/project/lib.typ".to_string() });
    let (_, first) = w.resume(resolution, FileEvent::Read { bytes: "\u{feff}#let x = 1".as_bytes().to_vec() });
    match &first {
        FileAction::Finish(Ok(Resolved::Source(source))) => {
            assert_eq!(source.text(), "#let x = 1");
            assert!(source.id().same(&id));
        }
        other => panic!("unexpected action {:?}", other),
    }
    let (_, second) = w.source(id.clone());
    assert_eq!(first, second);
    // The bytes are still the ones that were read.
    let (_, raw) = w.file(id);
    assert_eq!(bytes(raw), "\u{feff}#let x = 1".as_bytes().to_vec());
}

#[test]
fn source_of_binary_file_is_invalid_utf8() {
    let mut w = world();
    let id = w.insert_virtual_file("logo.png", vec![0x89, 0x50, 0xff]).unwrap();
    let (_, action) = w.source(id.clone());
    assert_eq!(action, FileAction::Finish(Err(FileError::InvalidUtf8)));
    let (_, action) = w.file(id);
    assert_eq!(bytes(action), vec![0x89, 0x50, 0xff]);
}

#[test]
fn file_of_a_package_waits_for_the_package() {
    let mut w = world();
    let id = FileId::new(Some(example()), "lib.typ");
    let (resolution, action) = w.file(id.clone());
    assert_eq!(
        action,
        FileAction::Fetch(FetchAction::Probe { dir: "/cache/preview/example/1.0.0".to_string() })
    );
    let (resolution, action) =
        w.resume(resolution, FileEvent::Fetch(FetchEvent::Probed { exists: false }));
    assert_eq!(
        action,
        FileAction::Fetch(FetchAction::Get {
            url: "https://packages.typst.org/preview/example-1.0.0.tar.gz".to_string()
        })
    );
    let (resolution, action) =
        w.resume(resolution, FileEvent::Fetch(FetchEvent::Responded { status: 200 }));
    assert_eq!(action, FileAction::Fetch(FetchAction::ReadBody));
    let gz = vec![
        0x1f, 0x8b, 0x08, 0x00, 0x00, 0x00, 0x00, 0x00, 0x00, 0x03, 0x01, 0x05, 0x00, 0xfa, 0xff,
        b'h', b'e', b'l', b'l', b'o', 0x86, 0xa6, 0x10, 0x36, 0x05, 0x00, 0x00, 0x00,
    ];
    let (resolution, action) =
        w.resume(resolution, FileEvent::Fetch(FetchEvent::BodyRead { body: gz.clone() }));
    assert_eq!(action, FileAction::Fetch(FetchAction::Decode { body: gz }));
    let (resolution, action) = w.resume(
        resolution,
        FileEvent::Fetch(FetchEvent::Decoded { archive: b"hello".to_vec() }),
    );
    assert_eq!(
        action,
        FileAction::Fetch(FetchAction::Unpack {
            archive: b"hello".to_vec(),
            dir: "/cache/preview/example/1.0.0".to_string()
        })
    );
    let (resolution, action) = w.resume(resolution, FileEvent::Fetch(FetchEvent::Unpacked));
    assert_eq!(action, FileAction::Read { path: "/cache/preview/example/1.0.0/lib.typ".to_string() });
    let (_, action) = w.resume(resolution, FileEvent::Read { bytes: b"#let f = 1".to_vec() });
    assert_eq!(bytes(action), b"#let f = 1".to_vec());
    // From now on the file comes from the cache, without a look at the package.
    let (_, action) = w.file(id);
    assert_eq!(bytes(action), b"#let f = 1".to_vec());
}

#[test]
fn cached_package_directory_is_used_as_it_is() {
    let mut w = world();
    let (resolution, _) = w.file(FileId::new(Some(example()), "src/lib.typ"));
    let (resolution, action) =
        w.resume(resolution, FileEvent::Fetch(FetchEvent::Probed { exists: true }));
    assert_eq!(
        action,
        FileAction::Read { path: "/cache/preview/example/1.0.0/src/lib.typ".to_string() }
    );
    assert_eq!(resolution.progress, Progress::Reading);
}

#[test]
fn failed_download_fails_the_file() {
    let mut w = world();
    let (resolution, _) = w.source(FileId::new(Some(example()), "lib.typ"));
    let (resolution, _) =
        w.resume(resolution, FileEvent::Fetch(FetchEvent::Probed { exists: false }));
    let (resolution, action) = w.resume(
        resolution,
        FileEvent::Fetch(FetchEvent::RequestFailed { reason: "dns".to_string() }),
    );
    assert!(matches!(action, FileAction::Fetch(FetchAction::Get { .. })));
    let (resolution, action) = w.resume(
        resolution,
        FileEvent::Fetch(FetchEvent::RequestFailed { reason: "dns again".to_string() }),
    );
    assert_eq!(
        action,
        FileAction::Finish(Err(FileError::Package(PackageError::NetworkFailed(
            "dns again".to_string()
        ))))
    );
    assert_eq!(resolution.progress, Progress::Done);
}

#[test]
fn malformed_archive_fails_the_file_after_cleanup() {
    let mut w = world();
    let (resolution, _) = w.file(FileId::new(Some(example()), "lib.typ"));
    let (resolution, _) =
        w.resume(resolution, FileEvent::Fetch(FetchEvent::Probed { exists: false }));
    let (resolution, _) =
        w.resume(resolution, FileEvent::Fetch(FetchEvent::Responded { status: 200 }));
    let (resolution, action) =
        w.resume(resolution, FileEvent::Fetch(FetchEvent::BodyRead { body: vec![0; 40] }));
    assert_eq!(action, FileAction::Fetch(FetchAction::Decode { body: vec![0; 40] }));
    let (resolution, action) = w.resume(
        resolution,
        FileEvent::Fetch(FetchEvent::DecodeFailed { reason: "corrupt data".to_string() }),
    );
    assert_eq!(
        action,
        FileAction::Fetch(FetchAction::Remove { dir: "/cache/preview/example/1.0.0".to_string() })
    );
    let (_, action) = w.resume(resolution, FileEvent::Fetch(FetchEvent::Removed));
    assert_eq!(
        action,
        FileAction::Finish(Err(FileError::Package(PackageError::MalformedArchive(
            "corrupt data".to_string()
        ))))
    );
}

#[test]
fn package_path_that_leaves_the_package_is_denied() {
    let mut w = world();
    let (resolution, _) = w.file(FileId::new(Some(example()), "../../other/1.0.0/lib.typ"));
    let (_, action) = w.resume(resolution, FileEvent::Fetch(FetchEvent::Probed { exists: true }));
    assert_eq!(action, FileAction::Finish(Err(FileError::AccessDenied)));
}

#[test]
fn events_out_of_turn_are_ignored() {
    let mut w = world();
    let (resolution, _) = w.file(FileId::new(None, "a.typ"));
    let (resolution, action) =
        w.resume(resolution, FileEvent::Fetch(FetchEvent::Probed { exists: true }));
    assert_eq!(action, FileAction::Nothing);
    assert_eq!(resolution.progress, Progress::Reading);
    let (resolution, _) = w.resume(resolution, FileEvent::Read { bytes: vec![1] });
    let (resolution, action) = w.resume(resolution, FileEvent::Read { bytes: vec![2] });
    assert_eq!(action, FileAction::Nothing);
    assert_eq!(resolution.progress, Progress::Done);
    let (resolution, _) = w.file(FileId::new(Some(example()), "a.typ"));
    let (resolution, action) = w.resume(resolution, FileEvent::Read { bytes: vec![2] });
    assert_eq!(action, FileAction::Nothing);
    let (_, action) = w.resume(resolution, FileEvent::Fetch(FetchEvent::Unpacked));
    assert_eq!(action, FileAction::Nothing);
}

#[test]
fn download_package_starts_a_fetch_in_the_cache_directory() {
    let w = world();
    let (fetch, action) = w.download_package(&example());
    assert_eq!(action, FetchAction::Probe { dir: "/cache/preview/example/1.0.0".to_string() });
    assert_eq!(fetch.dir, "/cache/preview/example/1.0.0");
}

#[test]
fn today_without_offset_is_the_utc_date() {
    let w = world();
    assert_eq!(w.today(Some(0)), Some(Date { year: 2019, month: 1, day: 1 }));
    assert_eq!(w.today(None), Some(Date { year: 2019, month: 1, day: 1 }));
}

#[test]
fn today_moves_with_the_offset() {
    let w = world();
    assert_eq!(w.today(Some(-1)), Some(Date { year: 2018, month: 12, day: 31 }));
    assert_eq!(w.today(Some(5)), Some(Date { year: 2019, month: 1, day: 1 }));
    assert_eq!(date_of(1_546_300_800 + 23 * 3600, Some(1)), Some(Date { year: 2019, month: 1, day: 2 }));
    assert_eq!(date_of(0, None), Some(Date { year: 1970, month: 1, day: 1 }));
    assert_eq!(date_of(951_782_400, Some(0)), Some(Date { year: 2000, month: 2, day: 29 }));
}

#[test]
fn today_with_invalid_offset_is_absent() {
    let w = world();
    assert_eq!(w.today(Some(999)), None);
    assert_eq!(w.today(Some(-999)), None);
    assert_eq!(w.today(Some(26)), None);
    assert_eq!(w.today(Some(-26)), None);
    assert_eq!(w.today(Some(128)), None);
    assert_eq!(w.today(Some(256)), None);
    assert_eq!(w.today(Some(i64::MAX)), None);
    assert_eq!(w.today(Some(i64::MIN)), None);
    assert!(w.today(Some(25)).is_some());
    assert!(w.today(Some(-25)).is_some());
}

#[test]
fn today_in_utc_is_there_for_every_year_of_the_calendar() {
    assert_eq!(date_of(FIRST_INSTANT, Some(0)), Some(Date { year: -9999, month: 1, day: 1 }));
    assert_eq!(date_of(FIRST_INSTANT, None), Some(Date { year: -9999, month: 1, day: 1 }));
    assert_eq!(date_of(LAST_INSTANT, Some(0)), Some(Date { year: 9999, month: 12, day: 31 }));
    assert_eq!(date_of(LAST_INSTANT, None), Some(Date { year: 9999, month: 12, day: 31 }));
    assert_eq!(FIRST_INSTANT, -377_705_116_800);
    assert_eq!(LAST_INSTANT, 253_402_300_799);
    let mut instant = FIRST_INSTANT;
    while instant <= LAST_INSTANT {
        assert!(date_of(instant, Some(0)).is_some());
        instant += 1_234_567_891;
    }
    // At the ends of the calendar an offset may lead out of it.
    assert_eq!(date_of(LAST_INSTANT, Some(1)), None);
    assert_eq!(date_of(FIRST_INSTANT, Some(-1)), None);
}

#[test]
fn today_of_an_instant_out_of_range_is_absent() {
    assert_eq!(date_of(i64::MAX, Some(0)), None);
    assert_eq!(date_of(i64::MIN, None), None);
}
