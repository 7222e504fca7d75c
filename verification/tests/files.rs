use typst_nif::files::{FileCache, FileEntry, FileError, FileId, Source};
use typst_nif::package::{PackageCoordinate, PackageVersion};

fn example() -> PackageCoordinate {
    PackageCoordinate {
        namespace: "preview".to_string(),
        name: "example".to_string(),
        version: PackageVersion { major: 1, minor: 0, patch: 0 },
    }
}

#[test]
fn file_ids_hold_normal_paths() {
    assert_eq!(FileId::new(None, "assets/logo.png").vpath(), "/assets/logo.png");
    assert_eq!(FileId::new(None, "/assets/logo.png").vpath(), "/assets/logo.png");
    assert_eq!(FileId::new(None, "a/./b/../c.typ").vpath(), "/a/c.typ");
    assert_eq!(FileId::new(None, "").vpath(), "/");
    assert_eq!(FileId::new(None, "../x").vpath(), "/../x");
    assert!(FileId::new(None, "x").package().is_none());
    assert_eq!(FileId::new(Some(example()), "lib.typ").package(), Some(&example()));
}

#[test]
fn file_ids_compare_by_value() {
    let a = FileId::new(None, "assets/logo.png");
    assert!(a.same(&FileId::new(None, "/assets/./logo.png")));
    assert!(!a.same(&FileId::new(None, "assets/logo.jpg")));
    assert!(!a.same(&FileId::new(Some(example()), "assets/logo.png")));
    let p = FileId::new(Some(example()), "assets/logo.png");
    assert!(p.same(&FileId::new(Some(example()), "assets/logo.png")));
    let mut other = example();
    other.version.minor = 1;
    assert!(!p.same(&FileId::new(Some(other), "assets/logo.png")));
    assert!(a.clone().same(&a));
    assert_eq!(a.clone(), a);
}

#[test]
fn file_ids_resolve_below_a_root() {
    assert_eq!(
        FileId::new(None, "assets/logo.png").resolve("/project"),
        Some("/project/assets/logo.png".to_string())
    );
    assert_eq!(FileId::new(None, "a/../b").resolve("/project"), Some("/project/b".to_string()));
    assert_eq!(FileId::new(None, "../secret").resolve("/project"), None);
    assert_eq!(FileId::new(None, "../../secret").resolve("/project/sub"), None);
}

#[test]
fn source_holds_id_and_text() {
    let id = FileId::new(None, "chapter.typ");
    let source = Source::new(id.clone(), "= Title".to_string());
    assert!(source.id().same(&id));
    assert_eq!(source.text(), "= Title");
    assert_eq!(source.clone(), source);
    let main = Source::detached("hello".to_string());
    assert_eq!(main.text(), "hello");
    assert_eq!(main.id().vpath(), "/main.typ");
    assert!(main.id().package().is_none());
}

#[test]
fn entry_parses_utf8_and_drops_marks() {
    let id = FileId::new(None, "a.typ");
    let mut entry = FileEntry::new("\u{feff}= Ä".as_bytes().to_vec(), None);
    assert_eq!(entry.bytes(), &"\u{feff}= Ä".as_bytes().to_vec());
    let source = entry.source(id.clone()).unwrap();
    assert_eq!(source.text(), "= Ä");
    assert!(source.id().same(&id));
    // The bytes stay as they were.
    assert_eq!(entry.bytes(), &"\u{feff}= Ä".as_bytes().to_vec());
}

#[test]
fn entry_keeps_parsed_form() {
    let id = FileId::new(None, "a.typ");
    let mut entry = FileEntry::new(b"text".to_vec(), None);
    let first = entry.source(id.clone()).unwrap();
    // What was parsed first is returned from then on, whatever is asked with.
    let second = entry.source(FileId::new(None, "other.typ")).unwrap();
    assert_eq!(first, second);
    assert!(second.id().same(&id));
    let kept = Source::new(FileId::new(None, "kept.typ"), "kept".to_string());
    let mut entry = FileEntry::new(b"bytes".to_vec(), Some(kept.clone()));
    assert_eq!(entry.source(id), Ok(kept));
}

#[test]
fn entry_rejects_bytes_that_are_not_utf8() {
    let id = FileId::new(None, "logo.png");
    let mut entry = FileEntry::new(vec![0x89, b'P', b'N', b'G', 0xff], None);
    assert_eq!(entry.source(id.clone()), Err(FileError::InvalidUtf8));
    assert_eq!(entry.source(id), Err(FileError::InvalidUtf8));
    let mut entry = FileEntry::new(vec![0xc3], None);
    assert_eq!(entry.source(FileId::new(None, "x")), Err(FileError::InvalidUtf8));
    let mut entry = FileEntry::new(vec![0xed, 0xa0, 0x80], None);
    assert_eq!(entry.source(FileId::new(None, "x")), Err(FileError::InvalidUtf8));
    let mut entry = FileEntry::new(Vec::new(), None);
    assert_eq!(entry.source(FileId::new(None, "x")).unwrap().text(), "");
}

#[test]
fn cache_insert_replaces_and_insert_if_absent_keeps() {
    let a = FileId::new(None, "a");
    let b = FileId::new(None, "b");
    let mut cache = FileCache::new();
    assert_eq!(cache.get(&a), None);
    cache.insert_if_absent(a.clone(), FileEntry::new(vec![1], None));
    assert_eq!(cache.get(&a).unwrap().bytes(), &vec![1]);
    cache.insert_if_absent(a.clone(), FileEntry::new(vec![2], None));
    assert_eq!(cache.get(&a).unwrap().bytes(), &vec![1]);
    assert_eq!(cache.get(&b), None);
    cache.insert(b.clone(), FileEntry::new(vec![3], None));
    cache.insert(a.clone(), FileEntry::new(vec![4], None));
    assert_eq!(cache.get(&a).unwrap().bytes(), &vec![4]);
    assert_eq!(cache.get(&b).unwrap().bytes(), &vec![3]);
    cache.insert(b.clone(), FileEntry::new(vec![5], None));
    assert_eq!(cache.get(&a).unwrap().bytes(), &vec![4]);
    assert_eq!(cache.get(&b).unwrap().bytes(), &vec![5]);
}

#[test]
fn cache_parses_once_and_keeps_the_source() {
    let a = FileId::new(None, "a.typ");
    let mut cache = FileCache::new();
    assert_eq!(cache.source(&a), None);
    cache.insert(a.clone(), FileEntry::new(b"\xef\xbb\xbfabc".to_vec(), None));
    let first = cache.source(&a).unwrap().unwrap();
    assert_eq!(first.text(), "abc");
    assert_eq!(cache.get(&a).unwrap(), &FileEntry::new(b"\xef\xbb\xbfabc".to_vec(), Some(first.clone())));
    assert_eq!(cache.source(&a), Some(Ok(first)));
    cache.insert(FileId::new(None, "b.bin"), FileEntry::new(vec![0xff], None));
    assert_eq!(cache.source(&FileId::new(None, "b.bin")), Some(Err(FileError::InvalidUtf8)));
}
