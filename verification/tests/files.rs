use zippery::config::SortColumn;
use zippery::file::{compare_items, sort_files, EntryMeta, FileItem};
use zippery::order::{compare_str, Order};

fn file(path: &str, size: usize, secs: i64) -> FileItem {
    FileItem { path: path.to_string(), is_dir: false, size: Some(size), modified: Some((secs, 0)) }
}

fn dir(path: &str) -> FileItem {
    FileItem { path: path.to_string(), is_dir: true, size: None, modified: None }
}

fn paths(files: &[FileItem]) -> Vec<&str> {
    files.iter().map(|f| f.path.as_str()).collect()
}

#[test]
fn directories_come_first() {
    let mut v = vec![file("/d/a.txt", 1, 0), dir("/d/zeta"), file("/d/b.txt", 2, 0), dir("/d/alpha")];
    sort_files(&mut v, (SortColumn::Name, false));
    assert_eq!(paths(&v), vec!["/d/alpha", "/d/zeta", "/d/a.txt", "/d/b.txt"]);
}

#[test]
fn directories_come_first_when_descending() {
    let mut v = vec![file("/d/a.txt", 1, 0), dir("/d/zeta"), file("/d/b.txt", 2, 0), dir("/d/alpha")];
    sort_files(&mut v, (SortColumn::Name, true));
    assert_eq!(paths(&v), vec!["/d/zeta", "/d/alpha", "/d/b.txt", "/d/a.txt"]);
}

#[test]
fn names_ignore_case() {
    let mut v = vec![file("/d/Banana", 0, 0), file("/d/apple", 0, 0), file("/d/Cherry", 0, 0)];
    sort_files(&mut v, (SortColumn::Name, false));
    assert_eq!(paths(&v), vec!["/d/apple", "/d/Banana", "/d/Cherry"]);
}

#[test]
fn a_prefix_comes_first() {
    let mut v = vec![file("/d/abc", 0, 0), file("/d/ab", 0, 0)];
    sort_files(&mut v, (SortColumn::Name, false));
    assert_eq!(paths(&v), vec!["/d/ab", "/d/abc"]);
}

#[test]
fn sizes_order_numerically_and_unknown_counts_as_zero() {
    let mut v = vec![file("/d/big", 300, 0), file("/d/small", 2, 0), FileItem { path: "/d/none".to_string(), is_dir: false, size: None, modified: None }, file("/d/mid", 20, 0)];
    sort_files(&mut v, (SortColumn::Size, false));
    assert_eq!(paths(&v), vec!["/d/none", "/d/small", "/d/mid", "/d/big"]);
    sort_files(&mut v, (SortColumn::Size, true));
    assert_eq!(paths(&v), vec!["/d/big", "/d/mid", "/d/small", "/d/none"]);
}

#[test]
fn times_order_by_seconds_then_nanoseconds() {
    let mut v = vec![
        FileItem { path: "/d/c".to_string(), is_dir: false, size: None, modified: Some((10, 5)) },
        FileItem { path: "/d/a".to_string(), is_dir: false, size: None, modified: Some((10, 1)) },
        FileItem { path: "/d/old".to_string(), is_dir: false, size: None, modified: Some((-5, 0)) },
        FileItem { path: "/d/b".to_string(), is_dir: false, size: None, modified: Some((9, 999)) },
        FileItem { path: "/d/unknown".to_string(), is_dir: false, size: None, modified: None },
    ];
    sort_files(&mut v, (SortColumn::Modified, false));
    assert_eq!(paths(&v), vec!["/d/old", "/d/unknown", "/d/b", "/d/a", "/d/c"]);
}

#[test]
fn equal_keys_keep_their_order() {
    let mut v = vec![file("/d/x", 5, 0), file("/d/y", 1, 0), file("/d/z", 5, 0), file("/d/w", 5, 0)];
    sort_files(&mut v, (SortColumn::Size, false));
    assert_eq!(paths(&v), vec!["/d/y", "/d/x", "/d/z", "/d/w"]);
    let mut v = vec![file("/d/x", 5, 0), file("/d/y", 1, 0), file("/d/z", 5, 0), file("/d/w", 5, 0)];
    sort_files(&mut v, (SortColumn::Size, true));
    assert_eq!(paths(&v), vec!["/d/x", "/d/z", "/d/w", "/d/y"]);
}

#[test]
fn same_name_in_other_case_keeps_order() {
    let mut v = vec![file("/a/README", 0, 0), file("/b/readme", 0, 0), file("/c/ReadMe", 0, 0)];
    sort_files(&mut v, (SortColumn::Name, false));
    assert_eq!(paths(&v), vec!["/a/README", "/b/readme", "/c/ReadMe"]);
}

#[test]
fn sorting_a_sorted_list_changes_nothing() {
    let mut v = vec![dir("/d/b"), file("/d/a", 3, 0), file("/d/C", 1, 0), dir("/d/A")];
    sort_files(&mut v, (SortColumn::Name, false));
    let first: Vec<String> = v.iter().map(|f| f.path.clone()).collect();
    sort_files(&mut v, (SortColumn::Name, false));
    let second: Vec<String> = v.iter().map(|f| f.path.clone()).collect();
    assert_eq!(first, second);
}

#[test]
fn empty_and_single_lists() {
    let mut v: Vec<FileItem> = vec![];
    sort_files(&mut v, (SortColumn::Name, false));
    assert!(v.is_empty());
    let mut v = vec![file("/d/only", 1, 1)];
    sort_files(&mut v, (SortColumn::Size, true));
    assert_eq!(paths(&v), vec!["/d/only"]);
}

#[test]
fn comparisons() {
    let (a, b) = (file("/d/a", 1, 0), dir("/d/b"));
    assert_eq!(compare_items(&a, &b, (SortColumn::Name, false)), Order::Greater);
    assert_eq!(compare_items(&b, &a, (SortColumn::Name, true)), Order::Less);
    assert_eq!(compare_items(&a, &file("/e/A", 9, 0), (SortColumn::Name, false)), Order::Equal);
    assert_eq!(compare_items(&a, &file("/e/A", 9, 0), (SortColumn::Size, false)), Order::Less);
    assert_eq!(compare_items(&a, &file("/e/A", 9, 0), (SortColumn::Size, true)), Order::Greater);
    assert_eq!(Order::Less.reverse(), Order::Greater);
    assert_eq!(Order::Equal.reverse(), Order::Equal);
}

#[test]
fn string_comparison() {
    assert_eq!(compare_str("abc", "abd"), Order::Less);
    assert_eq!(compare_str("abc", "abc"), Order::Equal);
    assert_eq!(compare_str("b", "abc"), Order::Greater);
    assert_eq!(compare_str("", "a"), Order::Less);
    assert_eq!(compare_str("é", "z"), Order::Greater);
    assert_eq!(compare_str("Z", "a"), Order::Less);
}

#[test]
fn entries_from_a_listing() {
    let d = FileItem::from_listing("/d/sub".to_string(), Some(EntryMeta { is_dir: true, len: 4096, modified: Some((7, 8)) }));
    assert!(d.is_dir);
    assert_eq!(d.size, None);
    assert_eq!(d.modified, Some((7, 8)));
    let f = FileItem::from_listing("/d/f".to_string(), Some(EntryMeta { is_dir: false, len: 1234, modified: None }));
    assert!(!f.is_dir);
    assert_eq!(f.size, Some(1234));
    assert_eq!(f.modified, None);
    let u = FileItem::from_listing("/d/gone".to_string(), None);
    assert_eq!(u.path, "/d/gone");
    assert!(!u.is_dir);
    assert_eq!(u.size, None);
    assert_eq!(u.modified, None);
}

#[test]
fn unknown_time_shows_nothing() {
    let u = FileItem { path: "/d/x".to_string(), is_dir: false, size: None, modified: None };
    assert_eq!(u.display_modified(), "");
}

#[test]
fn known_time_shows_date_and_minute() {
    let f = file("/d/x", 0, 1_700_000_000);
    let s = f.display_modified();
    assert_eq!(s.len(), 16);
    assert_eq!(&s[4..5], "-");
    assert_eq!(&s[7..8], "-");
    assert_eq!(&s[10..11], " ");
    assert_eq!(&s[13..14], ":");
    for (i, c) in s.chars().enumerate() {
        if ![4, 7, 10, 13].contains(&i) {
            assert!(c.is_ascii_digit());
        }
    }
}

#[test]
fn two_sorts_of_the_same_list_agree() {
    let make = || vec![file("/d/b", 2, 3), dir("/d/x"), file("/d/a", 2, 1), file("/d/c", 1, 2), dir("/d/X")];
    let mut first = make();
    let mut second = make();
    sort_files(&mut first, (SortColumn::Size, true));
    sort_files(&mut second, (SortColumn::Size, true));
    assert_eq!(paths(&first), paths(&second));
    assert_eq!(paths(&first), vec!["/d/x", "/d/X", "/d/b", "/d/a", "/d/c"]);
}

#[test]
fn entry_names() {
    assert_eq!(file("/d/e/report.txt", 0, 0).name(), "report.txt");
    assert_eq!(dir("/").name(), "");
    assert_eq!(dir("/d/..").name(), "");
}

#[test]
fn white_space_agrees_with_the_standard_library() {
    for u in 0u32..=0x10FFFF {
        if let Some(c) = char::from_u32(u) {
            assert_eq!(zippery::paths::is_whitespace(c), c.is_whitespace(), "U+{:04X}", u);
        }
    }
    assert!(zippery::paths::is_blank(" \t\u{3000}\n"));
    assert!(!zippery::paths::is_blank(" a "));
    assert!(zippery::paths::is_blank(""));
}
