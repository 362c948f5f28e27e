use zippery::config::{Config, SortColumn, ThemeConfig, ThemeKind, UiConfig};
use zippery::file::FileItem;
use zippery::manager::{plan_rename, Effect, Highlight, Manager, Message, RenamePlan};

fn file(path: &str, size: usize) -> FileItem {
    FileItem { path: path.to_string(), is_dir: false, size: Some(size), modified: None }
}

fn dir(path: &str) -> FileItem {
    FileItem { path: path.to_string(), is_dir: true, size: None, modified: None }
}

fn config(bg: Option<&str>, sort: (SortColumn, bool)) -> Config {
    Config {
        ui: UiConfig { bg_cache: bg.map(|s| s.to_string()), theme: ThemeConfig { theme: ThemeKind::Light, follow_system: true } },
        sort,
    }
}

fn manager() -> Manager {
    let files = vec![file("/home/u/b.txt", 10), dir("/home/u/docs"), file("/home/u/a.txt", 20)];
    Manager::new(config(None, (SortColumn::Name, false)), "/home/u".to_string(), files).0
}

fn paths(m: &Manager) -> Vec<String> {
    m.files().iter().map(|f| f.path.clone()).collect()
}

#[test]
fn new_sorts_and_starts_idle() {
    let (m, e) = Manager::new(config(None, (SortColumn::Size, true)), "/home/u".to_string(), vec![file("/home/u/b.txt", 10), dir("/home/u/docs"), file("/home/u/a.txt", 20)]);
    assert!(matches!(e, Effect::Nothing));
    assert_eq!(paths(&m), vec!["/home/u/docs", "/home/u/a.txt", "/home/u/b.txt"]);
    assert_eq!(m.current_dir(), "/home/u");
    assert_eq!(m.hovered(), None);
    assert!(m.selected().is_empty());
    assert_eq!(m.renaming(), None);
    assert_eq!(m.buffer(), "");
    assert!(m.error().is_none());
    assert_eq!(m.config().sort, (SortColumn::Size, true));
}

#[test]
fn new_asks_for_the_cached_background() {
    let (_m, e) = Manager::new(config(Some("/pics/bg.png"), (SortColumn::Name, false)), "/".to_string(), vec![]);
    match e {
        Effect::LoadBackground(p) => assert_eq!(p, "/pics/bg.png"),
        other => panic!("unexpected {:?}", other),
    }
}

#[test]
fn hover_and_unhover() {
    let mut m = manager();
    assert!(matches!(m.update(Message::Hover(2)), Effect::Nothing));
    assert_eq!(m.hovered(), Some(2));
    m.update(Message::Unhover(1));
    assert_eq!(m.hovered(), Some(2));
    m.update(Message::Unhover(2));
    assert_eq!(m.hovered(), None);
}

#[test]
fn click_selects_and_second_click_edits_the_name() {
    let mut m = manager();
    m.update(Message::Click(1));
    assert_eq!(m.selected(), &vec![1]);
    assert_eq!(m.renaming(), None);
    m.update(Message::Click(1));
    assert_eq!(m.renaming(), Some(1));
    assert_eq!(m.buffer(), "a.txt");
    m.update(Message::Click(2));
    assert_eq!(m.selected(), &vec![2]);
    assert_eq!(m.renaming(), None);
}

#[test]
fn second_click_past_the_end_does_nothing() {
    let mut m = manager();
    m.update(Message::Click(7));
    m.update(Message::Click(7));
    assert_eq!(m.selected(), &vec![7]);
    assert_eq!(m.renaming(), None);
    assert_eq!(m.buffer(), "");
}

#[test]
fn clear_selection() {
    let mut m = manager();
    m.update(Message::Click(0));
    m.update(Message::Click(0));
    m.update(Message::ClearSelection);
    assert!(m.selected().is_empty());
    assert_eq!(m.renaming(), None);
}

#[test]
fn open_a_directory_moves_into_it() {
    let mut m = manager();
    match m.update(Message::Open(0)) {
        Effect::CheckDir { index, path } => {
            assert_eq!(index, 0);
            assert_eq!(path, "/home/u/docs");
        }
        other => panic!("unexpected {:?}", other),
    }
    assert_eq!(m.current_dir(), "/home/u");
    match m.update(Message::DirChecked(0, true)) {
        Effect::ReadDir(d) => assert_eq!(d, "/home/u/docs"),
        other => panic!("unexpected {:?}", other),
    }
    assert_eq!(m.current_dir(), "/home/u/docs");
    m.set_files(vec![file("/home/u/docs/z", 1), file("/home/u/docs/y", 2)]);
    assert_eq!(paths(&m), vec!["/home/u/docs/z", "/home/u/docs/y"]);
}

#[test]
fn open_a_file_asks_to_open_it() {
    let mut m = manager();
    m.update(Message::Click(2));
    m.update(Message::Click(2));
    assert!(matches!(m.update(Message::Open(2)), Effect::CheckDir { index: 2, .. }));
    assert_eq!(m.renaming(), Some(2));
    match m.update(Message::DirChecked(2, false)) {
        Effect::OpenPath(p) => assert_eq!(p, "/home/u/b.txt"),
        other => panic!("unexpected {:?}", other),
    }
    assert_eq!(m.renaming(), None);
    assert_eq!(m.current_dir(), "/home/u");
    assert!(matches!(m.update(Message::Open(9)), Effect::Nothing));
    assert!(matches!(m.update(Message::DirChecked(9, true)), Effect::Nothing));
}

#[test]
fn the_file_system_decides_what_opening_does() {
    let mut m = manager();
    // The listing took the entry for a directory, but the file system now says it is a file.
    m.update(Message::Open(0));
    match m.update(Message::DirChecked(0, false)) {
        Effect::OpenPath(p) => assert_eq!(p, "/home/u/docs"),
        other => panic!("unexpected {:?}", other),
    }
    assert_eq!(m.current_dir(), "/home/u");
}

#[test]
fn go_up() {
    let mut m = manager();
    match m.update(Message::Goup) {
        Effect::ReadDir(d) => assert_eq!(d, "/home"),
        other => panic!("unexpected {:?}", other),
    }
    assert_eq!(m.current_dir(), "/home");
    m.update(Message::Goup);
    assert_eq!(m.current_dir(), "/");
    assert!(matches!(m.update(Message::Goup), Effect::Nothing));
    assert_eq!(m.current_dir(), "/");
}

#[test]
fn rename_moves_within_the_directory() {
    let mut m = manager();
    m.update(Message::Click(1));
    m.update(Message::Click(1));
    m.update(Message::Input("c.txt".to_string()));
    match m.update(Message::Rename(1)) {
        Effect::RenameFile { index, from, to } => {
            assert_eq!(index, 1);
            assert_eq!(from, "/home/u/a.txt");
            assert_eq!(to, "/home/u/c.txt");
            m.finish_rename(index, Ok(to));
        }
        other => panic!("unexpected {:?}", other),
    }
    assert_eq!(m.files()[1].path, "/home/u/c.txt");
    assert_eq!(m.files()[1].size, Some(20));
    assert_eq!(m.renaming(), None);
    assert_eq!(m.buffer(), "");
}

#[test]
fn failed_rename_shows_the_error() {
    let mut m = manager();
    m.update(Message::Input("c.txt".to_string()));
    m.update(Message::Rename(1));
    m.finish_rename(1, Err("permission denied".to_string()));
    assert_eq!(m.error().map(|s| s.as_str()), Some("permission denied"));
    assert_eq!(m.files()[1].path, "/home/u/a.txt");
    m.update(Message::CloseError);
    assert!(m.error().is_none());
}

#[test]
fn blank_name_keeps_the_entry() {
    let mut m = manager();
    m.update(Message::Click(1));
    m.update(Message::Click(1));
    m.update(Message::Input("  \t ".to_string()));
    assert!(matches!(m.update(Message::Rename(1)), Effect::Nothing));
    assert_eq!(m.files()[1].path, "/home/u/a.txt");
    assert_eq!(m.renaming(), None);
    assert_eq!(m.buffer(), "");
}

#[test]
fn rename_without_parent_is_an_error() {
    let (mut m, _) = Manager::new(config(None, (SortColumn::Name, false)), "/".to_string(), vec![dir("/")]);
    m.update(Message::Input("x".to_string()));
    assert!(matches!(m.update(Message::Rename(0)), Effect::Nothing));
    assert_eq!(m.error().map(|s| s.as_str()), Some("No parent directory"));
    assert!(matches!(m.update(Message::Rename(5)), Effect::Nothing));
}

#[test]
fn rename_plans() {
    assert!(matches!(plan_rename("/a/b", ""), RenamePlan::Keep));
    assert!(matches!(plan_rename("/a/b", " \n"), RenamePlan::Keep));
    assert!(matches!(plan_rename("/", "x"), RenamePlan::NoParent));
    assert!(matches!(plan_rename("", "x"), RenamePlan::NoParent));
    match plan_rename("/a/b", "c d") {
        RenamePlan::Move(p) => assert_eq!(p, "/a/c d"),
        other => panic!("unexpected {:?}", other),
    }
    match plan_rename("b", "c") {
        RenamePlan::Move(p) => assert_eq!(p, "c"),
        other => panic!("unexpected {:?}", other),
    }
}

#[test]
fn sort_by_toggles_and_resorts() {
    let mut m = manager();
    match m.update(Message::SortBy(SortColumn::Name)) {
        Effect::CheckDirs(ps) => assert_eq!(ps, vec!["/home/u/docs", "/home/u/a.txt", "/home/u/b.txt"]),
        other => panic!("unexpected {:?}", other),
    }
    assert_eq!(m.config().sort, (SortColumn::Name, true));
    assert_eq!(paths(&m), vec!["/home/u/docs", "/home/u/a.txt", "/home/u/b.txt"]);
    m.update(Message::DirsChecked(vec![true, false, false]));
    assert_eq!(paths(&m), vec!["/home/u/docs", "/home/u/b.txt", "/home/u/a.txt"]);
    m.update(Message::SortBy(SortColumn::Size));
    m.update(Message::DirsChecked(vec![true, false, false]));
    assert_eq!(m.config().sort, (SortColumn::Size, true));
    assert_eq!(paths(&m), vec!["/home/u/docs", "/home/u/a.txt", "/home/u/b.txt"]);
    m.update(Message::SortBy(SortColumn::Size));
    m.update(Message::DirsChecked(vec![true, false, false]));
    assert_eq!(m.config().sort, (SortColumn::Size, false));
    assert_eq!(paths(&m), vec!["/home/u/docs", "/home/u/b.txt", "/home/u/a.txt"]);
}

#[test]
fn menu_and_background() {
    let mut m = manager();
    assert!(matches!(m.update(Message::Menu("File".to_string())), Effect::OpenFileWindow));
    assert!(matches!(m.update(Message::Menu("Edit".to_string())), Effect::Nothing));
    assert!(matches!(m.update(Message::PickBackground), Effect::PickBackground));
    assert!(matches!(m.update(Message::LoadBackground(None)), Effect::Nothing));
    match m.update(Message::LoadBackground(Some("/p/x.png".to_string()))) {
        Effect::LoadBackground(p) => assert_eq!(p, "/p/x.png"),
        other => panic!("unexpected {:?}", other),
    }
    m.update(Message::BackgroundLoaded(None));
    assert!(m.config().ui.bg_cache.is_none());
    m.update(Message::BackgroundLoaded(Some("/p/x.png".to_string())));
    assert_eq!(m.config().ui.bg_cache.as_deref(), Some("/p/x.png"));
}

#[test]
fn highlights() {
    let mut m = manager();
    m.update(Message::Hover(0));
    m.update(Message::Click(1));
    assert_eq!(m.highlight(0), Highlight::Hovered);
    assert_eq!(m.highlight(1), Highlight::Selected);
    assert_eq!(m.highlight(2), Highlight::Plain);
    m.update(Message::Hover(1));
    assert_eq!(m.highlight(1), Highlight::Selected);
    m.update(Message::Click(1));
    assert!(m.is_renaming(1));
    assert!(!m.is_renaming(0));
}

#[test]
fn only_sorting_listing_and_moves_change_the_entries() {
    let mut m = manager();
    let before = paths(&m);
    m.update(Message::Hover(1));
    m.update(Message::Click(1));
    m.update(Message::Click(1));
    m.update(Message::Input("zzz".to_string()));
    m.update(Message::ClearSelection);
    m.update(Message::CloseError);
    m.update(Message::Menu("File".to_string()));
    m.update(Message::RenameFailed(1, "no".to_string()));
    assert_eq!(paths(&m), before);
    m.update(Message::Renamed(1, "/home/u/q.txt".to_string()));
    assert_eq!(paths(&m), vec!["/home/u/docs", "/home/u/q.txt", "/home/u/b.txt"]);
    m.update(Message::Renamed(9, "/x".to_string()));
    assert_eq!(m.files().len(), 3);
}

#[test]
fn sorting_goes_by_the_file_system_answer() {
    let mut m = manager();
    m.update(Message::SortBy(SortColumn::Size));
    // docs is now a file of unknown size, b.txt a directory.
    m.update(Message::DirsChecked(vec![false, false, true]));
    assert_eq!(paths(&m), vec!["/home/u/b.txt", "/home/u/docs", "/home/u/a.txt"]);
    assert!(m.files()[0].is_dir);
    assert!(!m.files()[1].is_dir);
    // An answer of the wrong length changes nothing.
    m.update(Message::DirsChecked(vec![true]));
    assert_eq!(paths(&m), vec!["/home/u/b.txt", "/home/u/docs", "/home/u/a.txt"]);
}
