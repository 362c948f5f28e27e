use vstd::prelude::*;

use crate::config::{Config, SortColumn, ThemeConfig, next_sort, toggle_sort};
use crate::file::{FileItem, name_or_empty, sort_files, stable_sort_of};
use crate::paths::{blank, file_name_of, is_blank, join, joined, opt_view, parent, parent_of};

verus! {

/// What the user does in the file manager window, and what comes back of
/// the work it asked for.
#[derive(Clone, Debug)]
pub enum Message {
    /// A menu entry was picked.
    Menu(String),
    /// An entry was clicked.
    Click(usize),
    /// The empty area was clicked.
    ClearSelection,
    /// The pointer entered an entry.
    Hover(usize),
    /// The pointer left an entry.
    Unhover(usize),
    /// An entry was double-clicked; the file system is asked whether it is a
    /// directory.
    Open(usize),
    /// The file system's answer for the entry double-clicked: a directory is
    /// entered, a file is opened.
    DirChecked(usize, bool),
    /// The edited name of an entry was submitted.
    Rename(usize),
    /// The text in the name editor changed.
    Input(String),
    /// The button to the parent directory was pressed.
    Goup,
    /// The error message was dismissed.
    CloseError,
    /// A column header was clicked; the file system is asked which entries
    /// are directories.
    SortBy(SortColumn),
    /// The file system's answer, entry by entry, whether the entries are
    /// directories: the list is sorted by it.
    DirsChecked(Vec<bool>),
    /// The button to choose a background image was pressed.
    PickBackground,
    /// A background image was chosen, or the choice was cancelled.
    LoadBackground(Option<String>),
    /// The background image at this path was loaded, or loading it failed.
    BackgroundLoaded(Option<String>),
    /// A fresh listing of the directory shown.
    Listed(Vec<FileItem>),
    /// Entry `index` has moved to this path.
    Renamed(usize, String),
    /// Moving entry `index` failed with this message.
    RenameFailed(usize, String),
    /// A request to the application, which the window passes on.
    Request(Request),
}

/// What the file manager asks of the application.
#[derive(Clone, Copy, Debug, PartialEq, Eq, Structural)]
pub enum Request {
    /// Open the About window.
    OpenAbout,
}

/// The work the file manager asks its caller to do.
#[derive(Debug)]
pub enum Effect {
    /// Nothing.
    Nothing,
    /// Open the window of the file menu.
    OpenFileWindow,
    /// List this directory and hand the entries back as `Message::Listed`.
    ReadDir(String),
    /// Open this file with the program the system associates with it.
    OpenPath(String),
    /// Ask the file system whether the entry `index` at `path` is a
    /// directory, and hand the answer back as `Message::DirChecked`.
    CheckDir { index: usize, path: String },
    /// Ask the file system, for each of these paths, whether it is a
    /// directory, and hand the answers back as `Message::DirsChecked`.
    CheckDirs(Vec<String>),
    /// Move the file at `from` to `to`, and hand the outcome back as
    /// `Message::Renamed` or `Message::RenameFailed` for entry `index`.
    RenameFile { index: usize, from: String, to: String },
    /// Let the user choose a background image, and hand the choice back as
    /// `Message::LoadBackground`.
    PickBackground,
    /// Load the image at this path, and hand the outcome back as
    /// `Message::BackgroundLoaded`.
    LoadBackground(String),
}

/// What to do with a submitted name.
#[derive(Debug)]
pub enum RenamePlan {
    /// The name is blank: the entry keeps its path.
    Keep,
    /// The path has no parent directory to rename in.
    NoParent,
    /// Move the entry to this path.
    Move(String),
}

/// The plan for renaming the entry at `old_path` to `new_name`.
pub open spec fn rename_plan(old_path: Seq<char>, new_name: Seq<char>) -> Option<Option<Seq<char>>> {
    if blank(new_name) {
        None
    } else {
        match parent_of(old_path) {
            Some(dir) => Some(Some(joined(dir, new_name))),
            None => Some(None),
        }
    }
}

/// The view of a rename plan: `None` to keep the path, `Some(None)` when there
/// is no parent directory, `Some(Some(p))` to move to `p`.
pub open spec fn plan_view(p: RenamePlan) -> Option<Option<Seq<char>>> {
    match p {
        RenamePlan::Keep => None,
        RenamePlan::NoParent => Some(None),
        RenamePlan::Move(to) => Some(Some(to@)),
    }
}

/// Decides what renaming the entry at `old_path` to `new_name` means: a blank
/// name keeps the path, a path without parent cannot be renamed, and
/// otherwise the entry moves to `new_name` in the same directory.
pub fn plan_rename(old_path: &str, new_name: &str) -> (r: RenamePlan)
    ensures
        plan_view(r) == rename_plan(old_path@, new_name@),
{
    if is_blank(new_name) {
        return RenamePlan::Keep;
    }
    match parent(old_path) {
        Some(dir) => RenamePlan::Move(join(dir.as_str(), new_name)),
        None => RenamePlan::NoParent,
    }
}

/// The message shown when an entry without parent directory is renamed.
pub open spec fn no_parent_message() -> Seq<char> {
    "No parent directory"@
}

/// The state of the file manager window.
#[derive(Debug)]
pub struct Manager {
    config: Config,
    current_dir: String,
    files: Vec<FileItem>,
    hovered: Option<usize>,
    selected: Vec<usize>,
    renaming: Option<usize>,
    buffer: String,
    error: Option<String>,
}

/// The mathematical value of the file manager's state.
pub struct ManagerModel {
    pub sort: (SortColumn, bool),
    pub bg_cache: Option<Seq<char>>,
    pub theme: ThemeConfig,
    pub current_dir: Seq<char>,
    pub files: Seq<FileItem>,
    pub hovered: Option<usize>,
    pub selected: Seq<usize>,
    pub renaming: Option<usize>,
    pub buffer: Seq<char>,
    pub error: Option<Seq<char>>,
}

impl View for Manager {
    type V = ManagerModel;

    closed spec fn view(&self) -> ManagerModel {
        ManagerModel {
            sort: self.config.sort,
            bg_cache: opt_view(self.config.ui.bg_cache),
            theme: self.config.ui.theme,
            current_dir: self.current_dir@,
            files: self.files@,
            hovered: self.hovered,
            selected: self.selected@,
            renaming: self.renaming,
            buffer: self.buffer@,
            error: opt_view(self.error),
        }
    }
}

/// `paths` are the paths of `files`, in order.
pub open spec fn paths_of(paths: Seq<String>, files: Seq<FileItem>) -> bool {
    &&& paths.len() == files.len()
    &&& forall|i: int| 0 <= i < paths.len() ==> (#[trigger] paths[i])@ == files[i].path@
}

/// `files` with the directory flags `flags`.
pub open spec fn with_dirs(files: Seq<FileItem>, flags: Seq<bool>) -> Seq<FileItem> {
    Seq::new(files.len(), |i: int| FileItem { is_dir: flags[i], ..files[i] })
}

/// How one message changes the state `pre` into `post` and what it asks for.
pub open spec fn update_post(pre: ManagerModel, msg: Message, post: ManagerModel, eff: Effect) -> bool {
    match msg {
        Message::Menu(action) => post == pre && if action@ == "File"@ {
            eff is OpenFileWindow
        } else {
            eff is Nothing
        },
        Message::Goup => match parent_of(pre.current_dir) {
            Some(dir) => post == ManagerModel { current_dir: dir, ..pre } && (eff matches Effect::ReadDir(d) && d@ == dir),
            None => post == pre && eff is Nothing,
        },
        Message::Hover(i) => post == ManagerModel { hovered: Some(i), ..pre } && eff is Nothing,
        Message::Unhover(i) => eff is Nothing && if pre.hovered == Some(i) {
            post == ManagerModel { hovered: None, ..pre }
        } else {
            post == pre
        },
        Message::Click(i) => eff is Nothing && if pre.selected.len() != 1 || i != pre.selected[0] {
            post == ManagerModel { selected: seq![i], renaming: None, ..pre }
        } else if i < pre.files.len() {
            post == ManagerModel {
                renaming: Some(i),
                buffer: name_or_empty(pre.files[i as int].path@),
                ..pre
            }
        } else {
            post == pre
        },
        Message::Open(i) => if i < pre.files.len() {
            post == pre && (eff matches Effect::CheckDir { index, path } && index == i && path@
                == pre.files[i as int].path@)
        } else {
            post == pre && eff is Nothing
        },
        Message::DirChecked(i, is_dir) => if i < pre.files.len() {
            let path = pre.files[i as int].path@;
            if is_dir {
                post == ManagerModel { current_dir: path, renaming: None, ..pre } && (eff matches Effect::ReadDir(d) && d@ == path)
            } else {
                post == ManagerModel { renaming: None, ..pre } && (eff matches Effect::OpenPath(d) && d@ == path)
            }
        } else {
            post == pre && eff is Nothing
        },
        Message::ClearSelection => post == ManagerModel { selected: Seq::empty(), renaming: None, ..pre } && eff is Nothing,
        Message::Rename(i) => if i < pre.files.len() {
            let from = pre.files[i as int].path@;
            match rename_plan(from, pre.buffer) {
                None => post == ManagerModel { renaming: None, buffer: Seq::empty(), ..pre } && eff is Nothing,
                Some(None) => post == ManagerModel { error: Some(no_parent_message()), ..pre } && eff is Nothing,
                Some(Some(to)) => post == pre && (eff matches Effect::RenameFile { index, from: f, to: t } && index == i && f@ == from && t@ == to),
            }
        } else {
            post == pre && eff is Nothing
        },
        Message::Input(s) => post == ManagerModel { buffer: s@, ..pre } && eff is Nothing,
        Message::CloseError => post == ManagerModel { error: None, ..pre } && eff is Nothing,
        Message::SortBy(col) => {
            &&& post == ManagerModel { sort: next_sort(pre.sort, col), ..pre }
            &&& eff matches Effect::CheckDirs(paths) && paths_of(paths@, pre.files)
        },
        Message::DirsChecked(flags) => eff is Nothing && if flags@.len() == pre.files.len() {
            &&& post == ManagerModel { files: post.files, ..pre }
            &&& stable_sort_of(with_dirs(pre.files, flags@), post.files, pre.sort)
        } else {
            post == pre
        },
        Message::PickBackground => post == pre && eff is PickBackground,
        Message::LoadBackground(choice) => post == pre && match choice {
            Some(p) => eff matches Effect::LoadBackground(q) && q@ == p@,
            None => eff is Nothing,
        },
        Message::BackgroundLoaded(loaded) => eff is Nothing && match loaded {
            Some(p) => post == ManagerModel { bg_cache: Some(p@), ..pre },
            None => post == pre,
        },
        Message::Listed(files) => post == ManagerModel { files: files@, ..pre } && eff is Nothing,
        Message::Renamed(i, path) => rename_done_post(pre, i, Ok(path), post) && eff is Nothing,
        Message::RenameFailed(i, e) => rename_done_post(pre, i, Err(e), post) && eff is Nothing,
        Message::Request(_) => post == pre && eff is Nothing,
    }
}

/// How an entry of the list is highlighted.
#[derive(Clone, Copy, Debug, PartialEq, Eq, Structural)]
pub enum Highlight {
    Selected,
    Hovered,
    Plain,
}

/// How entry `index` is drawn: selection shows over hovering.
pub open spec fn highlight_of(m: ManagerModel, index: usize) -> Highlight {
    if m.selected.contains(index) {
        Highlight::Selected
    } else if m.hovered == Some(index) {
        Highlight::Hovered
    } else {
        Highlight::Plain
    }
}

/// How the outcome of a move of entry `i` changes the state `pre` into `post`.
pub open spec fn rename_done_post(
    pre: ManagerModel,
    i: usize,
    outcome: Result<String, String>,
    post: ManagerModel,
) -> bool {
    if i < pre.files.len() {
        match outcome {
            Ok(path) => post == ManagerModel {
                files: pre.files.update(i as int, FileItem { path, ..pre.files[i as int] }),
                renaming: None,
                buffer: Seq::empty(),
                ..pre
            },
            Err(e) => post == ManagerModel { error: Some(e@), ..pre },
        }
    } else {
        post == pre
    }
}

impl Manager {
    /// The file manager showing directory `current_dir`, whose entries are
    /// `files`, with settings `config`: the entries, as the listing just
    /// found them, are sorted by the saved order, nothing is hovered, selected or being renamed, and a cached
    /// background image is asked to be loaded.
    pub fn new(config: Config, current_dir: String, files: Vec<FileItem>) -> (r: (Manager, Effect))
        ensures
            r.0@.sort == config.sort,
            r.0@.bg_cache == opt_view(config.ui.bg_cache),
            r.0@.theme == config.ui.theme,
            r.0@.current_dir == current_dir@,
            stable_sort_of(files@, r.0@.files, config.sort),
            r.0@.hovered is None,
            r.0@.selected == Seq::<usize>::empty(),
            r.0@.renaming is None,
            r.0@.buffer == Seq::<char>::empty(),
            r.0@.error is None,
            match config.ui.bg_cache {
                Some(p) => r.1 matches Effect::LoadBackground(q) && q@ == p@,
                None => r.1 is Nothing,
            },
    {
        let mut files = files;
        sort_files(&mut files, config.sort);
        let effect = match &config.ui.bg_cache {
            Some(p) => Effect::LoadBackground(p.clone()),
            None => Effect::Nothing,
        };
        let m = Manager {
            config,
            current_dir,
            files,
            hovered: None,
            selected: Vec::new(),
            renaming: None,
            buffer: String::new(),
            error: None,
        };
        (m, effect)
    }

    /// The saved settings.
    pub fn config(&self) -> (r: &Config)
        ensures
            r.sort == self@.sort,
            opt_view(r.ui.bg_cache) == self@.bg_cache,
            r.ui.theme == self@.theme,
    {
        &self.config
    }

    /// The directory shown.
    pub fn current_dir(&self) -> (r: &str)
        ensures
            r@ == self@.current_dir,
    {
        self.current_dir.as_str()
    }

    /// The entries of the directory shown, in the order shown.
    pub fn files(&self) -> (r: &Vec<FileItem>)
        ensures
            r@ == self@.files,
    {
        &self.files
    }

    /// The entry under the pointer.
    pub fn hovered(&self) -> (r: Option<usize>)
        ensures
            r == self@.hovered,
    {
        self.hovered
    }

    /// The selected entries.
    pub fn selected(&self) -> (r: &Vec<usize>)
        ensures
            r@ == self@.selected,
    {
        &self.selected
    }

    /// The entry whose name is being edited.
    pub fn renaming(&self) -> (r: Option<usize>)
        ensures
            r == self@.renaming,
    {
        self.renaming
    }

    /// The text of the name editor.
    pub fn buffer(&self) -> (r: &str)
        ensures
            r@ == self@.buffer,
    {
        self.buffer.as_str()
    }

    /// The error message shown, if any.
    pub fn error(&self) -> (r: Option<&String>)
        ensures
            match r {
                Some(e) => self@.error == Some(e@),
                None => self@.error is None,
            },
    {
        match &self.error {
            Some(e) => Some(e),
            None => None,
        }
    }

    /// How entry `index` is highlighted.
    pub fn highlight(&self, index: usize) -> (r: Highlight)
        ensures
            r == highlight_of(self@, index),
    {
        let mut k: usize = 0;
        while k < self.selected.len()
            invariant
                k <= self.selected@.len(),
                forall|j: int| 0 <= j < k ==> self.selected@[j] != index,
            decreases self.selected@.len() - k,
        {
            if self.selected[k] == index {
                assert(self.selected@[k as int] == index);
                return Highlight::Selected;
            }
            k = k + 1;
        }
        if self.hovered == Some(index) {
            Highlight::Hovered
        } else {
            Highlight::Plain
        }
    }

    /// Whether entry `index` shows the name editor.
    pub fn is_renaming(&self, index: usize) -> (r: bool)
        ensures
            r == (self@.renaming == Some(index)),
    {
        self.renaming == Some(index)
    }

    /// Replaces the entries with a fresh listing of the directory shown, in
    /// the order the listing gave them.
    pub fn set_files(&mut self, files: Vec<FileItem>)
        ensures
            final(self)@ == (ManagerModel { files: files@, ..old(self)@ }),
    {
        self.files = files;
    }

    /// Takes the outcome of moving entry `index` to a new path: on success
    /// the entry takes the new path and the name editor closes and empties;
    /// on failure the error message is shown.
    pub fn finish_rename(&mut self, index: usize, outcome: Result<String, String>)
        ensures
            rename_done_post(old(self)@, index, outcome, final(self)@),
    {
        if index < self.files.len() {
            match outcome {
                Ok(path) => {
                    let f = &self.files[index];
                    let item = FileItem {
                        path,
                        is_dir: f.is_dir,
                        size: f.size,
                        modified: f.modified,
                    };
                    self.files.set(index, item);
                    self.renaming = None;
                    self.buffer = String::new();
                },
                Err(e) => {
                    self.error = Some(e);
                },
            }
        }
    }

    /// The paths of the entries, in order.
    fn paths(&self) -> (r: Vec<String>)
        ensures
            paths_of(r@, self@.files),
    {
        let mut r: Vec<String> = Vec::new();
        let mut i: usize = 0;
        while i < self.files.len()
            invariant
                i <= self.files@.len(),
                r@.len() == i,
                forall|k: int| 0 <= k < i ==> (#[trigger] r@[k])@ == self.files@[k].path@,
            decreases self.files@.len() - i,
        {
            r.push(self.files[i].path.clone());
            i = i + 1;
        }
        r
    }

    /// Gives the entries the directory flags `flags`.
    fn set_dirs(&mut self, flags: &Vec<bool>)
        requires
            flags@.len() == old(self)@.files.len(),
        ensures
            final(self)@ == (ManagerModel { files: with_dirs(old(self)@.files, flags@), ..old(self)@ }),
    {
        let ghost start = self.files@;
        let mut i: usize = 0;
        while i < self.files.len()
            invariant
                flags@.len() == start.len(),
                self.files@.len() == start.len(),
                i <= start.len(),
                forall|k: int| 0 <= k < i ==> #[trigger] self.files@[k] == (FileItem { is_dir: flags@[k], ..start[k] }),
                forall|k: int| i <= k < start.len() ==> #[trigger] self.files@[k] == start[k],
                self.config == old(self).config,
                self.current_dir == old(self).current_dir,
                self.hovered == old(self).hovered,
                self.selected == old(self).selected,
                self.renaming == old(self).renaming,
                self.buffer == old(self).buffer,
                self.error == old(self).error,
            decreases start.len() - i,
        {
            let f = &self.files[i];
            let item = FileItem { path: f.path.clone(), is_dir: flags[i], size: f.size, modified: f.modified };
            self.files.set(i, item);
            i = i + 1;
        }
        assert(self.files@ =~= with_dirs(start, flags@));
    }

    /// Applies one message and says what work it asks for.
    pub fn update(&mut self, message: Message) -> (eff: Effect)
        ensures
            update_post(old(self)@, message, final(self)@, eff),
            message matches Message::Listed(files) ==> final(self)@.files == files@,
    {
        match message {
            Message::Menu(action) => {
                proof {
                    reveal_strlit("File");
                }
                if action == "File".to_string() {
                    Effect::OpenFileWindow
                } else {
                    Effect::Nothing
                }
            },
            Message::Goup => match parent(self.current_dir.as_str()) {
                Some(dir) => {
                    let d = dir.clone();
                    self.current_dir = dir;
                    Effect::ReadDir(d)
                },
                None => Effect::Nothing,
            },
            Message::Hover(i) => {
                self.hovered = Some(i);
                Effect::Nothing
            },
            Message::Unhover(i) => {
                if self.hovered == Some(i) {
                    self.hovered = None;
                }
                Effect::Nothing
            },
            Message::Click(index) => {
                if self.selected.len() != 1 || index != self.selected[0] {
                    self.selected = vec![index];
                    self.renaming = None;
                    assert(self.selected@ =~= seq![index]);
                } else if index < self.files.len() {
                    self.renaming = Some(index);
                    self.buffer = self.files[index].name();
                }
                Effect::Nothing
            },
            Message::Open(index) => {
                if index < self.files.len() {
                    Effect::CheckDir { index, path: self.files[index].path.clone() }
                } else {
                    Effect::Nothing
                }
            },
            Message::DirChecked(index, is_dir) => {
                if index < self.files.len() {
                    let path = self.files[index].path.clone();
                    self.renaming = None;
                    if is_dir {
                        let d = path.clone();
                        self.current_dir = path;
                        Effect::ReadDir(d)
                    } else {
                        Effect::OpenPath(path)
                    }
                } else {
                    Effect::Nothing
                }
            },
            Message::ClearSelection => {
                self.selected.clear();
                self.renaming = None;
                Effect::Nothing
            },
            Message::Rename(index) => {
                if index < self.files.len() {
                    let plan = plan_rename(self.files[index].path.as_str(), self.buffer.as_str());
                    match plan {
                        RenamePlan::Keep => {
                            self.renaming = None;
                            self.buffer = String::new();
                            Effect::Nothing
                        },
                        RenamePlan::NoParent => {
                            self.error = Some("No parent directory".to_string());
                            Effect::Nothing
                        },
                        RenamePlan::Move(to) => Effect::RenameFile {
                            index,
                            from: self.files[index].path.clone(),
                            to,
                        },
                    }
                } else {
                    Effect::Nothing
                }
            },
            Message::Input(s) => {
                self.buffer = s;
                Effect::Nothing
            },
            Message::CloseError => {
                self.error = None;
                Effect::Nothing
            },
            Message::SortBy(col) => {
                self.config.sort = toggle_sort(self.config.sort, col);
                Effect::CheckDirs(self.paths())
            },
            Message::DirsChecked(flags) => {
                if flags.len() == self.files.len() {
                    self.set_dirs(&flags);
                    sort_files(&mut self.files, self.config.sort);
                }
                Effect::Nothing
            },
            Message::PickBackground => Effect::PickBackground,
            Message::LoadBackground(choice) => match choice {
                Some(p) => Effect::LoadBackground(p),
                None => Effect::Nothing,
            },
            Message::BackgroundLoaded(loaded) => {
                match loaded {
                    Some(p) => {
                        self.config.ui.bg_cache = Some(p);
                    },
                    None => {},
                }
                Effect::Nothing
            },
            Message::Listed(files) => {
                self.set_files(files);
                Effect::Nothing
            },
            Message::Renamed(index, path) => {
                self.finish_rename(index, Ok(path));
                Effect::Nothing
            },
            Message::RenameFailed(index, e) => {
                self.finish_rename(index, Err(e));
                Effect::Nothing
            },
            Message::Request(_) => Effect::Nothing,
        }
    }
}

/// Moving the pointer onto an entry and off it again leaves nothing hovered
/// and changes nothing else.
pub proof fn lemma_hover_then_unhover(
    s0: ManagerModel,
    i: usize,
    s1: ManagerModel,
    e1: Effect,
    s2: ManagerModel,
    e2: Effect,
)
    requires
        update_post(s0, Message::Hover(i), s1, e1),
        update_post(s1, Message::Unhover(i), s2, e2),
    ensures
        s2 == (ManagerModel { hovered: None, ..s0 }),
        e1 is Nothing && e2 is Nothing,
{
}

/// Clicking the same column header twice restores the direction of the sort
/// when it was the current column, and reverses it when it was not.
pub proof fn lemma_sort_by_twice(
    s0: ManagerModel,
    col: SortColumn,
    s1: ManagerModel,
    e1: Effect,
    s2: ManagerModel,
    e2: Effect,
)
    requires
        update_post(s0, Message::SortBy(col), s1, e1),
        update_post(s1, Message::SortBy(col), s2, e2),
    ensures
        s2.sort.0 == col,
        s0.sort.0 == col ==> s2.sort == s0.sort,
        s0.sort.0 != col ==> s2.sort.1 == !s0.sort.1,
{
}

/// Clicking an entry twice selects it alone and opens the name editor on it,
/// filled with its name.
pub proof fn lemma_click_twice_edits_name(
    s0: ManagerModel,
    i: usize,
    s1: ManagerModel,
    e1: Effect,
    s2: ManagerModel,
    e2: Effect,
)
    requires
        i < s0.files.len(),
        update_post(s0, Message::Click(i), s1, e1),
        update_post(s1, Message::Click(i), s2, e2),
    ensures
        s2.selected == seq![i],
        s2.renaming == Some(i),
        s2.buffer == name_or_empty(s0.files[i as int].path@),
        file_name_of(s0.files[i as int].path@) matches Some(n) ==> s2.buffer == n,
        file_name_of(s0.files[i as int].path@) is None ==> s2.buffer == Seq::<char>::empty(),
        s2.files == s0.files,
{
}

/// A fresh listing replaces the entries: afterwards they are exactly the
/// listing, in its order, whatever was shown before; nothing else changes.
pub proof fn lemma_listing_replaces_entries(
    pre: ManagerModel,
    files: Vec<FileItem>,
    post: ManagerModel,
    eff: Effect,
)
    requires
        update_post(pre, Message::Listed(files), post, eff),
    ensures
        post.files == files@,
        post.files.len() == files@.len(),
        post.current_dir == pre.current_dir,
        post.sort == pre.sort,
        post.selected == pre.selected,
        post.renaming == pre.renaming,
        post.buffer == pre.buffer,
        eff is Nothing,
{
}

/// Only sorting, a fresh listing and a finished move change the entries;
/// every other message leaves the list as it is. Only a fresh listing
/// changes how many entries there are.
pub proof fn lemma_entries_kept(pre: ManagerModel, msg: Message, post: ManagerModel, eff: Effect)
    requires
        update_post(pre, msg, post, eff),
    ensures
        !(msg is DirsChecked) && !(msg is Listed) && !(msg is Renamed) ==> post.files == pre.files,
        !(msg is Listed) ==> post.files.len() == pre.files.len(),
{
}

/// A submitted name that moves the entry, once the move succeeds, gives the
/// entry the submitted name in its directory, keeps what else is known of
/// it, and closes the name editor.
pub proof fn lemma_rename_applies(
    s0: ManagerModel,
    i: usize,
    s1: ManagerModel,
    eff: Effect,
    path: String,
    s2: ManagerModel,
)
    requires
        update_post(s0, Message::Rename(i), s1, eff),
        eff matches Effect::RenameFile { to, .. } && to@ == path@,
        rename_done_post(s1, i, Ok(path), s2),
    ensures
        i < s2.files.len(),
        parent_of(s0.files[i as int].path@) is Some,
        s2.files[i as int]@.path == joined(
            parent_of(s0.files[i as int].path@)->0,
            s0.buffer,
        ),
        s2.files[i as int].is_dir == s0.files[i as int].is_dir,
        s2.files[i as int].size == s0.files[i as int].size,
        s2.files[i as int].modified == s0.files[i as int].modified,
        s2.renaming is None,
        s2.buffer == Seq::<char>::empty(),
{
}

} // verus!
