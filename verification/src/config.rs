use vstd::prelude::*;

verus! {

/// The column by which the file list is ordered.
#[derive(Clone, Copy, Debug, PartialEq, Eq, Structural)]
pub enum SortColumn {
    Name,
    Size,
    Modified,
}

impl Default for SortColumn {
    fn default() -> (r: Self)
        ensures
            r == SortColumn::Name,
    {
        SortColumn::Name
    }
}

/// The colour scheme of the windows.
#[derive(Clone, Copy, Debug, PartialEq, Eq, Structural)]
pub enum ThemeKind {
    Light,
    Dark,
}

impl Default for ThemeKind {
    fn default() -> (r: Self)
        ensures
            r == ThemeKind::Light,
    {
        ThemeKind::Light
    }
}

/// The theme settings.
#[derive(Clone, Copy, Debug, PartialEq, Eq, Structural)]
pub struct ThemeConfig {
    pub theme: ThemeKind,
    pub follow_system: bool,
}

impl Default for ThemeConfig {
    fn default() -> (r: Self)
        ensures
            r.theme == ThemeKind::Light,
            r.follow_system,
    {
        ThemeConfig { theme: ThemeKind::Light, follow_system: true }
    }
}

/// The settings of the user interface that the library reads: the cached
/// background image and the theme. The column widths are display settings
/// and stay with the caller.
#[derive(Debug)]
pub struct UiConfig {
    pub bg_cache: Option<String>,
    pub theme: ThemeConfig,
}

impl Default for UiConfig {
    fn default() -> (r: Self)
        ensures
            r.bg_cache is None,
            r.theme.theme == ThemeKind::Light,
            r.theme.follow_system,
    {
        UiConfig { bg_cache: None, theme: ThemeConfig::default() }
    }
}

/// The saved settings: the interface settings and the sort order, a column
/// and whether it runs downwards.
#[derive(Debug)]
pub struct Config {
    pub ui: UiConfig,
    pub sort: (SortColumn, bool),
}

impl Default for Config {
    fn default() -> (r: Self)
        ensures
            r.ui.bg_cache is None,
            r.ui.theme.theme == ThemeKind::Light,
            r.ui.theme.follow_system,
            r.sort == (SortColumn::Name, false),
    {
        Config { ui: UiConfig::default(), sort: (SortColumn::Name, false) }
    }
}

/// The theme the application starts with: that of the saved settings when
/// they could be read, else the light one.
pub fn startup_theme(saved: Option<&Config>) -> (r: ThemeKind)
    ensures
        r == match saved {
            Some(c) => c.ui.theme.theme,
            None => ThemeKind::Light,
        },
{
    match saved {
        Some(c) => c.ui.theme.theme,
        None => ThemeKind::default(),
    }
}

/// The sort order after the user picks a column header: picking the current
/// column again turns its direction around, picking another column keeps
/// the direction.
pub fn toggle_sort(sort: (SortColumn, bool), column: SortColumn) -> (r: (SortColumn, bool))
    ensures
        r == next_sort(sort, column),
{
    let (old_col, descending) = sort;
    if column == old_col {
        (column, !descending)
    } else {
        (column, descending)
    }
}

/// The sort order after picking `column` in order `sort`.
pub open spec fn next_sort(sort: (SortColumn, bool), column: SortColumn) -> (SortColumn, bool) {
    if column == sort.0 {
        (column, !sort.1)
    } else {
        (column, sort.1)
    }
}

/// The marker shown beside a column header: a downward triangle when the
/// list is sorted by that column downwards, an upward one when upwards, and
/// nothing for the other columns.
pub fn sort_indicator(sort: (SortColumn, bool), column: SortColumn) -> (r: &'static str)
    ensures
        r@ == indicator(sort, column),
        sort.0 == column && sort.1 ==> r@ == seq!['\u{25BC}'],
        sort.0 == column && !sort.1 ==> r@ == seq!['\u{25B2}'],
        sort.0 != column ==> r@.len() == 0,
{
    proof {
        reveal_strlit("▼");
        reveal_strlit("▲");
        reveal_strlit("");
    }
    if sort.0 == column {
        if sort.1 {
            "▼"
        } else {
            "▲"
        }
    } else {
        ""
    }
}

/// The header marker of `column` under sort order `sort`.
pub open spec fn indicator(sort: (SortColumn, bool), column: SortColumn) -> Seq<char> {
    if sort.0 == column {
        if sort.1 {
            seq!['\u{25BC}']
        } else {
            seq!['\u{25B2}']
        }
    } else {
        Seq::empty()
    }
}

/// Every column's header shows a downward triangle when the list is sorted
/// by it downwards, an upward one when upwards, and nothing when the list is
/// sorted by another column.
pub proof fn lemma_indicator_marks_direction(column: SortColumn, other: SortColumn)
    ensures
        indicator((column, true), column) == seq!['\u{25BC}'],
        indicator((column, false), column) == seq!['\u{25B2}'],
        other != column ==> indicator((other, true), column).len() == 0 && indicator(
            (other, false),
            column,
        ).len() == 0,
{
}

} // verus!
