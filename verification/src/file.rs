use vstd::prelude::*;

use crate::config::SortColumn;
use crate::order::{
    Order, bool_order, compare_str, flip, int_order, lemma_lex_flip,
    lemma_lex_trans, lex_order,
};
use crate::paths::{file_name, file_name_of, lowercase, to_lowercase};
use crate::time::{
    date_minute_text, four_digit_year_time, lemma_minute_text_shape, local_minute_text, minute_text,
};

verus! {

/// One entry of a directory listing.
///
/// `is_dir` tells whether the entry is a directory, as the file system last
/// answered: when the directory was listed, and again before each sort.
/// `modified` is the modification time as whole seconds
/// since the Unix epoch (negative before it) and the nanoseconds past that
/// second.
#[derive(Clone, Debug)]
pub struct FileItem {
    pub path: String,
    pub is_dir: bool,
    pub size: Option<usize>,
    pub modified: Option<(i64, u32)>,
}

/// What a directory listing tells of an entry: whether it is a directory,
/// its length in bytes and, when known, its modification time.
#[derive(Clone, Copy, Debug)]
pub struct EntryMeta {
    pub is_dir: bool,
    pub len: u64,
    pub modified: Option<(i64, u32)>,
}

impl FileItem {
    /// The entry for `path` with what its metadata tells, if it could be read:
    /// a directory has no size, a file has its length; without metadata the
    /// entry has neither size nor time.
    pub fn from_listing(path: String, meta: Option<EntryMeta>) -> (r: FileItem)
        ensures
            r.path == path,
            match meta {
                Some(m) => {
                    &&& r.is_dir == m.is_dir
                    &&& r.size == (if m.is_dir { None } else { Some(m.len as usize) })
                    &&& r.modified == m.modified
                },
                None => r.is_dir == false && r.size is None && r.modified is None,
            },
    {
        match meta {
            Some(m) => {
                if m.is_dir {
                    FileItem { path, is_dir: true, size: None, modified: m.modified }
                } else {
                    #[verifier::truncate]
                    let size = m.len as usize;
                    FileItem { path, is_dir: false, size: Some(size), modified: m.modified }
                }
            },
            None => FileItem { path, is_dir: false, size: None, modified: None },
        }
    }

    /// The name of the entry: the last component of its path, or the empty
    /// string when the path has none.
    pub fn name(&self) -> (r: String)
        ensures
            r@ == name_or_empty(self.path@),
            file_name_of(self.path@) matches Some(n) ==> r@ == n,
            file_name_of(self.path@) is None ==> r@ == Seq::<char>::empty(),
    {
        match file_name(self.path.as_str()) {
            Some(n) => n,
            None => String::new(),
        }
    }

    /// The modification time as the local date and minute, or the empty
    /// string when it is unknown. A known time whose local date falls in a
    /// four-digit year shows as `YYYY-MM-DD HH:MM`, the time in the machine's
    /// time zone.
    pub fn display_modified(&self) -> (r: String)
        ensures
            match self.modified {
                None => r@ == Seq::<char>::empty(),
                Some((secs, nanos)) => four_digit_year_time(secs, nanos) ==> {
                    &&& local_minute_text(secs as int, r@)
                    &&& date_minute_text(r@)
                },
            },
    {
        match self.modified {
            Some((secs, nanos)) => {
                let r = format_local_time(secs, nanos);
                proof {
                    if four_digit_year_time(secs, nanos) {
                        let local = choose|local: int|
                            -86400 < local - secs < 86400 && r@ == #[trigger] minute_text(local);
                        lemma_minute_text_shape(local);
                    }
                }
                r
            },
            None => String::new(),
        }
    }
}

/// Formats a point in time, given as seconds and nanoseconds since the Unix
/// epoch, as `%Y-%m-%d %H:%M` in the machine's time zone, with chrono's
/// `DateTime::from_timestamp`, `with_timezone(&Local)` and `format`; a time
/// that chrono cannot represent gives the empty string. The contract claims,
/// for times whose local year has four digits, that the result is the
/// instant written as `%Y-%m-%d %H:%M` (`%Y` zero-padded to four digits, the
/// others to two) at some local time less than a day from it: chrono's local
/// offsets are fixed offsets, which are less than a day. Which offset the
/// machine's time zone gives is left unsaid.
#[verifier::external_body]
fn format_local_time(secs: i64, nanos: u32) -> (r: String)
    ensures
        four_digit_year_time(secs, nanos) ==> local_minute_text(secs as int, r@),
{
    match chrono::DateTime::from_timestamp(secs, nanos) {
        Some(t) => t.with_timezone(&chrono::Local).format("%Y-%m-%d %H:%M").to_string(),
        None => String::new(),
    }
}

/// The mathematical value of a `FileItem`.
pub struct FileItemModel {
    pub path: Seq<char>,
    pub is_dir: bool,
    pub size: Option<usize>,
    pub modified: Option<(i64, u32)>,
}

impl View for FileItem {
    type V = FileItemModel;

    open spec fn view(&self) -> FileItemModel {
        FileItemModel {
            path: self.path@,
            is_dir: self.is_dir,
            size: self.size,
            modified: self.modified,
        }
    }
}

/// The last component of `path`, or the empty string when it has none.
pub open spec fn name_or_empty(path: Seq<char>) -> Seq<char> {
    match file_name_of(path) {
        Some(n) => n,
        None => Seq::empty(),
    }
}

/// The key by which names are ordered: the lower-case form of the last
/// path component, or the empty string when the path has none.
pub open spec fn name_key(path: Seq<char>) -> Seq<char> {
    match file_name_of(path) {
        Some(n) => lowercase(n),
        None => Seq::empty(),
    }
}

/// The size by which files are ordered; an unknown size counts as zero.
pub open spec fn size_key(f: FileItemModel) -> int {
    match f.size {
        Some(s) => s as int,
        None => 0,
    }
}

/// The time by which files are ordered; an unknown time counts as the epoch.
pub open spec fn time_key(f: FileItemModel) -> (i64, u32) {
    match f.modified {
        Some(t) => t,
        None => (0, 0),
    }
}

/// Comparison of two points in time, seconds first.
pub open spec fn time_order(a: (i64, u32), b: (i64, u32)) -> Order {
    if a.0 != b.0 {
        int_order(a.0 as int, b.0 as int)
    } else {
        int_order(a.1 as int, b.1 as int)
    }
}

/// Comparison of two entries by one column, upwards.
pub open spec fn column_order(col: SortColumn, a: FileItemModel, b: FileItemModel) -> Order {
    match col {
        SortColumn::Name => lex_order(name_key(a.path), name_key(b.path)),
        SortColumn::Size => int_order(size_key(a), size_key(b)),
        SortColumn::Modified => time_order(time_key(a), time_key(b)),
    }
}

/// The order of the file list: directories before files, then by the chosen column, upwards, or downwards when the
/// flag is set.
pub open spec fn item_order(a: FileItemModel, b: FileItemModel, sort: (SortColumn, bool)) -> Order {
    let d = bool_order(b.is_dir, a.is_dir);
    if d != Order::Equal {
        d
    } else if sort.1 {
        flip(column_order(sort.0, a, b))
    } else {
        column_order(sort.0, a, b)
    }
}

/// `a` may stand before `b`.
pub open spec fn item_le(a: FileItemModel, b: FileItemModel, sort: (SortColumn, bool)) -> bool {
    item_order(a, b, sort) != Order::Greater
}

proof fn lemma_column_flip(col: SortColumn, a: FileItemModel, b: FileItemModel)
    ensures
        column_order(col, b, a) == flip(column_order(col, a, b)),
{
    if col == SortColumn::Name {
        lemma_lex_flip(name_key(a.path), name_key(b.path));
    }
}

proof fn lemma_column_trans(col: SortColumn, a: FileItemModel, b: FileItemModel, c: FileItemModel)
    requires
        column_order(col, a, b) != Order::Greater,
        column_order(col, b, c) != Order::Greater,
    ensures
        column_order(col, a, c) != Order::Greater,
{
    if col == SortColumn::Name {
        lemma_lex_trans(name_key(a.path), name_key(b.path), name_key(c.path));
    }
}

/// Swapping two entries flips their comparison.
pub proof fn lemma_item_flip(a: FileItemModel, b: FileItemModel, sort: (SortColumn, bool))
    ensures
        item_order(b, a, sort) == flip(item_order(a, b, sort)),
{
    lemma_column_flip(sort.0, a, b);
}

/// The order of the file list is transitive.
pub proof fn lemma_item_trans(
    a: FileItemModel,
    b: FileItemModel,
    c: FileItemModel,
    sort: (SortColumn, bool),
)
    requires
        item_le(a, b, sort),
        item_le(b, c, sort),
    ensures
        item_le(a, c, sort),
{
    if a.is_dir == b.is_dir && b.is_dir == c.is_dir {
        if sort.1 {
            lemma_column_flip(sort.0, a, b);
            lemma_column_flip(sort.0, b, c);
            lemma_column_flip(sort.0, a, c);
            lemma_column_trans(sort.0, c, b, a);
        } else {
            lemma_column_trans(sort.0, a, b, c);
        }
    }
}

/// Two entries that may each stand before the other compare as equal.
pub proof fn lemma_item_both_le(a: FileItemModel, b: FileItemModel, sort: (SortColumn, bool))
    requires
        item_le(a, b, sort),
        item_le(b, a, sort),
    ensures
        item_order(a, b, sort) == Order::Equal,
{
    lemma_item_flip(a, b, sort);
}

/// The ordering key of a path's name.
fn name_key_of(path: &String) -> (r: String)
    ensures
        r@ == name_key(path@),
{
    match file_name(path.as_str()) {
        Some(n) => to_lowercase(n.as_str()),
        None => String::new(),
    }
}

fn compare_ints(a: u128, b: u128) -> (r: Order)
    ensures
        r == int_order(a as int, b as int),
{
    if a < b {
        Order::Less
    } else if a == b {
        Order::Equal
    } else {
        Order::Greater
    }
}

fn compare_times(a: (i64, u32), b: (i64, u32)) -> (r: Order)
    ensures
        r == time_order(a, b),
{
    if a.0 < b.0 {
        Order::Less
    } else if a.0 > b.0 {
        Order::Greater
    } else {
        compare_ints(a.1 as u128, b.1 as u128)
    }
}

/// Compares two entries in the order of the file list.
pub fn compare_items(a: &FileItem, b: &FileItem, sort: (SortColumn, bool)) -> (r: Order)
    ensures
        r == item_order(a@, b@, sort),
{
    let d = if a.is_dir == b.is_dir {
        Order::Equal
    } else if b.is_dir {
        Order::Greater
    } else {
        Order::Less
    };
    if d != Order::Equal {
        return d;
    }
    let (col, descending) = sort;
    let o = match col {
        SortColumn::Name => {
            let ka = name_key_of(&a.path);
            let kb = name_key_of(&b.path);
            compare_str(ka.as_str(), kb.as_str())
        },
        SortColumn::Size => {
            let sa: usize = match a.size {
                Some(s) => s,
                None => 0,
            };
            let sb: usize = match b.size {
                Some(s) => s,
                None => 0,
            };
            compare_ints(sa as u128, sb as u128)
        },
        SortColumn::Modified => {
            let ta: (i64, u32) = match a.modified {
                Some(t) => t,
                None => (0, 0),
            };
            let tb: (i64, u32) = match b.modified {
                Some(t) => t,
                None => (0, 0),
            };
            compare_times(ta, tb)
        },
    };
    if descending {
        o.reverse()
    } else {
        o
    }
}

/// `s` is in the order of the file list: no entry stands before one that
/// should come ahead of it.
pub open spec fn sorted_by(s: Seq<FileItem>, sort: (SortColumn, bool)) -> bool {
    forall|i: int, j: int| 0 <= i < j < s.len() ==> item_le(#[trigger] s[i]@, #[trigger] s[j]@, sort)
}

/// `new` holds the entries of `old` rearranged, with `p[i]` the position in
/// `old` of the entry at position `i` of `new`, and entries that compare as
/// equal keep their relative order.
pub open spec fn stable_rearrangement(
    old: Seq<FileItem>,
    new: Seq<FileItem>,
    p: Seq<int>,
    sort: (SortColumn, bool),
) -> bool {
    &&& new.len() == old.len()
    &&& p.len() == old.len()
    &&& forall|i: int| 0 <= i < p.len() ==> 0 <= #[trigger] p[i] < old.len() && new[i] == old[p[i]]
    &&& forall|i: int, j: int| 0 <= i < j < p.len() ==> #[trigger] p[i] != #[trigger] p[j]
    &&& forall|i: int, j: int|
        0 <= i < j < p.len() && item_order(#[trigger] new[i]@, #[trigger] new[j]@, sort)
            == Order::Equal ==> p[i] < p[j]
}

/// `new` is `old` sorted stably in the order of the file list.
pub open spec fn stable_sort_of(old: Seq<FileItem>, new: Seq<FileItem>, sort: (SortColumn, bool)) -> bool {
    &&& sorted_by(new, sort)
    &&& exists|p: Seq<int>| stable_rearrangement(old, new, p, sort)
}

/// Sorts the file list stably: directories first, then by the chosen column,
/// upwards, or downwards when the flag is set.
pub fn sort_files(files: &mut Vec<FileItem>, sort: (SortColumn, bool))
    ensures
        stable_sort_of(old(files)@, final(files)@, sort),
{
    let ghost orig = files@;
    let n = files.len();
    let ghost mut p: Seq<int> = Seq::new(n as nat, |k: int| k);
    let mut i: usize = 0;
    while i < n
        invariant
            files@.len() == n,
            orig.len() == n,
            p.len() == n,
            i <= n,
            forall|k: int| 0 <= k < n ==> 0 <= #[trigger] p[k] < n && files@[k] == orig[p[k]],
            forall|k: int| i <= k < n ==> #[trigger] p[k] == k,
            forall|k: int| 0 <= k < i ==> #[trigger] p[k] < i,
            forall|a: int, b: int| 0 <= a < b < n ==> #[trigger] p[a] != #[trigger] p[b],
            forall|a: int, b: int|
                0 <= a < b < i ==> item_le(#[trigger] files@[a]@, #[trigger] files@[b]@, sort),
            forall|a: int, b: int|
                0 <= a < b < i && item_order(#[trigger] files@[a]@, #[trigger] files@[b]@, sort)
                    == Order::Equal ==> p[a] < p[b],
        decreases n - i,
    {
        let ghost pre = files@;
        let x = files.remove(i);
        let ghost mid = files@;
        let mut k: usize = i;
        loop
            invariant
                k <= i,
                i < n,
                files@ == mid,
                mid.len() == n - 1,
                forall|j: int| k <= j < i ==> item_order(#[trigger] mid[j]@, x@, sort)
                    == Order::Greater,
            ensures
                k <= i,
                files@ == mid,
                forall|j: int| k <= j < i ==> item_order(#[trigger] mid[j]@, x@, sort)
                    == Order::Greater,
                k == 0 || item_le(mid[k - 1]@, x@, sort),
            decreases k,
        {
            if k == 0 {
                break;
            }
            let o = compare_items(&files[k - 1], &x, sort);
            if o != Order::Greater {
                break;
            }
            k = k - 1;
        }
        files.insert(k, x);
        proof {
            let new = files@;
            let ki = k as int;
            let ii = i as int;
            let p2 = p.take(ki) + seq![ii] + p.subrange(ki, ii) + p.skip(ii + 1);
            assert(p2.len() == n);
            assert forall|j: int| 0 <= j < n implies {
                &&& p2[j] == p[src(j, ki, ii)]
                &&& new[j] == pre[src(j, ki, ii)]
                &&& 0 <= src(j, ki, ii) < n
            } by {
                if j < ki {
                } else if j == ki {
                } else if j <= ii {
                } else {
                }
            };
            assert forall|k2: int| 0 <= k2 < n implies 0 <= #[trigger] p2[k2] < n && new[k2]
                == orig[p2[k2]] by {
                assert(p2[k2] == p[src(k2, ki, ii)]);
            };
            assert forall|k2: int| ii + 1 <= k2 < n implies #[trigger] p2[k2] == k2 by {
                assert(p2[k2] == p[src(k2, ki, ii)]);
            };
            assert forall|k2: int| 0 <= k2 < ii + 1 implies #[trigger] p2[k2] < ii + 1 by {
                assert(p2[k2] == p[src(k2, ki, ii)]);
            };
            assert forall|a: int, b: int| 0 <= a < b < n implies #[trigger] p2[a] != #[trigger] p2[b] by {
                assert(p2[a] == p[src(a, ki, ii)]);
                assert(p2[b] == p[src(b, ki, ii)]);
                assert(src(a, ki, ii) != src(b, ki, ii));
                if src(a, ki, ii) < src(b, ki, ii) {
                    assert(p[src(a, ki, ii)] != p[src(b, ki, ii)]);
                } else {
                    assert(p[src(b, ki, ii)] != p[src(a, ki, ii)]);
                }
            };
            assert forall|a: int, b: int| 0 <= a < b < ii + 1 implies item_le(
                #[trigger] new[a]@,
                #[trigger] new[b]@,
                sort,
            ) by {
                let sa = src(a, ki, ii);
                let sb = src(b, ki, ii);
                assert(new[a] == pre[sa]);
                assert(new[b] == pre[sb]);
                if b == ki {
                    assert(sb == ii);
                    assert(pre[ii] == x);
                    assert(mid[ki - 1] == pre[ki - 1]);
                    if a < ki - 1 {
                        assert(item_le(pre[a]@, pre[ki - 1]@, sort));
                        lemma_item_trans(pre[a]@, pre[ki - 1]@, x@, sort);
                    }
                } else if a == ki {
                    assert(sa == ii);
                    assert(pre[ii] == x);
                    assert(mid[b - 1] == pre[b - 1]);
                    assert(item_order(mid[b - 1]@, x@, sort) == Order::Greater);
                    lemma_item_flip(mid[b - 1]@, x@, sort);
                } else {
                    assert(sa < sb);
                    assert(item_le(pre[sa]@, pre[sb]@, sort));
                }
            };
            assert forall|a: int, b: int|
                0 <= a < b < ii + 1 && item_order(#[trigger] new[a]@, #[trigger] new[b]@, sort)
                    == Order::Equal implies p2[a] < p2[b] by {
                let sa = src(a, ki, ii);
                let sb = src(b, ki, ii);
                assert(new[a] == pre[sa]);
                assert(new[b] == pre[sb]);
                assert(p2[a] == p[sa]);
                assert(p2[b] == p[sb]);
                if b == ki {
                    assert(p[ii] == ii);
                    assert(p[sa] < ii);
                } else if a == ki {
                    assert(pre[ii] == x);
                    assert(mid[b - 1] == pre[b - 1]);
                    assert(item_order(mid[b - 1]@, x@, sort) == Order::Greater);
                    lemma_item_flip(mid[b - 1]@, x@, sort);
                } else {
                    assert(sa < sb);
                }
            };
            p = p2;
        }
        i = i + 1;
    }
    proof {
        assert(stable_rearrangement(orig, files@, p, sort));
    }
}

/// A strictly increasing sequence of `n` positions below `n` is the identity.
proof fn lemma_increasing_is_identity(p: Seq<int>, n: int, i: int)
    requires
        p.len() == n,
        0 <= i < n,
        forall|k: int| 0 <= k < n ==> 0 <= #[trigger] p[k] < n,
        forall|a: int, b: int| 0 <= a < b < n ==> #[trigger] p[a] < #[trigger] p[b],
    ensures
        p[i] == i,
{
    lemma_increasing_lower(p, n, i);
    lemma_increasing_upper(p, n, i);
}

proof fn lemma_increasing_lower(p: Seq<int>, n: int, i: int)
    requires
        p.len() == n,
        0 <= i < n,
        forall|k: int| 0 <= k < n ==> 0 <= #[trigger] p[k] < n,
        forall|a: int, b: int| 0 <= a < b < n ==> #[trigger] p[a] < #[trigger] p[b],
    ensures
        p[i] >= i,
    decreases i,
{
    if i > 0 {
        lemma_increasing_lower(p, n, i - 1);
        assert(p[i - 1] < p[i]);
    }
}

proof fn lemma_increasing_upper(p: Seq<int>, n: int, i: int)
    requires
        p.len() == n,
        0 <= i < n,
        forall|k: int| 0 <= k < n ==> 0 <= #[trigger] p[k] < n,
        forall|a: int, b: int| 0 <= a < b < n ==> #[trigger] p[a] < #[trigger] p[b],
    ensures
        p[i] <= i,
    decreases n - i,
{
    if i < n - 1 {
        lemma_increasing_upper(p, n, i + 1);
        assert(p[i] < p[i + 1]);
    }
}

/// Sorting a list that is already in order leaves it as it is.
pub proof fn lemma_sort_of_sorted(old: Seq<FileItem>, new: Seq<FileItem>, sort: (SortColumn, bool))
    requires
        sorted_by(old, sort),
        stable_sort_of(old, new, sort),
    ensures
        new == old,
{
    let p = choose|p: Seq<int>| stable_rearrangement(old, new, p, sort);
    let n = old.len() as int;
    assert forall|a: int, b: int| 0 <= a < b < n implies #[trigger] p[a] < #[trigger] p[b] by {
        if p[a] > p[b] {
            assert(new[a] == old[p[a]]);
            assert(new[b] == old[p[b]]);
            assert(item_le(old[p[b]]@, old[p[a]]@, sort));
            assert(item_le(new[a]@, new[b]@, sort));
            lemma_item_both_le(new[a]@, new[b]@, sort);
        } else {
            assert(p[a] != p[b]);
        }
    };
    assert forall|i: int| 0 <= i < n implies new[i] == old[i] by {
        lemma_increasing_is_identity(p, n, i);
    };
    assert(new =~= old);
}

/// A rearrangement of `n` positions without repeats reaches every position.
proof fn lemma_rearrangement_onto(p: Seq<int>, n: int, j: int)
    requires
        p.len() == n,
        0 <= j < n,
        forall|k: int| 0 <= k < n ==> 0 <= #[trigger] p[k] < n,
        forall|a: int, b: int| 0 <= a < b < n ==> #[trigger] p[a] != #[trigger] p[b],
    ensures
        exists|k: int| 0 <= k < n && p[k] == j,
{
    assert(p.no_duplicates()) by {
        assert forall|a: int, b: int| 0 <= a < p.len() && 0 <= b < p.len() && a != b implies p[a]
            != p[b] by {
            if a < b {
                assert(p[a] != p[b]);
            } else {
                assert(p[b] != p[a]);
            }
        };
    };
    p.unique_seq_to_set();
    let range = vstd::set_lib::set_int_range(0, n);
    vstd::set_lib::lemma_int_range(0, n);
    assert(p.to_set().subset_of(range)) by {
        assert forall|x: int| p.to_set().contains(x) implies range.contains(x) by {
            let k = choose|k: int| 0 <= k < p.len() && p[k] == x;
            assert(0 <= p[k] < n);
        };
    };
    vstd::set_lib::lemma_len_subset(p.to_set(), range);
    vstd::set_lib::lemma_subset_equality(p.to_set(), range);
    assert(range.contains(j));
    assert(p.to_set().contains(j));
}

/// The sorted list is determined by the list and the order: two stable
/// sorts of the same list are the same list.
pub proof fn lemma_stable_sort_unique(
    old: Seq<FileItem>,
    new1: Seq<FileItem>,
    new2: Seq<FileItem>,
    sort: (SortColumn, bool),
)
    requires
        stable_sort_of(old, new1, sort),
        stable_sort_of(old, new2, sort),
    ensures
        new1 == new2,
{
    let p1 = choose|p: Seq<int>| stable_rearrangement(old, new1, p, sort);
    let p2 = choose|p: Seq<int>| stable_rearrangement(old, new2, p, sort);
    let n = old.len() as int;
    assert forall|i: int| 0 <= i < n implies exists|k: int| 0 <= k < n && p1[k] == #[trigger] p2[i] by {
        lemma_rearrangement_onto(p1, n, p2[i]);
    };
    let q = Seq::new(n as nat, |i: int| choose|k: int| 0 <= k < n && p1[k] == p2[i]);
    assert forall|i: int| 0 <= i < n implies 0 <= #[trigger] q[i] < n && p1[q[i]] == p2[i] && new2[i]
        == new1[q[i]] by {
        assert(p2[i] == p2[i]);
        assert(new1[q[i]] == old[p1[q[i]]]);
    };
    assert forall|a: int, b: int| 0 <= a < b < n implies #[trigger] q[a] != #[trigger] q[b] by {
        assert(p2[a] != p2[b]);
    };
    assert forall|a: int, b: int|
        0 <= a < b < n && item_order(#[trigger] new2[a]@, #[trigger] new2[b]@, sort)
            == Order::Equal implies q[a] < q[b] by {
        assert(p2[a] < p2[b]);
        assert(q[a] != q[b]);
        if q[b] < q[a] {
            lemma_item_flip(new2[a]@, new2[b]@, sort);
            assert(new1[q[b]] == new2[b]);
            assert(new1[q[a]] == new2[a]);
            assert(item_order(new1[q[b]]@, new1[q[a]]@, sort) == Order::Equal);
            assert(p1[q[b]] < p1[q[a]]);
        }
    };
    assert(stable_rearrangement(new1, new2, q, sort));
    lemma_sort_of_sorted(new1, new2, sort);
}

/// An entry's name is the last component of its path exactly as the path
/// has it, with nothing changed, or the empty string when the path has none.
pub proof fn lemma_name_is_last_component(path: Seq<char>)
    ensures
        file_name_of(path) matches Some(n) ==> name_or_empty(path) == n,
        file_name_of(path) is None ==> name_or_empty(path) == Seq::<char>::empty(),
{
}

/// Ordered by size, two entries of the same kind compare by their sizes as
/// whole numbers, an unknown size counting as zero, smaller first upwards and
/// larger first downwards.
pub proof fn lemma_size_order(a: FileItemModel, b: FileItemModel, descending: bool)
    requires
        a.is_dir == b.is_dir,
    ensures
        ({
            let x: int = match a.size {
                Some(s) => s as int,
                None => 0,
            };
            let y: int = match b.size {
                Some(s) => s as int,
                None => 0,
            };
            let o = item_order(a, b, (SortColumn::Size, descending));
            &&& x < y ==> o == (if descending { Order::Greater } else { Order::Less })
            &&& x == y ==> o == Order::Equal
            &&& x > y ==> o == (if descending { Order::Less } else { Order::Greater })
        }),
{
}

/// Ordered by modification time, two entries of the same kind compare by
/// their times, seconds first and then nanoseconds, an unknown time counting
/// as the epoch; older first upwards and newer first downwards.
pub proof fn lemma_time_order(a: FileItemModel, b: FileItemModel, descending: bool)
    requires
        a.is_dir == b.is_dir,
    ensures
        ({
            let x: (i64, u32) = match a.modified {
                Some(t) => t,
                None => (0, 0),
            };
            let y: (i64, u32) = match b.modified {
                Some(t) => t,
                None => (0, 0),
            };
            let earlier = x.0 < y.0 || (x.0 == y.0 && x.1 < y.1);
            let later = x.0 > y.0 || (x.0 == y.0 && x.1 > y.1);
            let o = item_order(a, b, (SortColumn::Modified, descending));
            &&& earlier ==> o == (if descending { Order::Greater } else { Order::Less })
            &&& x == y ==> o == Order::Equal
            &&& later ==> o == (if descending { Order::Less } else { Order::Greater })
        }),
{
}

/// Whatever the column and direction, a directory comes before a file.
pub proof fn lemma_directory_before_file(a: FileItemModel, b: FileItemModel, sort: (SortColumn, bool))
    requires
        a.is_dir,
        !b.is_dir,
    ensures
        item_order(a, b, sort) == Order::Less,
        item_order(b, a, sort) == Order::Greater,
{
}

/// In a list sorted upwards by size, of two entries of the same kind the
/// earlier is no larger, sizes taken as whole numbers and an unknown size as
/// zero.
pub proof fn lemma_sorted_by_size(s: Seq<FileItem>, i: int, j: int)
    requires
        sorted_by(s, (SortColumn::Size, false)),
        0 <= i < j < s.len(),
        s[i].is_dir == s[j].is_dir,
    ensures
        (match s[i].size {
            Some(x) => x as int,
            None => 0,
        }) <= (match s[j].size {
            Some(y) => y as int,
            None => 0,
        }),
{
    assert(item_le(s[i]@, s[j]@, (SortColumn::Size, false)));
    lemma_size_order(s[i]@, s[j]@, false);
}

/// In a sorted list every directory stands before every file.
pub proof fn lemma_directories_first(s: Seq<FileItem>, sort: (SortColumn, bool), i: int, j: int)
    requires
        sorted_by(s, sort),
        0 <= i < j < s.len(),
        s[j].is_dir,
    ensures
        s[i].is_dir,
{
    assert(item_le(s[i]@, s[j]@, sort));
}

/// Where the entry at position `j` after moving the entry at `i` back to `k`
/// stood before the move.
spec fn src(j: int, k: int, i: int) -> int {
    if j < k {
        j
    } else if j == k {
        i
    } else if j <= i {
        j - 1
    } else {
        j
    }
}

} // verus!
