//! Working-copy status: the kinds of change, the entries of a status scan
//! and their ordering by path.

use crate::error::Error;
use vstd::prelude::*;

verus! {

/// Kind of change reported for one path.
#[derive(Copy, Clone, Hash, PartialEq, Eq, Debug, Structural)]
pub enum StatusItemType {
    New,
    Modified,
    Deleted,
    Renamed,
    Typechange,
    Conflicted,
}

pub const INDEX_NEW: u32 = 1;
pub const INDEX_MODIFIED: u32 = 2;
pub const INDEX_DELETED: u32 = 4;
pub const INDEX_RENAMED: u32 = 8;
pub const INDEX_TYPECHANGE: u32 = 16;
pub const WT_NEW: u32 = 128;
pub const WT_MODIFIED: u32 = 256;
pub const WT_DELETED: u32 = 512;
pub const WT_TYPECHANGE: u32 = 1024;
pub const WT_RENAMED: u32 = 2048;
pub const WT_UNREADABLE: u32 = 4096;
pub const IGNORED: u32 = 16384;
pub const CONFLICTED: u32 = 32768;

/// The status bits that the repository reports for one entry, with the
/// bit layout of libgit2's `git_status_t`.
#[derive(Copy, Clone, Hash, PartialEq, Eq, Debug, Structural)]
pub struct StatusFlags {
    pub bits: u32,
}

impl StatusFlags {
    pub open spec fn has(self, flag: u32) -> bool {
        self.bits & flag != 0
    }

    pub open spec fn spec_item_type(self) -> StatusItemType {
        if self.has(INDEX_NEW) || self.has(WT_NEW) {
            StatusItemType::New
        } else if self.has(INDEX_DELETED) || self.has(WT_DELETED) {
            StatusItemType::Deleted
        } else if self.has(INDEX_RENAMED) || self.has(WT_RENAMED) {
            StatusItemType::Renamed
        } else if self.has(INDEX_TYPECHANGE) || self.has(WT_TYPECHANGE) {
            StatusItemType::Typechange
        } else if self.has(CONFLICTED) {
            StatusItemType::Conflicted
        } else {
            StatusItemType::Modified
        }
    }

    pub fn new(bits: u32) -> (r: Self)
        ensures
            r.bits == bits,
    {
        StatusFlags { bits }
    }

    /// Whether any bit of `flag` is set.
    pub fn intersects(&self, flag: u32) -> (r: bool)
        ensures
            r == self.has(flag),
    {
        self.bits & flag != 0
    }

    pub fn is_wt_new(&self) -> (r: bool)
        ensures
            r == self.has(WT_NEW),
    {
        self.intersects(WT_NEW)
    }

    pub fn is_wt_modified(&self) -> (r: bool)
        ensures
            r == self.has(WT_MODIFIED),
    {
        self.intersects(WT_MODIFIED)
    }

    /// The kind of change, by fixed precedence: new, deleted, renamed,
    /// type change, conflicted; modified when none of them is flagged.
    pub fn item_type(&self) -> (r: StatusItemType)
        ensures
            r == self.spec_item_type(),
    {
        if self.intersects(INDEX_NEW) || self.intersects(WT_NEW) {
            StatusItemType::New
        } else if self.intersects(INDEX_DELETED) || self.intersects(WT_DELETED) {
            StatusItemType::Deleted
        } else if self.intersects(INDEX_RENAMED) || self.intersects(WT_RENAMED) {
            StatusItemType::Renamed
        } else if self.intersects(INDEX_TYPECHANGE) || self.intersects(WT_TYPECHANGE) {
            StatusItemType::Typechange
        } else if self.intersects(CONFLICTED) {
            StatusItemType::Conflicted
        } else {
            StatusItemType::Modified
        }
    }
}

impl From<StatusFlags> for StatusItemType {
    fn from(f: StatusFlags) -> (r: StatusItemType) {
        f.item_type()
    }
}

impl vstd::std_specs::convert::FromSpecImpl<StatusFlags> for StatusItemType {
    open spec fn obeys_from_spec() -> bool {
        true
    }

    open spec fn from_spec(f: StatusFlags) -> StatusItemType {
        f.spec_item_type()
    }
}

/// How a diff entry changed between the old and the new side, as libgit2's
/// `git_delta_t` reports it.
#[derive(Copy, Clone, Hash, PartialEq, Eq, Debug, Structural)]
pub enum DeltaKind {
    Unmodified,
    Added,
    Deleted,
    Modified,
    Renamed,
    Copied,
    Ignored,
    Untracked,
    Typechange,
    Unreadable,
    Conflicted,
}

pub open spec fn spec_delta_item_type(d: DeltaKind) -> StatusItemType {
    match d {
        DeltaKind::Added => StatusItemType::New,
        DeltaKind::Deleted => StatusItemType::Deleted,
        DeltaKind::Renamed => StatusItemType::Renamed,
        DeltaKind::Typechange => StatusItemType::Typechange,
        _ => StatusItemType::Modified,
    }
}

impl From<DeltaKind> for StatusItemType {
    /// Added, deleted, renamed and type changes keep their kind; every
    /// other change counts as modified.
    fn from(d: DeltaKind) -> (r: StatusItemType) {
        match d {
            DeltaKind::Added => StatusItemType::New,
            DeltaKind::Deleted => StatusItemType::Deleted,
            DeltaKind::Renamed => StatusItemType::Renamed,
            DeltaKind::Typechange => StatusItemType::Typechange,
            _ => StatusItemType::Modified,
        }
    }
}

impl vstd::std_specs::convert::FromSpecImpl<DeltaKind> for StatusItemType {
    open spec fn obeys_from_spec() -> bool {
        true
    }

    open spec fn from_spec(d: DeltaKind) -> StatusItemType {
        spec_delta_item_type(d)
    }
}

/// One changed path and its kind of change.
#[derive(Clone, Hash, PartialEq, Eq, Debug)]
pub struct StatusItem {
    pub path: String,
    pub status: StatusItemType,
}

/// One entry of a status scan, as the repository reports it.
#[derive(Clone, Debug)]
pub struct StatusEntry {
    pub flags: StatusFlags,
    /// Present when the entry has a head-to-index delta (a staged change):
    /// the path of that delta's new file, `None` when it is not readable.
    pub head_to_index: Option<Option<String>>,
    /// The entry's own path, `None` when it is not readable.
    pub path: Option<String>,
}

/// The path that an entry is listed under: that of the staged change's new
/// file where there is one, else the entry's own.
pub open spec fn entry_path(e: StatusEntry) -> Result<String, Error> {
    match e.head_to_index {
        Some(Some(p)) => Ok(p),
        Some(None) => Err(Error::NewFilePathMissing),
        None => match e.path {
            Some(p) => Ok(p),
            None => Err(Error::IndexPathMissing),
        },
    }
}

/// The items of a scan in the order of the scan, or the error of its first
/// entry without a path.
pub open spec fn items_of(entries: Seq<StatusEntry>) -> Result<Seq<StatusItem>, Error>
    decreases entries.len(),
{
    if entries.len() == 0 {
        Ok(Seq::empty())
    } else {
        match items_of(entries.drop_last()) {
            Err(e) => Err(e),
            Ok(items) => match entry_path(entries.last()) {
                Err(e) => Err(e),
                Ok(p) => Ok(items.push(StatusItem { path: p, status: entries.last().flags.spec_item_type() })),
            },
        }
    }
}

/// `a` comes strictly before `b` in the ordering of filesystem paths.
pub uninterp spec fn path_before(a: Seq<char>, b: Seq<char>) -> bool;

/// Relies on `<` of `std::path::Path`, which orders paths component by
/// component. It is a strict order: `a < b` excludes `b < a`.
#[verifier::external_body]
fn path_less(a: &str, b: &str) -> (r: bool)
    ensures
        r == path_before(a@, b@),
        r ==> !path_before(b@, a@),
{
    std::path::Path::new(a) < std::path::Path::new(b)
}

/// No item's path comes before that of the item ahead of it.
pub open spec fn in_path_order(s: Seq<StatusItem>) -> bool {
    forall|i: int| 0 < i < s.len() ==> !path_before(#[trigger] s[i].path@, s[i - 1].path@)
}

/// `x` inserted into `s` after every item whose path `x` does not come
/// before, scanning from the end.
pub open spec fn insert_by_path(s: Seq<StatusItem>, x: StatusItem) -> Seq<StatusItem>
    decreases s.len(),
{
    if s.len() == 0 {
        seq![x]
    } else if path_before(x.path@, s.last().path@) {
        insert_by_path(s.drop_last(), x).push(s.last())
    } else {
        s.push(x)
    }
}

/// The stable insertion sort of `s` by path.
pub open spec fn sort_by_path(s: Seq<StatusItem>) -> Seq<StatusItem>
    decreases s.len(),
{
    if s.len() == 0 {
        s
    } else {
        insert_by_path(sort_by_path(s.drop_last()), s.last())
    }
}

proof fn lemma_insert_at(s: Seq<StatusItem>, x: StatusItem, j: int)
    requires
        0 <= j <= s.len(),
        forall|k: int| j <= k < s.len() ==> path_before(x.path@, #[trigger] s[k].path@),
        j > 0 ==> !path_before(x.path@, s[j - 1].path@),
    ensures
        insert_by_path(s, x) == s.insert(j, x),
    decreases s.len(),
{
    if s.len() == 0 {
        assert(s.insert(j, x) =~= seq![x]);
    } else if j == s.len() {
        assert(s.insert(j, x) =~= s.push(x));
    } else {
        lemma_insert_at(s.drop_last(), x, j);
        assert(s.insert(j, x) =~= s.drop_last().insert(j, x).push(s.last()));
    }
}

/// Lists the entries of a status scan sorted by path: the items of the scan
/// by stable insertion sort, so each path is not before the one ahead of it,
/// and the listing holds the scanned items, each once. Fails with the error
/// of the first entry that has no readable path.
pub fn status_items(entries: &Vec<StatusEntry>) -> (r: Result<Vec<StatusItem>, Error>)
    ensures
        r is Ok <==> items_of(entries@) is Ok,
        r is Ok ==> r->Ok_0@ == sort_by_path(items_of(entries@)->Ok_0),
        r is Ok ==> in_path_order(r->Ok_0@),
        r is Ok ==> r->Ok_0@.to_multiset() == items_of(entries@)->Ok_0.to_multiset(),
        r is Err ==> r->Err_0 == items_of(entries@)->Err_0,
{
    let mut res: Vec<StatusItem> = Vec::with_capacity(entries.len());
    let ghost mut scanned: Seq<StatusItem> = Seq::empty();
    let mut i: usize = 0;
    while i < entries.len()
        invariant
            i <= entries@.len(),
            items_of(entries@.subrange(0, i as int)) == Ok::<Seq<StatusItem>, Error>(scanned),
            res@ == sort_by_path(scanned),
            in_path_order(res@),
            res@.to_multiset() == scanned.to_multiset(),
        decreases entries@.len() - i,
    {
        let e = &entries[i];
        proof {
            assert(entries@.subrange(0, i + 1).drop_last() =~= entries@.subrange(0, i as int));
            assert(entries@.subrange(0, i + 1).last() == entries@[i as int]);
        }
        let path = match &e.head_to_index {
            Some(Some(p)) => p.clone(),
            Some(None) => {
                proof {
                    lemma_items_of_err_prefix(entries@, i as int + 1);
                }
                return Err(Error::NewFilePathMissing);
            },
            None => match &e.path {
                Some(p) => p.clone(),
                None => {
                    proof {
                        lemma_items_of_err_prefix(entries@, i as int + 1);
                    }
                    return Err(Error::IndexPathMissing);
                },
            },
        };
        let x = StatusItem { path, status: e.flags.item_type() };
        let mut j: usize = res.len();
        while j > 0 && path_less(x.path.as_str(), res[j - 1].path.as_str())
            invariant
                j <= res@.len(),
                forall|k: int| j <= k < res@.len() ==> path_before(x.path@, #[trigger] res@[k].path@),
                j < res@.len() ==> !path_before(res@[j as int].path@, x.path@),
            decreases j,
        {
            j = j - 1;
        }
        proof {
            lemma_insert_at(res@, x, j as int);
            vstd::seq_lib::to_multiset_insert(res@, j as int, x);
            vstd::seq_lib::to_multiset_build(scanned, x);
            assert(scanned.push(x).drop_last() =~= scanned);
        }
        let ghost before = res@;
        res.insert(j, x);
        proof {
            assert forall|k: int| 0 < k < res@.len() implies !path_before(#[trigger] res@[k].path@, res@[k - 1].path@) by {
                if k < j {
                    assert(res@[k] == before[k] && res@[k - 1] == before[k - 1]);
                } else if k == j {
                } else if k == j + 1 {
                } else {
                    assert(res@[k] == before[k - 1] && res@[k - 1] == before[k - 2]);
                }
            }
            scanned = scanned.push(x);
        }
        i = i + 1;
    }
    proof {
        assert(entries@.subrange(0, i as int) =~= entries@);
    }
    Ok(res)
}

/// An error in the items of a prefix is the error of the whole scan.
proof fn lemma_items_of_err_prefix(entries: Seq<StatusEntry>, n: int)
    requires
        0 <= n <= entries.len(),
        items_of(entries.subrange(0, n)) is Err,
    ensures
        items_of(entries) == items_of(entries.subrange(0, n)),
    decreases entries.len() - n,
{
    if n < entries.len() {
        assert(entries.subrange(0, n + 1).drop_last() =~= entries.subrange(0, n));
        lemma_items_of_err_prefix(entries, n + 1);
    } else {
        assert(entries.subrange(0, n) =~= entries);
    }
}

/// Sorting a listing that is already in path order leaves it as it is: a
/// second scan of an unchanged working copy lists the same items in the same
/// order.
pub proof fn lemma_sorted_listing_is_stable(s: Seq<StatusItem>)
    requires
        in_path_order(s),
    ensures
        sort_by_path(s) == s,
    decreases s.len(),
{
    if s.len() > 0 {
        let p = s.drop_last();
        assert(in_path_order(p)) by {
            assert forall|i: int| 0 < i < p.len() implies !path_before(#[trigger] p[i].path@, p[i - 1].path@) by {
                assert(p[i] == s[i] && p[i - 1] == s[i - 1]);
            }
        }
        lemma_sorted_listing_is_stable(p);
        if s.len() > 1 {
            assert(s[s.len() - 1].path@ == s.last().path@);
            assert(!path_before(s[s.len() - 1].path@, s[s.len() - 2].path@));
        }
        assert(p.push(s.last()) =~= s);
    }
}

/// Which changes a status scan covers.
#[derive(Copy, Clone, Hash, PartialEq, Eq, Debug, Structural)]
pub enum StatusType {
    WorkingDir,
    Stage,
    Both,
}

impl Default for StatusType {
    fn default() -> (r: Self)
        ensures
            r == StatusType::WorkingDir,
    {
        StatusType::WorkingDir
    }
}

/// Whether a status scan lists untracked files, and the files inside
/// untracked directories.
#[derive(Copy, Clone, Hash, PartialEq, Eq, Debug, Structural)]
pub enum ShowUntrackedFilesConfig {
    No,
    Normal,
    All,
}

impl ShowUntrackedFilesConfig {
    pub fn include_untracked(&self) -> (r: bool)
        ensures
            r == (*self != ShowUntrackedFilesConfig::No),
    {
        !matches!(self, ShowUntrackedFilesConfig::No)
    }

    pub fn recurse_untracked_dirs(&self) -> (r: bool)
        ensures
            r == (*self == ShowUntrackedFilesConfig::All),
    {
        matches!(self, ShowUntrackedFilesConfig::All)
    }

    /// The policy that the repository's `status.showUntrackedFiles` value
    /// names: `no`, `normal` or `all`; `All` where the value is missing or
    /// none of these.
    pub fn from_config_value(value: Option<String>) -> (r: Self)
        ensures
            r == (match value {
                Some(v) => if v@ == "no"@ {
                    ShowUntrackedFilesConfig::No
                } else if v@ == "normal"@ {
                    ShowUntrackedFilesConfig::Normal
                } else {
                    ShowUntrackedFilesConfig::All
                },
                None => ShowUntrackedFilesConfig::All,
            }),
    {
        match value {
            Some(v) => {
                if v == "no".to_owned() {
                    ShowUntrackedFilesConfig::No
                } else if v == "normal".to_owned() {
                    ShowUntrackedFilesConfig::Normal
                } else {
                    ShowUntrackedFilesConfig::All
                }
            },
            None => ShowUntrackedFilesConfig::All,
        }
    }
}

/// The options of one status scan.
#[derive(Copy, Clone, Hash, PartialEq, Eq, Debug, Structural)]
pub struct StatusQuery {
    pub show: StatusType,
    pub update_index: bool,
    pub include_untracked: bool,
    pub renames_head_to_index: bool,
    pub recurse_untracked_dirs: bool,
}

impl StatusQuery {
    /// A scan of `show` that refreshes the index, detects renames between
    /// HEAD and the index, and treats untracked files as `untracked` says.
    pub fn new(show: StatusType, untracked: ShowUntrackedFilesConfig) -> (r: Self)
        ensures
            r.show == show,
            r.update_index,
            r.renames_head_to_index,
            r.include_untracked == (untracked != ShowUntrackedFilesConfig::No),
            r.recurse_untracked_dirs == (untracked == ShowUntrackedFilesConfig::All),
    {
        StatusQuery {
            show,
            update_index: true,
            include_untracked: untracked.include_untracked(),
            renames_head_to_index: true,
            recurse_untracked_dirs: untracked.recurse_untracked_dirs(),
        }
    }
}

/// Whether a repository has a working tree to scan.
#[derive(Copy, Clone, Hash, PartialEq, Eq, Debug, Structural)]
pub struct RepoKind {
    pub bare: bool,
    pub worktree: bool,
}

impl RepoKind {
    pub open spec fn spec_has_workdir(self) -> bool {
        !self.bare || self.worktree
    }

    /// A bare repository that is not a worktree has nothing to scan.
    pub fn has_workdir(&self) -> (r: bool)
        ensures
            r == self.spec_has_workdir(),
    {
        !self.bare || self.worktree
    }
}

/// The working copy is clean: there is none, or a working-directory scan
/// found `entries` entries and that is none.
pub fn workdir_clean(kind: RepoKind, entries: usize) -> (r: bool)
    ensures
        r == (!kind.spec_has_workdir() || entries == 0),
{
    !kind.has_workdir() || entries == 0
}

/// An entry that discarding to HEAD resets for: modified or new in the
/// working tree.
pub open spec fn needs_reset(f: StatusFlags) -> bool {
    f.has(WT_MODIFIED) || f.has(WT_NEW)
}

pub open spec fn reset_count(flags: Seq<StatusFlags>) -> nat
    decreases flags.len(),
{
    if flags.len() == 0 {
        0
    } else {
        reset_count(flags.drop_last()) + if needs_reset(flags.last()) { 1nat } else { 0nat }
    }
}

/// How many times discarding to HEAD resets the working tree and index:
/// once for each scanned entry that is modified or new in the working tree.
pub fn discard_reset_count(flags: &Vec<StatusFlags>) -> (r: usize)
    ensures
        r == reset_count(flags@),
{
    let mut n: usize = 0;
    let mut i: usize = 0;
    while i < flags.len()
        invariant
            i <= flags@.len(),
            n == reset_count(flags@.subrange(0, i as int)),
            n <= i,
        decreases flags@.len() - i,
    {
        proof {
            assert(flags@.subrange(0, i + 1).drop_last() =~= flags@.subrange(0, i as int));
        }
        if flags[i].is_wt_modified() || flags[i].is_wt_new() {
            n = n + 1;
        }
        i = i + 1;
    }
    proof {
        assert(flags@.subrange(0, i as int) =~= flags@);
    }
    n
}

} // verus!
