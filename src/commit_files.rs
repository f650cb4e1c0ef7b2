//! Which trees a commit's file list is diffed from, and how the diff's
//! entries become status items.

use crate::status::{spec_delta_item_type, DeltaKind, StatusItem, StatusItemType};
use vstd::prelude::*;

verus! {

/// Object id of a commit: the 20 raw bytes of its SHA-1.
#[derive(Copy, Clone, Debug, Hash)]
pub struct CommitId {
    pub bytes: [u8; 20],
}

/// `a` comes before `b` in byte order, looking from byte `k` on.
pub open spec fn bytes_before(a: Seq<u8>, b: Seq<u8>, k: int) -> bool
    decreases 20 - k,
{
    if k < 0 || k >= 20 {
        false
    } else if a[k] != b[k] {
        a[k] < b[k]
    } else {
        bytes_before(a, b, k + 1)
    }
}

impl CommitId {
    pub fn new(bytes: [u8; 20]) -> (r: Self)
        ensures
            r.bytes == bytes,
    {
        CommitId { bytes }
    }

    /// The ordering of ids by their bytes, most significant first.
    pub open spec fn spec_before(self, other: CommitId) -> bool {
        bytes_before(self.bytes@, other.bytes@, 0)
    }

    pub fn before(&self, other: &CommitId) -> (r: bool)
        ensures
            r == self.spec_before(*other),
    {
        let mut k: usize = 0;
        while k < 20
            invariant
                k <= 20,
                self.bytes@.len() == 20,
                other.bytes@.len() == 20,
                bytes_before(self.bytes@, other.bytes@, 0) == bytes_before(self.bytes@, other.bytes@, k as int),
            decreases 20 - k,
        {
            if self.bytes[k] != other.bytes[k] {
                return self.bytes[k] < other.bytes[k];
            }
            k = k + 1;
        }
        false
    }
}

impl PartialEq for CommitId {
    fn eq(&self, other: &CommitId) -> (r: bool) {
        let mut k: usize = 0;
        while k < 20
            invariant
                k <= 20,
                self.bytes@.len() == 20,
                other.bytes@.len() == 20,
                forall|i: int| 0 <= i < k ==> self.bytes@[i] == other.bytes@[i],
            decreases 20 - k,
        {
            if self.bytes[k] != other.bytes[k] {
                return false;
            }
            k = k + 1;
        }
        assert(self.bytes@ =~= other.bytes@);
        true
    }
}

impl vstd::std_specs::cmp::PartialEqSpecImpl for CommitId {
    open spec fn obeys_eq_spec() -> bool {
        true
    }

    open spec fn eq_spec(&self, other: &CommitId) -> bool {
        self.bytes@ == other.bytes@
    }
}

impl Eq for CommitId {
}

proof fn lemma_bytes_before_strict(a: Seq<u8>, b: Seq<u8>, k: int)
    requires
        a.len() == 20,
        b.len() == 20,
        0 <= k <= 20,
    ensures
        !(bytes_before(a, b, k) && bytes_before(b, a, k)),
        a.subrange(k, 20) != b.subrange(k, 20) ==> bytes_before(a, b, k) || bytes_before(b, a, k),
    decreases 20 - k,
{
    if k < 20 {
        lemma_bytes_before_strict(a, b, k + 1);
        if a[k] == b[k] && a.subrange(k, 20) != b.subrange(k, 20) {
            assert(a.subrange(k + 1, 20) != b.subrange(k + 1, 20)) by {
                if a.subrange(k + 1, 20) == b.subrange(k + 1, 20) {
                    assert forall|i: int| 0 <= i < 20 - k implies a.subrange(k, 20)[i] == b.subrange(k, 20)[i] by {
                        if i > 0 {
                            assert(a.subrange(k + 1, 20)[i - 1] == b.subrange(k + 1, 20)[i - 1]);
                        }
                    }
                    assert(a.subrange(k, 20) =~= b.subrange(k, 20));
                }
            }
        }
    } else {
        assert(a.subrange(k, 20) =~= b.subrange(k, 20));
    }
}

/// Parameters of a commit-files query: the commit, and the commit to
/// compare it with, if any.
#[derive(Copy, Clone, Debug)]
pub struct CommitFilesParams {
    pub id: CommitId,
    pub other: Option<CommitId>,
}

impl PartialEq for CommitFilesParams {
    fn eq(&self, o: &CommitFilesParams) -> (r: bool) {
        self.id == o.id && match (self.other, o.other) {
            (Some(a), Some(b)) => a == b,
            (None, None) => true,
            _ => false,
        }
    }
}

impl vstd::std_specs::cmp::PartialEqSpecImpl for CommitFilesParams {
    open spec fn obeys_eq_spec() -> bool {
        true
    }

    open spec fn eq_spec(&self, o: &CommitFilesParams) -> bool {
        &&& self.id.bytes@ == o.id.bytes@
        &&& match (self.other, o.other) {
            (Some(a), Some(b)) => a.bytes@ == b.bytes@,
            (None, None) => true,
            _ => false,
        }
    }
}

impl Eq for CommitFilesParams {
}

impl CommitFilesParams {
    pub fn new(id: CommitId, other: Option<CommitId>) -> (r: Self)
        ensures
            r.id == id,
            r.other == other,
    {
        CommitFilesParams { id, other }
    }
}

/// What a commit-files query needs to know of a commit.
#[derive(Clone, Debug)]
pub struct CommitInfo {
    pub id: CommitId,
    /// Commit time, in seconds since the epoch.
    pub time: i64,
    pub parents: Vec<CommitId>,
    /// The commit is an entry of the repository's stash list.
    pub in_stash_list: bool,
}

/// A commit as a commit-files query treats it.
#[derive(Copy, Clone, PartialEq, Eq, Debug)]
pub enum CommitShape {
    Ordinary { first_parent: Option<CommitId> },
    /// A stash entry: its HEAD parent, its index parent and, where the
    /// stash recorded untracked files, the commit that holds them.
    Stash { head: CommitId, index: CommitId, untracked: Option<CommitId> },
}

pub open spec fn spec_shape(c: CommitInfo) -> CommitShape {
    if c.in_stash_list && c.parents@.len() >= 2 {
        CommitShape::Stash {
            head: c.parents@[0],
            index: c.parents@[1],
            untracked: if c.parents@.len() >= 3 { Some(c.parents@[2]) } else { None },
        }
    } else {
        CommitShape::Ordinary {
            first_parent: if c.parents@.len() >= 1 { Some(c.parents@[0]) } else { None },
        }
    }
}

/// A stash entry (listed in the stash, with HEAD and index parents) or an
/// ordinary commit.
pub fn classify_commit(c: &CommitInfo) -> (r: CommitShape)
    ensures
        r == spec_shape(*c),
{
    if c.in_stash_list && c.parents.len() >= 2 {
        CommitShape::Stash {
            head: c.parents[0],
            index: c.parents[1],
            untracked: if c.parents.len() >= 3 { Some(c.parents[2]) } else { None },
        }
    } else {
        CommitShape::Ordinary {
            first_parent: if c.parents.len() >= 1 { Some(c.parents[0]) } else { None },
        }
    }
}

/// A diff from the tree of `base` (the empty tree where `None`) to the tree
/// of `target`, merged, where `merge_untracked` names a commit, with that
/// commit's own commit-files diff.
#[derive(Copy, Clone, PartialEq, Eq, Debug)]
pub struct DiffPlan {
    pub base: Option<CommitId>,
    pub target: CommitId,
    pub merge_untracked: Option<CommitId>,
}

/// `a` is the earlier of two commits: by commit time, and by id where the
/// times are equal.
pub open spec fn earlier(a: CommitInfo, b: CommitInfo) -> bool {
    a.time < b.time || (a.time == b.time && !b.id.spec_before(a.id))
}

/// Two commits compared: the earlier one is the base, the later one the
/// target, whichever order they were given in.
pub open spec fn spec_compare_plan(a: CommitInfo, b: CommitInfo) -> DiffPlan {
    if earlier(a, b) {
        DiffPlan { base: Some(a.id), target: b.id, merge_untracked: None }
    } else {
        DiffPlan { base: Some(b.id), target: a.id, merge_untracked: None }
    }
}

/// One commit's own diff: from its first parent (the empty tree for a root
/// commit), with the untracked files of a stash entry merged in.
pub open spec fn spec_commit_plan(c: CommitInfo) -> DiffPlan {
    DiffPlan {
        base: if c.parents@.len() >= 1 { Some(c.parents@[0]) } else { None },
        target: c.id,
        merge_untracked: match spec_shape(c) {
            CommitShape::Stash { untracked, .. } => untracked,
            CommitShape::Ordinary { .. } => None,
        },
    }
}

/// The diff whose entries make the file list of `commit`: compared with
/// `other` where that is given, else the commit's own diff.
pub fn plan_commit_diff(commit: &CommitInfo, other: Option<&CommitInfo>) -> (r: DiffPlan)
    ensures
        r == (match other {
            Some(o) => spec_compare_plan(*commit, *o),
            None => spec_commit_plan(*commit),
        }),
{
    match other {
        Some(o) => {
            let first = commit.time < o.time || (commit.time == o.time && !o.id.before(&commit.id));
            if first {
                DiffPlan { base: Some(commit.id), target: o.id, merge_untracked: None }
            } else {
                DiffPlan { base: Some(o.id), target: commit.id, merge_untracked: None }
            }
        },
        None => {
            let base = if commit.parents.len() >= 1 { Some(commit.parents[0]) } else { None };
            let merge_untracked = match classify_commit(commit) {
                CommitShape::Stash { untracked, .. } => untracked,
                CommitShape::Ordinary { .. } => None,
            };
            DiffPlan { base, target: commit.id, merge_untracked }
        },
    }
}

/// Comparing two commits does not depend on the order they are given in:
/// both orders diff the same base to the same target.
pub proof fn lemma_compare_is_order_invariant(a: CommitInfo, b: CommitInfo)
    ensures
        spec_compare_plan(a, b) == spec_compare_plan(b, a),
{
    lemma_bytes_before_strict(a.id.bytes@, b.id.bytes@, 0);
    if a.id != b.id {
        assert(a.id.bytes@ != b.id.bytes@) by {
            if a.id.bytes@ == b.id.bytes@ {
                assert(a.id.bytes == b.id.bytes);
            }
        }
        assert(a.id.bytes@.subrange(0, 20) =~= a.id.bytes@);
        assert(b.id.bytes@.subrange(0, 20) =~= b.id.bytes@);
    }
}

/// One entry of a diff: the path on its new side (`None` where it has none
/// or it is not readable) and how it changed.
#[derive(Clone, Debug)]
pub struct DiffDelta {
    pub new_path: Option<String>,
    pub status: DeltaKind,
}

/// The item that a diff entry is listed as: its new-side path, empty where
/// there is none.
pub open spec fn spec_delta_item(d: DiffDelta) -> (StatusItemType, Seq<char>) {
    (
        spec_delta_item_type(d.status),
        match d.new_path {
            Some(p) => p@,
            None => Seq::empty(),
        },
    )
}

/// The file list of a diff: one item for each entry, in the diff's order.
pub fn commit_files_from_deltas(deltas: &Vec<DiffDelta>) -> (r: Vec<StatusItem>)
    ensures
        r@.len() == deltas@.len(),
        forall|i: int|
            0 <= i < r@.len() ==> (#[trigger] r@[i].status, r@[i].path@) == spec_delta_item(deltas@[i]),
{
    let mut res: Vec<StatusItem> = Vec::with_capacity(deltas.len());
    let mut i: usize = 0;
    while i < deltas.len()
        invariant
            i <= deltas@.len(),
            res@.len() == i,
            forall|k: int|
                0 <= k < i ==> (#[trigger] res@[k].status, res@[k].path@) == spec_delta_item(deltas@[k]),
        decreases deltas@.len() - i,
    {
        let d = &deltas[i];
        let path = match &d.new_path {
            Some(p) => p.clone(),
            None => String::new(),
        };
        res.push(StatusItem { path, status: StatusItemType::from(d.status) });
        i = i + 1;
    }
    res
}

} // verus!
