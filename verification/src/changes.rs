//! Logical changes: the kind of a change, its stable integer encoding, and
//! the (kind, path) record that batches are made of.

use vstd::prelude::*;

verus! {

/// The kind of one logical change to a watched path.
#[derive(Clone, Copy, PartialEq, Eq, Structural, Debug)]
pub enum ChangeKind {
    Added,
    Modified,
    Deleted,
}

impl ChangeKind {
    /// The stable integer encoding used across the library boundary.
    pub open spec fn code_spec(self) -> u8 {
        match self {
            ChangeKind::Added => 1,
            ChangeKind::Modified => 2,
            ChangeKind::Deleted => 3,
        }
    }

    /// Encode this kind as its stable integer code: 1 for `Added`,
    /// 2 for `Modified`, 3 for `Deleted`.
    pub fn code(self) -> (c: u8)
        ensures
            c == self.code_spec(),
    {
        match self {
            ChangeKind::Added => 1,
            ChangeKind::Modified => 2,
            ChangeKind::Deleted => 3,
        }
    }
}

/// One logical change: a kind attributed to a normalized path.
#[derive(Debug)]
pub struct ChangeRecord {
    pub kind: ChangeKind,
    pub path: String,
}

/// The mathematical value of a record: its kind and the characters of its
/// path. Two records are the same change exactly when these pairs are equal.
pub open spec fn rec_view(r: ChangeRecord) -> (ChangeKind, Seq<char>) {
    (r.kind, r.path@)
}

/// The set of changes that a sequence of records denotes; duplicates and
/// order are forgotten.
pub open spec fn batch_of(s: Seq<ChangeRecord>) -> Set<(ChangeKind, Seq<char>)> {
    Set::new(|p: (ChangeKind, Seq<char>)| exists|i: int| 0 <= i < s.len() && rec_view(s[i]) == p)
}

/// Law: a sequence of records with pairwise distinct values denotes a batch
/// with exactly one change per record.
pub proof fn lemma_distinct_records_count(s: Seq<ChangeRecord>)
    requires
        forall|i: int, j: int| 0 <= i < j < s.len() ==> rec_view(s[i]) != rec_view(s[j]),
    ensures
        batch_of(s).finite(),
        batch_of(s).len() == s.len(),
    decreases s.len(),
{
    if s.len() == 0 {
        assert(batch_of(s) =~= Set::<(ChangeKind, Seq<char>)>::empty());
    } else {
        let pre = s.drop_last();
        let last = rec_view(s.last());
        lemma_distinct_records_count(pre);
        assert forall|p: (ChangeKind, Seq<char>)| #[trigger] batch_of(s).contains(p)
            implies batch_of(pre).insert(last).contains(p) by {
            let i = choose|i: int| 0 <= i < s.len() && rec_view(s[i]) == p;
            if i < pre.len() {
                assert(rec_view(pre[i]) == p);
            }
        }
        assert forall|p: (ChangeKind, Seq<char>)| batch_of(pre).insert(last).contains(p)
            implies #[trigger] batch_of(s).contains(p) by {
            if p == last {
                assert(rec_view(s[s.len() - 1]) == p);
            } else {
                let i = choose|i: int| 0 <= i < pre.len() && rec_view(pre[i]) == p;
                assert(rec_view(s[i]) == p);
            }
        }
        assert(batch_of(s) =~= batch_of(pre).insert(last));
        if batch_of(pre).contains(last) {
            let i = choose|i: int| 0 <= i < pre.len() && rec_view(pre[i]) == last;
            assert(rec_view(s[i]) == rec_view(s[s.len() - 1]));
            assert(false);
        }
    }
}

impl ChangeRecord {
    /// Whether two records denote the same logical change, i.e. agree on
    /// both the kind and the full path text.
    pub fn same_as(&self, other: &ChangeRecord) -> (r: bool)
        ensures
            r == (rec_view(*self) == rec_view(*other)),
    {
        self.kind == other.kind && self.path == other.path
    }
}

} // verus!
