//! The raw-event classifier: maps one platform-level filesystem notification
//! into zero or one logical change applied to the aggregator's batch, plus the
//! correlation-cookie variant used by backends whose rename notifications come
//! in two undirected halves sharing an opaque token.

use vstd::prelude::*;

use crate::aggregator::ChangeAggregator;
use crate::changes::rec_view;
use crate::changes::ChangeKind;
use crate::changes::ChangeRecord;

verus! {

/// The category of one platform notification, as far as classification cares:
/// creations, the flavours of modification, the three directional rename
/// halves, an undirected rename, removals, and everything else.
#[derive(Clone, Copy, PartialEq, Eq, Structural, Debug)]
pub enum RawEventKind {
    /// A file or directory came into being.
    Create,
    /// File contents changed.
    ModifyData,
    /// Only metadata (permissions, timestamps) changed.
    ModifyMetadata,
    /// A modification of some other specific flavour.
    ModifyOther,
    /// A modification of unknown flavour.
    ModifyAny,
    /// The source half of a directional rename.
    RenameFrom,
    /// The destination half of a directional rename.
    RenameTo,
    /// A synthesized summary of both rename halves already reported.
    RenameBoth,
    /// A rename with no direction attached; classification falls back to a
    /// liveness probe of the path.
    RenameUnknown,
    /// A file or directory went away.
    Remove,
    /// Any unrecognized category.
    Other,
}

/// Whether a category is one of the modification flavours, all of which are
/// subject to the suppression rule.
pub open spec fn is_modify(kind: RawEventKind) -> bool {
    ||| kind == RawEventKind::ModifyData
    ||| kind == RawEventKind::ModifyMetadata
    ||| kind == RawEventKind::ModifyOther
    ||| kind == RawEventKind::ModifyAny
}

/// What one notification contributes to the batch, if anything.
///
/// Modifications are suppressed when the same path already has a pending
/// Added or Deleted record in the batch: such events are noise from the
/// create or delete itself, not a separate semantic change. Metadata-only
/// modifications follow the same policy as content modifications. A
/// directional rename maps its "from" half to Deleted and its "to" half to
/// Added, and the combined summary event is dropped as a duplicate. An
/// undirected rename is classified by a liveness probe of the path — a
/// documented best-effort heuristic that may misclassify under rapid churn.
pub open spec fn spec_classify(
    batch: Set<(ChangeKind, Seq<char>)>,
    kind: RawEventKind,
    path: Seq<char>,
    path_exists: bool,
) -> Option<ChangeKind> {
    match kind {
        RawEventKind::Create => Some(ChangeKind::Added),
        RawEventKind::ModifyData | RawEventKind::ModifyMetadata | RawEventKind::ModifyOther
            | RawEventKind::ModifyAny => if batch.contains((ChangeKind::Deleted, path))
            || batch.contains((ChangeKind::Added, path)) {
            None
        } else {
            Some(ChangeKind::Modified)
        },
        RawEventKind::RenameFrom => Some(ChangeKind::Deleted),
        RawEventKind::RenameTo => Some(ChangeKind::Added),
        RawEventKind::RenameBoth => None,
        RawEventKind::RenameUnknown => if path_exists {
            Some(ChangeKind::Added)
        } else {
            Some(ChangeKind::Deleted)
        },
        RawEventKind::Remove => Some(ChangeKind::Deleted),
        RawEventKind::Other => None,
    }
}

/// The batch after one notification has been classified against it.
pub open spec fn spec_apply_event(
    batch: Set<(ChangeKind, Seq<char>)>,
    kind: RawEventKind,
    path: Seq<char>,
    path_exists: bool,
) -> Set<(ChangeKind, Seq<char>)> {
    match spec_classify(batch, kind, path, path_exists) {
        Some(k) => batch.insert((k, path)),
        None => batch,
    }
}

/// Classify one notification and apply the result to the aggregator's batch.
///
/// `path_exists` is the result of the liveness probe for `path`, consulted
/// only for an undirected rename. The error slot is never touched here.
pub fn apply_event(
    agg: &mut ChangeAggregator,
    kind: RawEventKind,
    path: String,
    path_exists: bool,
)
    requires
        old(agg).wf(),
    ensures
        final(agg).wf(),
        final(agg).batch() == spec_apply_event(old(agg).batch(), kind, path@, path_exists),
        final(agg).batch_size() == (match spec_classify(old(agg).batch(), kind, path@, path_exists) {
            Some(k) => if old(agg).batch().contains((k, path@)) {
                old(agg).batch_size()
            } else {
                old(agg).batch_size() + 1
            },
            None => old(agg).batch_size(),
        }),
        final(agg).error_view() == old(agg).error_view(),
{
    let classified: Option<ChangeKind> = match kind {
        RawEventKind::Create => Some(ChangeKind::Added),
        RawEventKind::ModifyData | RawEventKind::ModifyMetadata | RawEventKind::ModifyOther
            | RawEventKind::ModifyAny => {
            let deleted = ChangeRecord { kind: ChangeKind::Deleted, path: path.clone() };
            let added = ChangeRecord { kind: ChangeKind::Added, path: path.clone() };
            if agg.contains(&deleted) || agg.contains(&added) {
                None
            } else {
                Some(ChangeKind::Modified)
            }
        },
        RawEventKind::RenameFrom => Some(ChangeKind::Deleted),
        RawEventKind::RenameTo => Some(ChangeKind::Added),
        RawEventKind::RenameBoth => None,
        RawEventKind::RenameUnknown => if path_exists {
            Some(ChangeKind::Added)
        } else {
            Some(ChangeKind::Deleted)
        },
        RawEventKind::Remove => Some(ChangeKind::Deleted),
        RawEventKind::Other => None,
    };
    match classified {
        Some(k) => {
            agg.record(ChangeRecord { kind: k, path });
        },
        None => {
            proof {
                assert(agg.batch() =~= spec_apply_event(old(agg).batch(), kind, path@, path_exists));
            }
        },
    }
}

/// Law: a modification of a path that this batch already saw created is
/// suppressed. After classifying a creation of `p` and then any flavour of
/// modification of `p`, the batch holds the Added record for `p` and no
/// Modified record for it appeared.
pub proof fn lemma_created_then_modified_suppressed(
    batch: Set<(ChangeKind, Seq<char>)>,
    modify_kind: RawEventKind,
    p: Seq<char>,
    e1: bool,
    e2: bool,
)
    requires
        is_modify(modify_kind),
        !batch.contains((ChangeKind::Modified, p)),
    ensures
        ({
            let after_create = spec_apply_event(batch, RawEventKind::Create, p, e1);
            let after_modify = spec_apply_event(after_create, modify_kind, p, e2);
            &&& after_modify == after_create
            &&& after_modify.contains((ChangeKind::Added, p))
            &&& !after_modify.contains((ChangeKind::Modified, p))
        }),
{
}

/// Law: for a path created and then deleted within one batch, the terminal
/// Deleted record stands, and the suppression rule applied at classification
/// time keeps the modification noise of the transition out: any further
/// modification of the path leaves the batch unchanged, and no Modified
/// record for it ever appears.
pub proof fn lemma_created_then_deleted_dominates(
    batch: Set<(ChangeKind, Seq<char>)>,
    modify_kind: RawEventKind,
    p: Seq<char>,
    e1: bool,
    e2: bool,
)
    requires
        is_modify(modify_kind),
        !batch.contains((ChangeKind::Modified, p)),
    ensures
        ({
            let after_create = spec_apply_event(batch, RawEventKind::Create, p, e1);
            let after_delete = spec_apply_event(after_create, RawEventKind::Remove, p, e1);
            let after_modify = spec_apply_event(after_delete, modify_kind, p, e2);
            &&& after_delete.contains((ChangeKind::Deleted, p))
            &&& after_modify == after_delete
            &&& !after_modify.contains((ChangeKind::Modified, p))
        }),
{
}

/// Law: a directional rename reported as "from `a`, to `b`" yields exactly
/// the records (Deleted, `a`) and (Added, `b`); the synthesized combined
/// event for the same rename, whatever path `c` it carries, adds nothing.
/// Starting from an empty batch the result is exactly that pair of records.
pub proof fn lemma_directional_rename(
    batch: Set<(ChangeKind, Seq<char>)>,
    a: Seq<char>,
    b: Seq<char>,
    c: Seq<char>,
    e1: bool,
    e2: bool,
    e3: bool,
)
    ensures
        ({
            let after_from = spec_apply_event(batch, RawEventKind::RenameFrom, a, e1);
            let after_to = spec_apply_event(after_from, RawEventKind::RenameTo, b, e2);
            let after_both = spec_apply_event(after_to, RawEventKind::RenameBoth, c, e3);
            &&& after_both == batch.insert((ChangeKind::Deleted, a)).insert((ChangeKind::Added, b))
            &&& batch == Set::<(ChangeKind, Seq<char>)>::empty() ==> after_both == set![
                (ChangeKind::Deleted, a),
                (ChangeKind::Added, b),
            ]
        }),
{
    let after_from = spec_apply_event(batch, RawEventKind::RenameFrom, a, e1);
    let after_to = spec_apply_event(after_from, RawEventKind::RenameTo, b, e2);
    let after_both = spec_apply_event(after_to, RawEventKind::RenameBoth, c, e3);
    if batch == Set::<(ChangeKind, Seq<char>)>::empty() {
        assert(after_both =~= set![(ChangeKind::Deleted, a), (ChangeKind::Added, b)]);
    }
}

/// The Deleted records for a list of paths.
pub open spec fn deleted_records(paths: Seq<Seq<char>>) -> Set<(ChangeKind, Seq<char>)>
    decreases paths.len(),
{
    if paths.len() == 0 {
        Set::empty()
    } else {
        deleted_records(paths.drop_last()).insert((ChangeKind::Deleted, paths.last()))
    }
}

/// Apply an out-of-band error from the OS watcher. An I/O "not found" error
/// means watched files disappeared out from under the watch: every path
/// attached to the error becomes a Deleted record rather than a failure. Any
/// other error populates the error slot verbatim (first error wins).
pub fn apply_watch_failure(
    agg: &mut ChangeAggregator,
    io_not_found: bool,
    paths: &Vec<String>,
    message: String,
)
    requires
        old(agg).wf(),
    ensures
        final(agg).wf(),
        io_not_found ==> final(agg).batch() == old(agg).batch().union(
            deleted_records(paths.deep_view()),
        ) && final(agg).error_view() == old(agg).error_view(),
        !io_not_found ==> final(agg).batch() == old(agg).batch() && final(agg).batch_size() == old(
            agg).batch_size() && final(agg).error_view() == (if old(agg).error_view() is None {
            Some(message@)
        } else {
            old(agg).error_view()
        }),
{
    if io_not_found {
        let ghost all = paths.deep_view();
        let mut i: usize = 0;
        proof {
            assert(agg.batch() =~= old(agg).batch().union(deleted_records(all.take(0))));
        }
        while i < paths.len()
            invariant
                i <= paths@.len(),
                all == paths.deep_view(),
                agg.wf(),
                agg.error_view() == old(agg).error_view(),
                agg.batch() == old(agg).batch().union(deleted_records(all.take(i as int))),
            decreases paths@.len() - i,
        {
            let rec = ChangeRecord { kind: ChangeKind::Deleted, path: paths[i].clone() };
            proof {
                assert(rec_view(rec) == (ChangeKind::Deleted, all[i as int]));
            }
            agg.record(rec);
            proof {
                let pre = all.take(i as int);
                let post = all.take(i + 1);
                assert(post.drop_last() =~= pre);
                assert(post.last() == all[i as int]);
                assert(deleted_records(post) == deleted_records(pre).insert(
                    (ChangeKind::Deleted, all[i as int]),
                ));
                assert(agg.batch() =~= old(agg).batch().union(deleted_records(post)));
            }
            i = i + 1;
        }
        proof {
            assert(all.take(paths@.len() as int) =~= all);
        }
    } else {
        agg.fail(message);
    }
}

/// Tracks the correlation cookies of rename halves whose partner has not yet
/// been seen.
pub struct CookieTracker {
    pending: Vec<u64>,
}

impl CookieTracker {
    /// The cookies whose first half has been seen and not yet paired.
    pub closed spec fn pending_set(self) -> Set<u64> {
        Set::new(|c: u64| exists|i: int| 0 <= i < self.pending@.len() && self.pending@[i] == c)
    }

    /// Well-formedness: each pending cookie is held once.
    pub closed spec fn wf(self) -> bool {
        forall|i: int, j: int|
            0 <= i < j < self.pending@.len() ==> self.pending@[i] != self.pending@[j]
    }

    /// A fresh tracker with no pending cookies.
    pub fn new() -> (t: CookieTracker)
        ensures
            t.wf(),
            t.pending_set() == Set::<u64>::empty(),
    {
        let t = CookieTracker { pending: Vec::new() };
        proof {
            assert(t.pending_set() =~= Set::<u64>::empty());
        }
        t
    }

    /// Classify one half of a cookie-correlated rename: the first occurrence
    /// of a cookie is the vanishing source (Deleted) and is remembered; the
    /// second occurrence is the appearing destination (Added) and the cookie
    /// is forgotten.
    pub fn resolve(&mut self, cookie: u64) -> (kind: ChangeKind)
        requires
            old(self).wf(),
        ensures
            final(self).wf(),
            old(self).pending_set().contains(cookie) ==> kind == ChangeKind::Added
                && final(self).pending_set() == old(self).pending_set().remove(cookie),
            !old(self).pending_set().contains(cookie) ==> kind == ChangeKind::Deleted
                && final(self).pending_set() == old(self).pending_set().insert(cookie),
    {
        let mut i: usize = 0;
        while i < self.pending.len()
            invariant
                i <= self.pending@.len(),
                *self == *old(self),
                old(self).wf(),
                forall|j: int| 0 <= j < i ==> self.pending@[j] != cookie,
            decreases self.pending@.len() - i,
        {
            if self.pending[i] == cookie {
                proof {
                    assert(old(self).pending@[i as int] == cookie);
                    assert(forall|j: int| 0 <= j < i ==> old(self).pending@[j] != cookie);
                    assert forall|x: int, y: int|
                        0 <= x < y < old(self).pending@.len() implies old(self).pending@[x] != old(
                        self).pending@[y] by {
                        assert(old(self).wf());
                    }
                }
                self.pending.remove(i);
                proof {
                    let s_old = old(self).pending@;
                    let s_new = self.pending@;
                    assert(forall|x: int, y: int|
                        0 <= x < y < s_old.len() ==> s_old[x] != s_old[y]);
                    assert(forall|k: int|
                        0 <= k < i ==> #[trigger] s_new[k] == s_old[k]);
                    assert(forall|k: int|
                        i <= k < s_new.len() ==> #[trigger] s_new[k] == s_old[k + 1]);
                    assert forall|c: u64| old(self).pending_set().remove(cookie).contains(c)
                        implies #[trigger] self.pending_set().contains(c) by {
                        let k = choose|k: int| 0 <= k < s_old.len() && s_old[k] == c;
                        if k < i {
                            assert(s_new[k] == c);
                        } else {
                            assert(k > i);
                            assert(s_new[k - 1] == c);
                        }
                    }
                    assert forall|c: u64| #[trigger] self.pending_set().contains(c)
                        implies old(self).pending_set().remove(cookie).contains(c) by {
                        let k = choose|k: int| 0 <= k < s_new.len() && s_new[k] == c;
                        if k < i {
                            assert(s_old[k] == c);
                            assert(c != cookie);
                        } else {
                            assert(s_old[k + 1] == c);
                            assert(s_old[i as int] != s_old[k + 1]);
                            assert(c != cookie);
                        }
                    }
                    assert(self.pending_set() =~= old(self).pending_set().remove(cookie));
                    assert forall|x: int, y: int| 0 <= x < y < s_new.len() implies s_new[x]
                        != s_new[y] by {
                        if x < i {
                            assert(s_new[x] == s_old[x]);
                        } else {
                            assert(s_new[x] == s_old[x + 1]);
                        }
                        if y < i {
                            assert(s_new[y] == s_old[y]);
                        } else {
                            assert(s_new[y] == s_old[y + 1]);
                        }
                    }
                }
                return ChangeKind::Added;
            }
            i = i + 1;
        }
        self.pending.push(cookie);
        proof {
            let s_old = old(self).pending@;
            let s_new = self.pending@;
            assert forall|c: u64| old(self).pending_set().insert(cookie).contains(c)
                implies #[trigger] self.pending_set().contains(c) by {
                if c == cookie {
                    assert(s_new[s_old.len() as int] == c);
                } else {
                    let k = choose|k: int| 0 <= k < s_old.len() && s_old[k] == c;
                    assert(s_new[k] == c);
                }
            }
            assert(self.pending_set() =~= old(self).pending_set().insert(cookie));
        }
        ChangeKind::Deleted
    }
}

/// Classify one half of a cookie-correlated rename and apply it to the batch.
/// A half whose cookie could not be extracted yields no record at all.
pub fn apply_cookie_rename(
    agg: &mut ChangeAggregator,
    tracker: &mut CookieTracker,
    cookie: Option<u64>,
    path: String,
)
    requires
        old(agg).wf(),
        old(tracker).wf(),
    ensures
        final(agg).wf(),
        final(tracker).wf(),
        final(agg).error_view() == old(agg).error_view(),
        match cookie {
            None => *final(agg) == *old(agg) && *final(tracker) == *old(tracker),
            Some(c) => {
                let kind = if old(tracker).pending_set().contains(c) {
                    ChangeKind::Added
                } else {
                    ChangeKind::Deleted
                };
                &&& final(agg).batch() == old(agg).batch().insert((kind, path@))
                &&& final(tracker).pending_set() == (if old(tracker).pending_set().contains(c) {
                    old(tracker).pending_set().remove(c)
                } else {
                    old(tracker).pending_set().insert(c)
                })
            },
        },
{
    match cookie {
        Some(c) => {
            let kind = tracker.resolve(c);
            agg.record(ChangeRecord { kind, path });
        },
        None => {},
    }
}

} // verus!
