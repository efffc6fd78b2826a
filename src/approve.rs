//! Which pending snapshots an approval promotes to references.
use vstd::prelude::*;

use crate::job::{strip_png, strip_png_suffix};
use crate::story::{filter_hit, filter_hits};

verus! {

/// The kind of a pending snapshot.
#[derive(Debug, Clone, Copy, PartialEq, Eq, Structural)]
pub enum PendingKind {
    /// No reference yet.
    New,
    /// Compared and failed: a diff image exists.
    Failed,
}

/// A pending snapshot with a diff image failed; one without is new.
pub fn pending_kind(has_difference: bool) -> (r: PendingKind)
    ensures
        r == if has_difference {
            PendingKind::Failed
        } else {
            PendingKind::New
        },
{
    if has_difference {
        PendingKind::Failed
    } else {
        PendingKind::New
    }
}

/// The kind is wanted: `all` wants every kind; otherwise `new_only` wants
/// new snapshots, `failed_only` failed ones, and neither flag wants all.
pub open spec fn kind_wanted(kind: PendingKind, new_only: bool, failed_only: bool, all: bool) -> bool {
    if all {
        true
    } else if new_only {
        kind == PendingKind::New
    } else if failed_only {
        kind == PendingKind::Failed
    } else {
        true
    }
}

/// The id is selected by the optional pattern (a trailing `.png` dropped).
pub open spec fn id_wanted(id: Seq<char>, filter: Option<Seq<char>>) -> bool {
    match filter {
        None => true,
        Some(p) => filter_hit(id, strip_png(p)),
    }
}

/// Whether a pending snapshot of this kind is wanted by the flags.
pub fn wants_kind(kind: PendingKind, new_only: bool, failed_only: bool, all: bool) -> (r: bool)
    ensures
        r == kind_wanted(kind, new_only, failed_only, all),
{
    if all {
        true
    } else if new_only {
        kind == PendingKind::New
    } else if failed_only {
        kind == PendingKind::Failed
    } else {
        true
    }
}

/// Whether an id is wanted by the optional pattern.
pub fn wants_id(id: &str, filter: Option<&str>) -> (r: bool)
    ensures
        r == id_wanted(id@, crate::plan::opt_str(filter)),
{
    match filter {
        None => true,
        Some(p) => {
            let stripped = strip_png_suffix(p);
            filter_hits(id, stripped.as_str())
        },
    }
}

/// The positions of the pending snapshots an approval takes, among the first `n`.
pub open spec fn picks(
    ids: Seq<Seq<char>>,
    has_diff: Seq<bool>,
    filter: Option<Seq<char>>,
    new_only: bool,
    failed_only: bool,
    all: bool,
    n: int,
) -> Seq<int>
    decreases n,
{
    if n <= 0 {
        Seq::empty()
    } else {
        let kind = if has_diff[n - 1] {
            PendingKind::Failed
        } else {
            PendingKind::New
        };
        picks(ids, has_diff, filter, new_only, failed_only, all, n - 1) + if kind_wanted(
            kind,
            new_only,
            failed_only,
            all,
        ) && id_wanted(ids[n - 1], filter) {
            seq![n - 1]
        } else {
            Seq::empty()
        }
    }
}

/// The kind of a pending snapshot with or without a diff image.
pub open spec fn kind_of(has_difference: bool) -> PendingKind {
    if has_difference {
        PendingKind::Failed
    } else {
        PendingKind::New
    }
}

/// `r` lists the snapshots at positions `ps`, with their kinds.
pub open spec fn lists_picks(
    r: Seq<(String, PendingKind)>,
    ids: Seq<String>,
    has_diff: Seq<bool>,
    ps: Seq<int>,
) -> bool {
    &&& r.len() == ps.len()
    &&& forall|k: int|
        0 <= k < r.len() ==> (#[trigger] r[k]).0@ == ids[ps[k]]@ && r[k].1 == kind_of(has_diff[ps[k]])
}

/// Select the pending snapshots to approve, in order: `ids` are the ids
/// with a current blob, `has_diff[i]` tells whether `ids[i]` has a diff image.
pub fn select_for_approval(
    ids: &Vec<String>,
    has_diff: &Vec<bool>,
    filter: Option<&str>,
    new_only: bool,
    failed_only: bool,
    all: bool,
) -> (r: Vec<(String, PendingKind)>)
    requires
        ids@.len() == has_diff@.len(),
    ensures
        lists_picks(
            r@,
            ids@,
            has_diff@,
            picks(
                crate::driver::views(ids@),
                has_diff@,
                crate::plan::opt_str(filter),
                new_only,
                failed_only,
                all,
                ids@.len() as int,
            ),
        ),
{
    let ghost fil = crate::plan::opt_str(filter);
    let ghost vs = crate::driver::views(ids@);
    let mut r: Vec<(String, PendingKind)> = Vec::new();
    let mut i: usize = 0;
    while i < ids.len()
        invariant
            i <= ids.len(),
            ids@.len() == has_diff@.len(),
            vs == crate::driver::views(ids@),
            fil == crate::plan::opt_str(filter),
            lists_picks(r@, ids@, has_diff@, picks(vs, has_diff@, fil, new_only, failed_only, all, i as int)),
        decreases ids.len() - i,
    {
        let ghost before = picks(vs, has_diff@, fil, new_only, failed_only, all, i as int);
        let ghost r0 = r@;
        let kind = pending_kind(has_diff[i]);
        let take = wants_kind(kind, new_only, failed_only, all) && wants_id(ids[i].as_str(), filter);
        assert(vs[i as int] == ids@[i as int]@);
        if take {
            let name = ids[i].clone();
            r.push((name, kind));
            let ghost after = picks(vs, has_diff@, fil, new_only, failed_only, all, i + 1);
            assert(after == before + seq![i as int]);
            assert forall|k: int| 0 <= k < r@.len() implies (#[trigger] r@[k]).0@ == ids@[after[k]]@
                && r@[k].1 == kind_of(has_diff@[after[k]]) by {
                if k < r0.len() {
                    assert(r@[k] == r0[k]);
                    assert(after[k] == before[k]);
                } else {
                    assert(after[k] == i as int);
                }
            }
        } else {
            assert(picks(vs, has_diff@, fil, new_only, failed_only, all, i + 1) == before + Seq::<
                int,
            >::empty());
            assert(before + Seq::<int>::empty() == before);
        }
        i += 1;
    }
    r
}

} // verus!
