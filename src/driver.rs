//! Classification of each capture against the store, the run's tallies, the
//! exit code and orphan detection.
use vstd::prelude::*;

use crate::compare::{prepared_ok, CompareError, CompareResult, Prepared};
use crate::store::{
    apply_ops, clean_output, clean_output_plan, has_difference_in, op, ops_model,
    reference_write_plan, OpKind, Payload, Snapshots, StoreOp, Tree,
};

verus! {

/// The largest diff score that still passes, as the fraction `num / den`
/// between 0 and 1.
#[derive(Debug, Clone, Copy, PartialEq, Eq, Structural)]
pub struct Threshold {
    pub num: u64,
    pub den: u64,
}

impl Threshold {
    /// A fraction between 0 and 1.
    pub open spec fn wf(self) -> bool {
        self.den > 0 && self.num <= self.den
    }

    /// The default threshold: zero, so any differing pixel fails.
    pub fn zero() -> (r: Threshold)
        ensures
            r.wf(),
            r.num == 0,
    {
        Threshold { num: 0, den: 1 }
    }

    /// The threshold `num / den`; `None` unless `den > 0` and `num <= den`.
    pub fn new(num: u64, den: u64) -> (r: Option<Threshold>)
        ensures
            r is Some <==> (den > 0 && num <= den),
            r matches Some(t) ==> t.wf() && t.num == num && t.den == den,
    {
        if den > 0 && num <= den {
            Some(Threshold { num, den })
        } else {
            None
        }
    }
}

/// The score `diff / total` (zero when nothing was compared) is at most `t`.
pub open spec fn score_within(diff: nat, total: nat, t: Threshold) -> bool {
    diff * (t.den as nat) <= (t.num as nat) * total
}

/// Status of a single snapshot comparison.
pub enum SnapshotStatus {
    Pass,
    Fail {
        diff_pixels: u64,
        total_pixels: u64,
        dimension_mismatch: Option<(u32, u32, u32, u32)>,
    },
    New,
    Error(String),
}

/// The four kinds of per-snapshot outcome a run counts.
#[derive(Debug, Clone, Copy, PartialEq, Eq, Structural)]
pub enum OutcomeKind {
    Pass,
    Fail,
    New,
    Error,
}

impl SnapshotStatus {
    /// The kind of this status.
    pub open spec fn kind_of(&self) -> OutcomeKind {
        match self {
            SnapshotStatus::Pass => OutcomeKind::Pass,
            SnapshotStatus::Fail { .. } => OutcomeKind::Fail,
            SnapshotStatus::New => OutcomeKind::New,
            SnapshotStatus::Error(_) => OutcomeKind::Error,
        }
    }

    /// The kind of this status.
    pub fn kind(&self) -> (r: OutcomeKind)
        ensures
            r == self.kind_of(),
    {
        match self {
            SnapshotStatus::Pass => OutcomeKind::Pass,
            SnapshotStatus::Fail { .. } => OutcomeKind::Fail,
            SnapshotStatus::New => OutcomeKind::New,
            SnapshotStatus::Error(_) => OutcomeKind::Error,
        }
    }
}

/// A classification and the store operations it calls for.
pub struct Verdict {
    pub status: SnapshotStatus,
    pub ops: Vec<StoreOp>,
}

/// The kind of outcome for a capture: `None` when no reference exists,
/// otherwise what the comparison gave.
pub open spec fn outcome_for(compared: Option<Result<CompareResult, CompareError>>, t: Threshold) -> OutcomeKind {
    match compared {
        None => OutcomeKind::New,
        Some(Err(_)) => OutcomeKind::Error,
        Some(Ok(res)) => if res.is_match || score_within(
            res.diff_pixels as nat,
            res.total_pixels as nat,
            t,
        ) {
            OutcomeKind::Pass
        } else {
            OutcomeKind::Fail
        },
    }
}

/// The store operations for a capture of `id` with the given outcome.
pub open spec fn plan_for(
    id: Seq<char>,
    compared: Option<Result<CompareResult, CompareError>>,
    t: Threshold,
) -> Seq<(OpKind, Tree, Seq<char>)> {
    match outcome_for(compared, t) {
        OutcomeKind::Pass => clean_output_plan(id),
        OutcomeKind::Fail => if compared->Some_0->Ok_0.has_diff_image {
            seq![(OpKind::Write, Tree::Current, id), (OpKind::Write, Tree::Difference, id)]
        } else {
            seq![(OpKind::Write, Tree::Current, id)]
        },
        _ => seq![(OpKind::Write, Tree::Current, id)],
    }
}

/// Whether a comparison result passes under `threshold`.
pub fn passes(result: &CompareResult, threshold: Threshold) -> (r: bool)
    requires
        threshold.wf(),
    ensures
        r == (result.is_match || score_within(
            result.diff_pixels as nat,
            result.total_pixels as nat,
            threshold,
        )),
{
    if result.is_match {
        return true;
    }
    proof {
        assert((result.diff_pixels as nat) * (threshold.den as nat) <= 0xffff_ffff_ffff_ffffnat
            * 0xffff_ffff_ffff_ffffnat) by (nonlinear_arith)
            requires
                result.diff_pixels <= u64::MAX,
                threshold.den <= u64::MAX,
        ;
        assert((threshold.num as nat) * (result.total_pixels as nat) <= 0xffff_ffff_ffff_ffffnat
            * 0xffff_ffff_ffff_ffffnat) by (nonlinear_arith)
            requires
                result.total_pixels <= u64::MAX,
                threshold.num <= u64::MAX,
        ;
    }
    (result.diff_pixels as u128) * (threshold.den as u128) <= (threshold.num as u128) * (
    result.total_pixels as u128)
}

/// Classify the capture of `id`. `compared` is `None` when no reference
/// exists, else the comparison's result or error.
/// - No reference: `New`; the capture is kept as the current blob.
/// - A match, or a score within the threshold: `Pass`; stale current and
///   difference blobs go.
/// - Otherwise `Fail`; the capture is kept, and the diff image when there is one.
/// - A comparison error: `Error`; the capture is kept for inspection.
pub fn classify(id: &str, compared: Option<Result<CompareResult, CompareError>>, threshold: Threshold) -> (r: Verdict)
    requires
        threshold.wf(),
    ensures
        r.status.kind_of() == outcome_for(compared, threshold),
        ops_model(r.ops@) == plan_for(id@, compared, threshold),
        r.status matches SnapshotStatus::Fail { diff_pixels, total_pixels, dimension_mismatch }
            ==> compared matches Some(Ok(res)) && diff_pixels == res.diff_pixels && total_pixels
            == res.total_pixels && dimension_mismatch == res.dimension_mismatch,
        r.status matches SnapshotStatus::Error(m) ==> compared matches Some(Err(e)) && m@
            == e.text(),
{
    match compared {
        None => {
            let ops = vec![op(OpKind::Write, Tree::Current, id)];
            assert(ops_model(ops@) =~= plan_for(id@, compared, threshold));
            Verdict { status: SnapshotStatus::New, ops }
        },
        Some(Err(e)) => {
            let ops = vec![op(OpKind::Write, Tree::Current, id)];
            assert(ops_model(ops@) =~= plan_for(id@, compared, threshold));
            Verdict { status: SnapshotStatus::Error(e.message()), ops }
        },
        Some(Ok(res)) => {
            if passes(&res, threshold) {
                Verdict { status: SnapshotStatus::Pass, ops: clean_output(id) }
            } else {
                let mut ops = vec![op(OpKind::Write, Tree::Current, id)];
                if res.has_diff_image {
                    ops.push(op(OpKind::Write, Tree::Difference, id));
                }
                assert(ops_model(ops@) =~= plan_for(id@, compared, threshold));
                Verdict {
                    status: SnapshotStatus::Fail {
                        diff_pixels: res.diff_pixels,
                        total_pixels: res.total_pixels,
                        dimension_mismatch: res.dimension_mismatch,
                    },
                    ops,
                }
            }
        },
    }
}

/// Counts of classified outcomes in a run, as plain numbers.
pub struct Counts {
    pub passed: nat,
    pub failed: nat,
    pub new: nat,
    pub errored: nat,
}

/// The counts after one more outcome.
pub open spec fn count_step(c: Counts, k: OutcomeKind) -> Counts {
    match k {
        OutcomeKind::Pass => Counts { passed: c.passed + 1, ..c },
        OutcomeKind::Fail => Counts { failed: c.failed + 1, ..c },
        OutcomeKind::New => Counts { new: c.new + 1, ..c },
        OutcomeKind::Error => Counts { errored: c.errored + 1, ..c },
    }
}

/// The counts of a sequence of outcomes.
pub open spec fn counts_of(ks: Seq<OutcomeKind>) -> Counts
    decreases ks.len(),
{
    if ks.len() == 0 {
        Counts { passed: 0, failed: 0, new: 0, errored: 0 }
    } else {
        count_step(counts_of(ks.drop_last()), ks.last())
    }
}

/// The sum of the four counts.
pub open spec fn counted(c: Counts) -> nat {
    c.passed + c.failed + c.new + c.errored
}

/// Running counters of a test run.
pub struct Tally {
    pub passed: usize,
    pub failed: usize,
    pub new: usize,
    pub errored: usize,
}

impl Tally {
    /// The counters as plain numbers.
    pub open spec fn counts(&self) -> Counts {
        Counts {
            passed: self.passed as nat,
            failed: self.failed as nat,
            new: self.new as nat,
            errored: self.errored as nat,
        }
    }

    /// All counters at zero.
    pub fn new() -> (r: Tally)
        ensures
            r.counts() == counts_of(Seq::empty()),
    {
        Tally { passed: 0, failed: 0, new: 0, errored: 0 }
    }

    /// Count one more outcome. A capture that failed counts as an error.
    pub fn record(&mut self, kind: OutcomeKind)
        requires
            counted(old(self).counts()) < usize::MAX,
        ensures
            final(self).counts() == count_step(old(self).counts(), kind),
    {
        match kind {
            OutcomeKind::Pass => self.passed = self.passed + 1,
            OutcomeKind::Fail => self.failed = self.failed + 1,
            OutcomeKind::New => self.new = self.new + 1,
            OutcomeKind::Error => self.errored = self.errored + 1,
        }
    }

    /// The number of outcomes counted.
    pub fn total(&self) -> (r: usize)
        requires
            counted(self.counts()) <= usize::MAX,
        ensures
            r == counted(self.counts()),
    {
        self.passed + self.failed + self.new + self.errored
    }

    /// Exit code of a test run: 0 when nothing failed, was new or errored;
    /// orphaned references do not count.
    pub fn exit_code(&self) -> (r: i32)
        ensures
            r == (if self.failed == 0 && self.new == 0 && self.errored == 0 {
                0i32
            } else {
                1i32
            }),
    {
        if self.failed == 0 && self.new == 0 && self.errored == 0 {
            0
        } else {
            1
        }
    }
}

/// Every outcome of a run is counted exactly once:
/// `pass + fail + new + error` equals the number of outcomes.
pub proof fn lemma_counts_cover_outcomes(ks: Seq<OutcomeKind>)
    ensures
        counted(counts_of(ks)) == ks.len(),
    decreases ks.len(),
{
    if ks.len() > 0 {
        lemma_counts_cover_outcomes(ks.drop_last());
    }
}

/// A passing classification leaves neither a current blob nor a diff image
/// for its id, and leaves the reference as it was.
pub proof fn lemma_pass_clears_outputs(
    s: Snapshots,
    id: Seq<char>,
    compared: Option<Result<CompareResult, CompareError>>,
    t: Threshold,
    p: Payload,
)
    requires
        outcome_for(compared, t) == OutcomeKind::Pass,
    ensures
        !has_difference_in(apply_ops(s, plan_for(id, compared, t), p), id),
        !apply_ops(s, plan_for(id, compared, t), p).current.contains_key(id),
        apply_ops(s, plan_for(id, compared, t), p).reference == s.reference,
{
    crate::store::lemma_clean_output_clears(s, id, p);
}

/// After the current blob of an id is approved as its reference, a new
/// capture with the same bytes takes the byte-identical path and passes.
pub proof fn lemma_rerun_after_approve_passes(
    s: Snapshots,
    id: Seq<char>,
    p: Payload,
    r: Result<Prepared, CompareError>,
    t: Threshold,
)
    requires
        prepared_ok(apply_ops(s, reference_write_plan(id), p).reference[id], p.reference, r),
    ensures
        r matches Ok(Prepared::Identical),
        outcome_for(
            Some(
                Ok(
                    CompareResult {
                        is_match: true,
                        diff_pixels: 0,
                        total_pixels: 0,
                        has_diff_image: false,
                        dimension_mismatch: None,
                    },
                ),
            ),
            t,
        ) == OutcomeKind::Pass,
{
    crate::store::lemma_reference_write_clears_outputs(s, id, p);
}

/// The views of a list of strings.
pub open spec fn views(v: Seq<String>) -> Seq<Seq<char>> {
    v.map_values(|s: String| s@)
}

/// Whether `id` is among `ids`.
pub fn contains_id(ids: &Vec<String>, id: &String) -> (r: bool)
    ensures
        r == views(ids@).contains(id@),
{
    let mut i: usize = 0;
    while i < ids.len()
        invariant
            i <= ids.len(),
            forall|k: int| 0 <= k < i ==> #[trigger] ids@[k]@ != id@,
        decreases ids.len() - i,
    {
        if ids[i] == *id {
            assert(views(ids@)[i as int] == id@);
            return true;
        }
        i += 1;
    }
    assert(!views(ids@).contains(id@)) by {
        if views(ids@).contains(id@) {
            let k = choose|k: int| 0 <= k < views(ids@).len() && views(ids@)[k] == id@;
            assert(ids@[k]@ == id@);
        }
    }
    false
}

/// The predicate "not among `ids`".
pub open spec fn not_in(ids: Seq<Seq<char>>) -> spec_fn(Seq<char>) -> bool {
    |x: Seq<char>| !ids.contains(x)
}

/// Orphaned references: the reference ids that no planned job produces, in
/// the order of `reference_ids`.
pub fn orphans(reference_ids: &Vec<String>, planned_ids: &Vec<String>) -> (r: Vec<String>)
    ensures
        views(r@) == views(reference_ids@).filter(not_in(views(planned_ids@))),
{
    let mut r: Vec<String> = Vec::new();
    let mut i: usize = 0;
    while i < reference_ids.len()
        invariant
            i <= reference_ids.len(),
            views(r@) == views(reference_ids@).take(i as int).filter(not_in(views(planned_ids@))),
        decreases reference_ids.len() - i,
    {
        let ghost keep = not_in(views(planned_ids@));
        assert(views(reference_ids@).take(i + 1) == views(reference_ids@).take(i as int).push(
            reference_ids@[i as int]@,
        ));
        reveal(Seq::filter);
        let ghost t1 = views(reference_ids@).take(i + 1);
        assert(t1.drop_last() =~= views(reference_ids@).take(i as int));
        assert(t1.last() == reference_ids@[i as int]@);
        if !contains_id(planned_ids, &reference_ids[i]) {
            assert(keep(t1.last()));
            assert(t1.filter(keep) == views(reference_ids@).take(i as int).filter(keep).push(
                t1.last(),
            ));
            r.push(reference_ids[i].clone());
            assert(views(r@) =~= t1.filter(keep));
        } else {
            assert(!keep(t1.last()));
            assert(t1.filter(keep) == views(reference_ids@).take(i as int).filter(keep));
        }
        i += 1;
    }
    assert(views(reference_ids@).take(reference_ids.len() as int) == views(reference_ids@));
    r
}

} // verus!
