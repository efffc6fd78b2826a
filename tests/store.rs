use snapvrt::approve::{select_for_approval, PendingKind};
use snapvrt::compare::{identical_result, prepare_compare, CompareError, CompareResult, Prepared};
use snapvrt::driver::{classify, orphans, OutcomeKind, SnapshotStatus, Tally, Threshold};
use snapvrt::store::{clean_output, clean_output_files, file_path, write_reference, OpKind, StoreOp, Tree};

fn ops(v: &[StoreOp]) -> Vec<(OpKind, Tree, String)> {
    v.iter().map(|o| (o.kind, o.tree, o.id.clone())).collect()
}

fn result(diff: u64, total: u64) -> CompareResult {
    CompareResult {
        is_match: diff == 0,
        diff_pixels: diff,
        total_pixels: total,
        has_diff_image: true,
        dimension_mismatch: None,
    }
}

#[test]
fn reference_write_clears_outputs() {
    assert_eq!(
        ops(&write_reference("s/v/t/n")),
        vec![
            (OpKind::Write, Tree::Reference, "s/v/t/n".to_string()),
            (OpKind::Remove, Tree::Current, "s/v/t/n".to_string()),
            (OpKind::Remove, Tree::Difference, "s/v/t/n".to_string()),
        ]
    );
}

#[test]
fn clean_plans() {
    assert_eq!(
        ops(&clean_output("a")),
        vec![(OpKind::Remove, Tree::Current, "a".to_string()), (OpKind::Remove, Tree::Difference, "a".to_string())]
    );
    let ids = vec!["a".to_string(), "b".to_string()];
    assert_eq!(ops(&clean_output_files(&ids)).len(), 4);
    assert_eq!(ops(&clean_output_files(&ids))[2], (OpKind::Remove, Tree::Current, "b".to_string()));
}

#[test]
fn blob_paths() {
    assert_eq!(file_path(Tree::Reference, "sb/laptop/A/b"), ".snapvrt/reference/sb/laptop/A/b.png");
    assert_eq!(file_path(Tree::Difference, "x"), ".snapvrt/difference/x.png");
}

#[test]
fn byte_identical_passes_and_cleans() {
    let v = classify("id", Some(Ok(identical_result())), Threshold::zero());
    assert!(matches!(v.status, SnapshotStatus::Pass));
    assert_eq!(ops(&v.ops), vec![(OpKind::Remove, Tree::Current, "id".to_string()), (OpKind::Remove, Tree::Difference, "id".to_string())]);
}

#[test]
fn new_snapshot_keeps_current_only() {
    let v = classify("id", None, Threshold::zero());
    assert!(matches!(v.status, SnapshotStatus::New));
    assert_eq!(ops(&v.ops), vec![(OpKind::Write, Tree::Current, "id".to_string())]);
}

#[test]
fn failing_comparison_keeps_current_and_difference() {
    let v = classify("id", Some(Ok(result(20, 12000))), Threshold::zero());
    match v.status {
        SnapshotStatus::Fail { diff_pixels, total_pixels, .. } => {
            assert_eq!(diff_pixels, 20);
            assert_eq!(total_pixels, 12000);
        }
        _ => panic!("expected a failure"),
    }
    assert_eq!(ops(&v.ops), vec![(OpKind::Write, Tree::Current, "id".to_string()), (OpKind::Write, Tree::Difference, "id".to_string())]);
}

#[test]
fn score_within_threshold_passes() {
    let t = Threshold::new(1, 100).unwrap();
    assert!(matches!(classify("id", Some(Ok(result(120, 12000))), t).status, SnapshotStatus::Pass));
    assert!(matches!(classify("id", Some(Ok(result(121, 12000))), t).status, SnapshotStatus::Fail { .. }));
    assert!(Threshold::new(2, 1).is_none());
    assert!(Threshold::new(0, 0).is_none());
}

#[test]
fn comparison_error_keeps_current() {
    let v = classify("id", Some(Err(CompareError::DecodeCurrent)), Threshold::zero());
    match v.status {
        SnapshotStatus::Error(m) => assert_eq!(m, "Failed to decode current PNG"),
        _ => panic!("expected an error"),
    }
    assert_eq!(ops(&v.ops), vec![(OpKind::Write, Tree::Current, "id".to_string())]);
}

#[test]
fn tally_counts_every_outcome_once() {
    let mut t = Tally::new();
    for k in [OutcomeKind::Pass, OutcomeKind::Fail, OutcomeKind::New, OutcomeKind::Error, OutcomeKind::Pass] {
        t.record(k);
    }
    assert_eq!((t.passed, t.failed, t.new, t.errored), (2, 1, 1, 1));
    assert_eq!(t.total(), 5);
    assert_eq!(t.exit_code(), 1);
    let mut ok = Tally::new();
    ok.record(OutcomeKind::Pass);
    assert_eq!(ok.exit_code(), 0);
}

#[test]
fn orphans_are_unplanned_references() {
    let refs = vec!["a".to_string(), "b".to_string(), "c".to_string()];
    let planned = vec!["b".to_string(), "d".to_string()];
    assert_eq!(orphans(&refs, &planned), vec!["a".to_string(), "c".to_string()]);
    assert!(orphans(&vec![], &planned).is_empty());
}

#[test]
fn approval_selection_by_kind_and_pattern() {
    let ids = vec!["sb/laptop/A/one".to_string(), "sb/laptop/B/two".to_string(), "sb/mobile/A/one".to_string()];
    let diff = vec![true, false, false];
    let all = select_for_approval(&ids, &diff, None, false, false, false);
    assert_eq!(all.len(), 3);
    assert_eq!(all[0].1, PendingKind::Failed);
    let new_only = select_for_approval(&ids, &diff, None, true, false, false);
    assert_eq!(new_only.iter().map(|p| p.0.clone()).collect::<Vec<_>>(), vec![ids[1].clone(), ids[2].clone()]);
    let failed_only = select_for_approval(&ids, &diff, None, false, true, false);
    assert_eq!(failed_only.len(), 1);
    let overridden = select_for_approval(&ids, &diff, None, true, false, true);
    assert_eq!(overridden.len(), 3);
    let by_pattern = select_for_approval(&ids, &diff, Some("MOBILE/a/one.png"), false, false, false);
    assert_eq!(by_pattern.len(), 1);
    assert_eq!(by_pattern[0].0, "sb/mobile/A/one");
}

#[test]
fn rerun_after_approve_passes() {
    let approved = vec![137u8, 80, 78, 71, 1, 2, 3];
    let plan = ops(&write_reference("sb/laptop/A/one"));
    assert_eq!(plan[0], (OpKind::Write, Tree::Reference, "sb/laptop/A/one".to_string()));
    let recaptured = approved.clone();
    assert!(matches!(prepare_compare(&approved, &recaptured), Ok(Prepared::Identical)));
    let v = classify("sb/laptop/A/one", Some(Ok(identical_result())), Threshold::zero());
    assert!(matches!(v.status, SnapshotStatus::Pass));
}
