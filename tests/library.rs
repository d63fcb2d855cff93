use filebench::affinity::{pin_outcome, plan_pin, PinWarning};
use filebench::audit::{bytes_equal, expected_after_delete, expected_after_write, first_mismatch};
use filebench::batch::{continues_after, policy_of, summarize, BatchReport, ItemStatus, Policy};
use filebench::decimal::decimal_string;
use filebench::mapped::{overwrite_mapped, plan_update, RegionTooShort, UpdatePlan};
use filebench::timing::{phase_line, total_line, PhaseTimes};
use filebench::workload::{file_name, file_names, greeting, update_text, Strategy};
use memmap2::MmapMut;

#[test]
fn decimal_of_small_and_large_numbers() {
    assert_eq!(decimal_string(0), "0");
    assert_eq!(decimal_string(7), "7");
    assert_eq!(decimal_string(10), "10");
    assert_eq!(decimal_string(9999), "9999");
    assert_eq!(decimal_string(u128::MAX), u128::MAX.to_string());
}

#[test]
fn file_names_follow_pattern() {
    assert_eq!(file_name(0), "file_0.txt");
    assert_eq!(file_name(4), "file_4.txt");
    assert_eq!(file_name(12345), "file_12345.txt");
    assert_eq!(file_names(3), vec!["file_0.txt", "file_1.txt", "file_2.txt"]);
    assert!(file_names(0).is_empty());
}

#[test]
fn file_names_are_distinct() {
    let names = file_names(1000);
    let mut sorted = names.clone();
    sorted.sort();
    sorted.dedup();
    assert_eq!(sorted.len(), 1000);
}

#[test]
fn per_file_texts() {
    assert_eq!(greeting(3), "Hello from file 3!");
    assert_eq!(update_text(3), "This is updated content for file 3!");
    assert_eq!(greeting(10000), "Hello from file 10000!");
}

#[test]
fn update_plan_grows_only_short_files() {
    assert_eq!(plan_update(0, 85), UpdatePlan::Grow(85));
    assert_eq!(plan_update(84, 85), UpdatePlan::Grow(85));
    assert_eq!(plan_update(85, 85), UpdatePlan::InPlace);
    assert_eq!(plan_update(200, 85), UpdatePlan::InPlace);
}

#[test]
fn overwrite_mapped_region_of_equal_length() {
    let mut m = MmapMut::map_anon(15).unwrap();
    m.copy_from_slice(b"Initial content");
    assert_eq!(overwrite_mapped(&mut m, b"Updated content"), Ok(()));
    assert_eq!(&m[..], b"Updated content");
}

#[test]
fn overwrite_mapped_keeps_tail() {
    let mut m = MmapMut::map_anon(10).unwrap();
    m.copy_from_slice(b"0123456789");
    assert_eq!(overwrite_mapped(&mut m, b"abc"), Ok(()));
    assert_eq!(&m[..], b"abc3456789");
}

#[test]
fn overwrite_mapped_rejects_short_region() {
    let mut m = MmapMut::map_anon(4).unwrap();
    m.copy_from_slice(b"wxyz");
    assert_eq!(
        overwrite_mapped(&mut m, b"too long"),
        Err(RegionTooShort { region_len: 4, content_len: 8 })
    );
    assert_eq!(&m[..], b"wxyz");
}

#[test]
fn summary_of_complete_batch() {
    let all = vec![ItemStatus::Done; 5];
    assert_eq!(summarize(&all), BatchReport::Complete(5));
    assert_eq!(summarize(&Vec::new()), BatchReport::Complete(0));
}

#[test]
fn summary_reports_first_failure_and_gaps() {
    let s = vec![
        ItemStatus::Done,
        ItemStatus::NotRun,
        ItemStatus::Failed(13),
        ItemStatus::Failed(2),
        ItemStatus::NotRun,
    ];
    assert_eq!(
        summarize(&s),
        BatchReport::Incomplete { first_failure: Some((2, 13)), failed: 2, skipped: 2 }
    );
}

#[test]
fn summary_never_hides_skipped_items() {
    let s = vec![ItemStatus::Done, ItemStatus::NotRun, ItemStatus::Done];
    assert_eq!(
        summarize(&s),
        BatchReport::Incomplete { first_failure: None, failed: 0, skipped: 1 }
    );
}

#[test]
fn policies_decide_whether_to_go_on() {
    assert_eq!(policy_of(Strategy::Buffered), Policy::FailFast);
    assert_eq!(policy_of(Strategy::MappedUpdate), Policy::FailFast);
    assert_eq!(policy_of(Strategy::Sequential), Policy::KeepGoing);
    assert!(continues_after(Policy::FailFast, ItemStatus::Done));
    assert!(!continues_after(Policy::FailFast, ItemStatus::Failed(5)));
    assert!(continues_after(Policy::KeepGoing, ItemStatus::Failed(5)));
}

#[test]
fn total_time_and_overflow() {
    let t = PhaseTimes { create: 120, read: 30, update: 45, delete: 5 };
    assert_eq!(t.total(), Some(200));
    assert_eq!(total_line(&t), Some("Total: 200 ms".to_string()));
    let big = PhaseTimes { create: u128::MAX, read: 1, update: 0, delete: 0 };
    assert_eq!(big.total(), None);
    assert_eq!(total_line(&big), None);
}

#[test]
fn phase_lines_name_the_strategy() {
    let t = PhaseTimes { create: 120, read: 30, update: 45, delete: 5 };
    assert_eq!(
        phase_line(Strategy::Buffered, &t),
        "Traditional times (ms): Create: 120, Read: 30, Update: 45, Delete: 5"
    );
    assert_eq!(
        phase_line(Strategy::MappedUpdate, &t),
        "Smart times (ms): Create: 120, Read: 30, Update: 45, Delete: 5"
    );
}

#[test]
fn pin_planning() {
    assert_eq!(plan_pin(3, true, 1024), Ok(()));
    assert_eq!(plan_pin(3, false, 1024), Err(PinWarning::Unsupported));
    assert_eq!(
        plan_pin(1024, true, 1024),
        Err(PinWarning::CoreOutOfRange { core: 1024, capacity: 1024 })
    );
    assert_eq!(pin_outcome(2, 0, 0), Ok(()));
    assert_eq!(pin_outcome(2, -1, 22), Err(PinWarning::Refused { core: 2, code: 22 }));
}

#[test]
fn audit_accepts_matching_snapshot() {
    let found = vec![Some(b"abc".to_vec()), None, Some(Vec::new())];
    assert_eq!(first_mismatch(&found, &found.clone()), None);
    assert_eq!(first_mismatch(&Vec::new(), &Vec::new()), None);
}

#[test]
fn audit_finds_first_difference() {
    let found = vec![Some(b"abc".to_vec()), Some(b"abd".to_vec()), None];
    let expected = vec![Some(b"abc".to_vec()), Some(b"abc".to_vec()), Some(b"x".to_vec())];
    assert_eq!(first_mismatch(&found, &expected), Some(1));
    let missing = vec![Some(b"abc".to_vec()), None];
    assert_eq!(first_mismatch(&missing, &expected[..2].to_vec()), Some(1));
}

#[test]
fn audit_flags_length_difference() {
    let a = vec![None, None];
    let b = vec![None, None, None];
    assert_eq!(first_mismatch(&a, &b), Some(2));
    assert_eq!(first_mismatch(&b, &a), Some(2));
    assert!(bytes_equal(b"same", b"same"));
    assert!(!bytes_equal(b"same", b"sane"));
    assert!(!bytes_equal(b"same", b"sam"));
}

#[test]
fn expected_snapshots() {
    let payload = b"Initial content".to_vec();
    let created = expected_after_write(5, &payload);
    assert_eq!(created, vec![Some(payload.clone()); 5]);
    assert!(expected_after_write(0, &payload).is_empty());
    assert_eq!(expected_after_delete(5), vec![None; 5]);
    assert_eq!(first_mismatch(&expected_after_delete(5), &created), Some(0));
}
