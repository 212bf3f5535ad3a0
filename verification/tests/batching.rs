use hue_sweep::batch::{artifact_name, summarize, FrameOutcome};
use hue_sweep::plan::plan_sweep;

fn name(angle: u16) -> String {
    String::from_utf8(artifact_name(angle)).unwrap()
}

#[test]
fn artifact_names_are_deterministic() {
    assert_eq!(name(0), "far-nearer-0.png");
    assert_eq!(name(10), "far-nearer-10.png");
    assert_eq!(name(350), "far-nearer-350.png");
}

#[test]
fn one_distinct_name_per_sweep_angle() {
    let angles = plan_sweep(10, 360);
    let mut names: Vec<String> = angles.iter().map(|a| name(*a)).collect();
    assert_eq!(names.len(), 36);
    names.sort();
    names.dedup();
    assert_eq!(names.len(), 36);
}

#[test]
fn summary_of_all_written_is_success() {
    let outcomes = vec![FrameOutcome::Written; 36];
    let report = summarize(&outcomes);
    assert_eq!(report.attempted, 36);
    assert_eq!(report.failed, 0);
}

#[test]
fn one_failed_frame_leaves_the_rest_counted() {
    let mut outcomes = vec![FrameOutcome::Written; 36];
    outcomes[17] = FrameOutcome::ParseFailed;
    let report = summarize(&outcomes);
    assert_eq!(report.attempted, 36);
    assert_eq!(report.failed, 1);
}

#[test]
fn every_failure_kind_is_counted() {
    let outcomes = vec![
        FrameOutcome::ParseFailed,
        FrameOutcome::Written,
        FrameOutcome::RenderFailed,
        FrameOutcome::WriteFailed,
    ];
    let report = summarize(&outcomes);
    assert_eq!(report.attempted, 4);
    assert_eq!(report.failed, 3);
}

#[test]
fn empty_batch_summary() {
    let report = summarize(&Vec::new());
    assert_eq!(report.attempted, 0);
    assert_eq!(report.failed, 0);
}
