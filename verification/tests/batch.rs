use triangle_origin::batch::classify_batch;
use triangle_origin::batch::count_containing;
use triangle_origin::batch::run_batch;
use triangle_origin::classify::ClassifyError;
use triangle_origin::geometry::Triangle;

fn example_a() -> Triangle {
    Triangle::new_from_ints(-340, 495, -153, -910, 835, -947)
}

fn example_b() -> Triangle {
    Triangle::new_from_ints(-175, 41, -421, -714, 574, -645)
}

#[test]
fn two_record_batch_counts_one() {
    let batch = vec![example_a(), example_b()];
    assert_eq!(count_containing(&batch), 1);
}

#[test]
fn empty_batch_counts_zero() {
    let batch: Vec<Triangle> = Vec::new();
    assert_eq!(count_containing(&batch), 0);
    let report = run_batch(&batch);
    assert_eq!(report.contained, 0);
    assert!(report.errors.is_empty());
}

#[test]
fn degenerate_record_does_not_abort_batch() {
    let batch = vec![example_a(), Triangle::new_from_ints(0, 0, 1, 1, 2, 2), example_b()];
    let report = run_batch(&batch);
    assert_eq!(report.contained, 1);
    assert_eq!(report.errors, vec![(1usize, ClassifyError::Degenerate)]);
    assert_eq!(count_containing(&batch), 1);
}

#[test]
fn errors_recorded_against_their_indices() {
    let batch = vec![
        Triangle::new_from_ints(1001, 0, 1, 1, 2, 5),
        example_a(),
        Triangle::new_from_ints(3, 3, 6, 6, 9, 9),
    ];
    let report = run_batch(&batch);
    assert_eq!(report.contained, 1);
    assert_eq!(
        report.errors,
        vec![(0usize, ClassifyError::OutOfRange), (2usize, ClassifyError::Degenerate)]
    );
}

#[test]
fn classify_batch_surfaces_each_verdict() {
    let batch = vec![example_a(), example_b(), Triangle::new_from_ints(0, 0, 1, 1, 2, 2)];
    let verdicts = classify_batch(&batch);
    assert_eq!(verdicts, vec![Ok(true), Ok(false), Err(ClassifyError::Degenerate)]);
}
