use shrink_ray::delta::Delta;
use shrink_ray::stats::Statistics;

#[test]
fn scenario_large_shrink() {
    let d = Delta::new(10_000_000, 6_000_000);
    assert_eq!(d.original, 10_000_000);
    assert_eq!(d.new, 6_000_000);
    assert!(d.is_smaller());
    assert_eq!(d.difference(), 4_000_000);
    let ratio = d.difference() as f64 / d.original as f64;
    assert_eq!(ratio, 0.4);
}

#[test]
fn difference_is_absolute() {
    let grew = Delta::new(3, 10);
    assert!(!grew.is_smaller());
    assert_eq!(grew.difference(), 7);
    let shrunk = Delta::new(10, 3);
    assert!(shrunk.is_smaller());
    assert_eq!(shrunk.difference(), 7);
}

#[test]
fn equal_sizes_count_as_smaller() {
    let d = Delta::new(5, 5);
    assert!(d.is_smaller());
    assert_eq!(d.difference(), 0);
}

#[test]
fn zero_original_degenerate() {
    let d = Delta::new(0, 4);
    assert!(!d.is_smaller());
    assert_eq!(d.difference(), 4);
}

#[test]
fn statistics_fold() {
    let mut s = Statistics::default();
    assert_eq!(s.shrunk_files(), 0);
    assert_eq!(s.grew_files(), 0);
    assert_eq!(s.skipped_files(), 0);
    assert_eq!(s.failed_files(), 0);

    s.shrink(Delta::new(100, 40));
    s.grow(Delta::new(10, 25));
    s.skip();
    s.fail();

    assert_eq!(s.shrunk_files(), 1);
    assert_eq!(s.grew_files(), 1);
    assert_eq!(s.skipped_files(), 1);
    assert_eq!(s.failed_files(), 1);
    assert_eq!(s.saved_bytes(), 60);
    assert_eq!(s.wasted_bytes(), 15);

    let total = s.delta();
    assert_eq!(total.original, 110);
    assert_eq!(total.new, 65);
    assert!(total.is_smaller());
}

#[test]
fn statistics_delta_when_everything_grew() {
    let mut s = Statistics::default();
    s.grow(Delta::new(4, 9));
    let total = s.delta();
    assert_eq!(total.original, 4);
    assert_eq!(total.new, 9);
    assert!(!total.is_smaller());
}
