use segdisplay::LoadingStatus;

#[test]
fn starts_not_done_and_counts_to_done() {
    let mut status = LoadingStatus::with_total(3);
    assert!(!status.done());
    status.increment();
    assert!(!status.done());
    status.increment();
    status.increment();
    assert!(status.done());
}

#[test]
fn zero_total_is_immediately_done() {
    let status = LoadingStatus::with_total(0);
    assert!(status.done());
}
