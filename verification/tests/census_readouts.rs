use tender_supervisor::quantiles::{percentile, share_pct};

#[test]
fn percentiles_take_the_nearest_rank_below() {
    let v: Vec<u8> = vec![10, 20, 30, 40, 50];
    assert_eq!(percentile(&v, 25, 0), 20);
    assert_eq!(percentile(&v, 50, 0), 30);
    assert_eq!(percentile(&v, 90, 0), 40);
    assert_eq!(percentile(&v, 100, 0), 50);
    assert_eq!(percentile(&v, 0, 0), 10);
    assert_eq!(percentile(&Vec::<u32>::new(), 50, 0), 0);
    let lengths: Vec<u32> = (1..=200).collect();
    assert_eq!(percentile(&lengths, 99, 0), 198);
}

#[test]
fn a_share_of_nothing_is_zero() {
    assert_eq!(share_pct(3, 0), 0);
    assert_eq!(share_pct(1, 3), 33);
    assert_eq!(share_pct(7, 7), 100);
}
