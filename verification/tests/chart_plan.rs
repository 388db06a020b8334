use quotail::data::types::DisplaySpan;
use quotail::ui::chart::{bucket_ranges, plan_columns, visible_indices, window_start_ts};

#[test]
fn plans_ohlc_buckets_exactly() {
    // Six candles over three columns: two candles a column, in order.
    let ts: Vec<i64> = vec![1, 2, 3, 4, 5, 6];
    let plan = plan_columns(&ts, DisplaySpan::Max, 3);
    assert_eq!(plan.visible, vec![0, 1, 2, 3, 4, 5]);
    assert_eq!(plan.buckets, vec![Some((0, 2)), Some((2, 4)), Some((4, 6))]);
}

#[test]
fn plans_visible_window_by_timestamp() {
    let day: i64 = 86_400;
    let base: i64 = 1_000_000;
    let ts: Vec<i64> = (0..5).map(|i| base + i * day).collect();
    let plan = plan_columns(&ts, DisplaySpan::Last(2 * day), 3);
    // The last two days reach back to the third candle; one candle a column.
    assert_eq!(plan.visible, vec![2, 3, 4]);
    assert_eq!(plan.buckets, vec![Some((0, 1)), Some((1, 2)), Some((2, 3))]);
}

#[test]
fn samples_indicators_at_bucket_last_index() {
    let ts: Vec<i64> = (0..6).collect();
    let ma50 = [None, None, Some(1.0), Some(2.0), Some(3.0), Some(4.0)];
    let plan = plan_columns(&ts, DisplaySpan::Max, 3);
    let sampled: Vec<Option<f64>> = plan
        .buckets
        .iter()
        .map(|b| b.and_then(|(_, hi)| ma50[plan.visible[hi - 1]]))
        .collect();
    assert_eq!(sampled[0], None);
    assert_eq!(sampled[1], Some(2.0));
    assert_eq!(sampled[2], Some(4.0));
}

#[test]
fn plans_edge_cases() {
    assert!(plan_columns(&vec![], DisplaySpan::Max, 0).buckets.is_empty());
    let plan = plan_columns(&vec![], DisplaySpan::Max, 4);
    assert_eq!(plan.buckets, vec![None, None, None, None]);
    let plan = plan_columns(&vec![1, 2], DisplaySpan::Max, 5);
    assert_eq!(plan.buckets.iter().filter(|c| c.is_some()).count(), 2);
    let mut seen: Vec<usize> = Vec::new();
    for (lo, hi) in plan.buckets.iter().flatten() {
        seen.extend(*lo..*hi);
    }
    assert_eq!(seen, vec![0, 1]);
}

#[test]
fn window_start_follows_the_span() {
    let ts = vec![100, 200, 300];
    assert_eq!(window_start_ts(&ts, DisplaySpan::Max), 100);
    assert_eq!(window_start_ts(&ts, DisplaySpan::Last(150)), 150);
    assert_eq!(window_start_ts(&vec![], DisplaySpan::Max), 0);
    // 2024-03-01T00:00:00Z lies in 2024, whose first second is 1704067200.
    assert_eq!(window_start_ts(&vec![1709251200], DisplaySpan::Ytd), 1704067200);
    assert_eq!(visible_indices(&ts, 150), vec![1, 2]);
    assert_eq!(visible_indices(&ts, 301), Vec::<usize>::new());
}

#[test]
fn buckets_tile_in_order() {
    assert_eq!(bucket_ranges(6, 3), vec![Some((0, 2)), Some((2, 4)), Some((4, 6))]);
    assert_eq!(bucket_ranges(7, 3), vec![Some((0, 2)), Some((2, 4)), Some((4, 7))]);
    assert_eq!(bucket_ranges(2, 4), vec![None, Some((0, 1)), None, Some((1, 2))]);
    assert_eq!(bucket_ranges(0, 2), vec![None, None]);
}
