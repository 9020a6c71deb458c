use rs_tools::ordering::{latest_rows_start, sorted_order};

#[test]
fn sorts_by_open_time() {
    let times = vec![30, 10, 20];
    assert_eq!(sorted_order(&times), vec![1, 2, 0]);
}

#[test]
fn equal_times_keep_input_order() {
    let times = vec![5, 3, 5, 3, 1];
    assert_eq!(sorted_order(&times), vec![4, 1, 3, 0, 2]);
}

#[test]
fn sorted_input_is_identity() {
    let times = vec![1, 2, 2, 7, 9];
    assert_eq!(sorted_order(&times), vec![0, 1, 2, 3, 4]);
    assert_eq!(sorted_order(&[]), Vec::<usize>::new());
}

#[test]
fn extreme_times() {
    let times = vec![i64::MAX, i64::MIN, 0];
    assert_eq!(sorted_order(&times), vec![1, 2, 0]);
}

#[test]
fn latest_rows_limit() {
    assert_eq!(latest_rows_start(10, Some(3)), 7);
    assert_eq!(latest_rows_start(10, Some(10)), 0);
    assert_eq!(latest_rows_start(10, Some(20)), 0);
    assert_eq!(latest_rows_start(10, None), 0);
    assert_eq!(latest_rows_start(10, Some(0)), 10);
}

#[test]
fn order_is_a_permutation_that_sorts() {
    let times = vec![9, -3, 9, 4, -3, 0, 12, 4];
    let order = sorted_order(&times);
    let mut seen = order.clone();
    seen.sort();
    assert_eq!(seen, (0..times.len()).collect::<Vec<_>>());
    for w in order.windows(2) {
        assert!(times[w[0]] < times[w[1]] || (times[w[0]] == times[w[1]] && w[0] < w[1]));
    }
}
