use weather::select::nearest;

#[test]
fn nearest_record_is_chosen_in_any_order() {
    let target: i64 = 1_700_000_000;
    let a = target + 500;
    let b = target - 50;
    let c = target + 4000;
    assert_eq!(nearest(&vec![a, b, c], target), Some(1));
    assert_eq!(nearest(&vec![b, a, c], target), Some(0));
    assert_eq!(nearest(&vec![c, a, b], target), Some(2));
    assert_eq!(nearest(&vec![a, c, b], target), Some(2));
    assert_eq!(nearest(&vec![b, c, a], target), Some(0));
    assert_eq!(nearest(&vec![c, b, a], target), Some(1));
}

#[test]
fn nothing_is_chosen_from_no_records() {
    assert_eq!(nearest(&Vec::new(), 0), None);
}

#[test]
fn of_equally_near_records_the_first_is_chosen() {
    assert_eq!(nearest(&vec![110, 90, 100, 100], 100), Some(2));
    assert_eq!(nearest(&vec![110, 90], 100), Some(0));
    assert_eq!(nearest(&vec![90, 110], 100), Some(0));
    assert_eq!(nearest(&vec![7], 100), Some(0));
}

#[test]
fn distances_do_not_overflow() {
    assert_eq!(nearest(&vec![i64::MAX, i64::MIN, 0], i64::MIN), Some(1));
    assert_eq!(nearest(&vec![i64::MIN, i64::MAX], i64::MAX), Some(1));
    assert_eq!(nearest(&vec![i64::MIN, i64::MAX], -1), Some(0));
    assert_eq!(nearest(&vec![i64::MIN, i64::MAX], 0), Some(1));
}
