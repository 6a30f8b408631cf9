//! Weighted total-PP aggregation, exercised on concrete values. PP values
//! are in hundredths of a point; totals are scaled by `WEIGHT_SCALE`.

use pp_gain::weighting::{
    collect_present, project_gain, sort_desc_vec, weighted_total, WEIGHT_SCALE,
};

const SCALE: u128 = WEIGHT_SCALE as u128;

#[test]
fn empty_list_totals_zero() {
    assert_eq!(weighted_total(&vec![]), 0);
}

#[test]
fn single_value_keeps_full_weight() {
    // 100.00 pp at rank 0 is weighted by 0.95^0 = 1.
    assert_eq!(weighted_total(&vec![10_000]), 10_000 * SCALE);
}

#[test]
fn three_values_decay_geometrically() {
    // 250 + 200 * 0.95 + 150 * 0.9025 = 575.375 pp.
    let pps = vec![25_000u64, 20_000, 15_000];
    assert_eq!(weighted_total(&pps), 57_537_500_000_000_000);
}

#[test]
fn input_order_does_not_matter() {
    let a = vec![25_000u64, 20_000, 15_000];
    let b = vec![15_000u64, 25_000, 20_000];
    let c = vec![20_000u64, 15_000, 25_000];
    assert_eq!(weighted_total(&a), weighted_total(&b));
    assert_eq!(weighted_total(&a), weighted_total(&c));
}

#[test]
fn duplicates_are_weighted_independently() {
    // 100 + 100 * 0.95 = 195 pp.
    let pps = vec![10_000u64, 10_000];
    assert_eq!(weighted_total(&pps), 19_500_000_000_000_000);
}

#[test]
fn reducing_one_value_never_raises_the_total() {
    let full = vec![50_000u64, 40_000, 30_000];
    let reduced = vec![50_000u64, 35_000, 30_000];
    assert!(weighted_total(&reduced) < weighted_total(&full));
}

#[test]
fn only_the_top_hundred_count() {
    // 150 distinct descending values: the total depends on the top 100.
    let mut long: Vec<u64> = Vec::new();
    for i in 0..150u64 {
        long.push(100_000 - 100 * i);
    }
    let top: Vec<u64> = long[..100].to_vec();
    assert_eq!(weighted_total(&long), weighted_total(&top));

    // Appending values at or below the rank-100 entry changes nothing.
    let mut extended = long.clone();
    extended.push(1);
    extended.push(1);
    extended.push(2);
    assert_eq!(weighted_total(&extended), weighted_total(&long));
}

#[test]
fn projected_gain_for_a_new_best_play() {
    // History 250, 200, 150 pp; new play 300 pp.
    // Old total: 250 + 190 + 135.375 = 575.375 pp.
    // New list 300, 250, 200, 150: 300 + 237.5 + 180.5 + 128.60625 pp.
    let history = vec![25_000u64, 20_000, 15_000];
    let g = project_gain(&history, 30_000);
    assert_eq!(g.old_total, 57_537_500_000_000_000);
    assert_eq!(g.new_total, 84_660_625_000_000_000);
    assert_eq!(g.gain, 27_123_125_000_000_000);
}

#[test]
fn projected_gain_on_empty_history() {
    // Old total 0; the new play carries full weight.
    let g = project_gain(&vec![], 10_000);
    assert_eq!(g.old_total, 0);
    assert_eq!(g.new_total, 10_000 * SCALE);
    assert_eq!(g.gain, 10_000 * SCALE);
}

#[test]
fn gain_is_positive_above_the_current_maximum() {
    let history = vec![25_000u64, 20_000];
    let g = project_gain(&history, 26_000);
    assert!(g.gain > 0);
}

#[test]
fn inserting_zero_gains_nothing() {
    let history = vec![25_000u64, 20_000];
    let g = project_gain(&history, 0);
    assert_eq!(g.gain, 0);
    assert_eq!(g.new_total, g.old_total);
}

#[test]
fn sorting_is_descending() {
    let v = vec![100u64, 300, 200, 300];
    let sorted = sort_desc_vec(&v);
    assert_eq!(sorted, vec![300u64, 300, 200, 100]);
}

#[test]
fn absent_pp_values_are_dropped() {
    let scores = vec![Some(10_000u64), None, Some(5_000), None];
    assert_eq!(collect_present(&scores), vec![10_000u64, 5_000]);
}
