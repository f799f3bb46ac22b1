use kp::compute::{
    compute_doc_trend_power, compute_judge_power, rate_against, update_comment_max, update_max,
    ATTEND_POWER_MAX, CONTENT_POWER_MAX, JUDGE_POWER_MAX, POWER_PRECISION,
};
use kp::types::{CommentMaxRecord, CommentTrend};

#[test]
fn first_value_normalizes_to_full_ratio() {
    let (rate, new_max, updated) = update_max(50, 0);
    assert_eq!(rate, POWER_PRECISION);
    assert_eq!(new_max, 50);
    assert!(updated);
}

#[test]
fn smaller_value_normalizes_proportionally() {
    let (rate, new_max, updated) = update_max(25, 50);
    assert_eq!(rate, 5000);
    assert_eq!(new_max, 50);
    assert!(!updated);
}

#[test]
fn zero_value_normalizes_to_zero() {
    let (rate, new_max, updated) = update_max(0, 50);
    assert_eq!(rate, 0);
    assert_eq!(new_max, 50);
    assert!(!updated);
    // the defined floor also applies when no maximum was recorded yet
    let (rate0, max0, upd0) = update_max(0, 0);
    assert_eq!(rate0, 0);
    assert_eq!(max0, 0);
    assert!(!upd0);
}

#[test]
fn larger_value_raises_maximum_and_scores_full() {
    let (rate, new_max, updated) = update_max(80, 50);
    assert_eq!(rate, POWER_PRECISION);
    assert_eq!(new_max, 80);
    assert!(updated);
}

#[test]
fn rate_truncates_toward_zero() {
    // 1 / 3 scaled by 10000 truncates to 3333
    assert_eq!(rate_against(1, 3), 3333);
    assert_eq!(rate_against(2, 3), 6666);
    assert_eq!(rate_against(3, 3), POWER_PRECISION);
}

#[test]
fn comment_max_fields_raise_independently() {
    let mut max = CommentMaxRecord { max_count: 2, max_fee: 40, max_positive: 1, max_unit_fee: 20 };
    let updated = update_comment_max(&mut max, 3, 30, 2, 10);
    assert!(updated);
    assert_eq!(max.max_count, 3);
    assert_eq!(max.max_fee, 40);
    assert_eq!(max.max_positive, 2);
    assert_eq!(max.max_unit_fee, 20);

    let unchanged = update_comment_max(&mut max, 1, 1, 1, 1);
    assert!(!unchanged);
    assert_eq!(max.max_count, 3);
    assert_eq!(max.max_fee, 40);
    assert_eq!(max.max_positive, 2);
    assert_eq!(max.max_unit_fee, 20);
}

#[test]
fn trend_table_values() {
    assert_eq!(compute_doc_trend_power(CommentTrend::Positive, CommentTrend::Positive), 10000);
    assert_eq!(compute_doc_trend_power(CommentTrend::Negative, CommentTrend::Negative), 0);
    assert_eq!(compute_doc_trend_power(CommentTrend::Empty, CommentTrend::Empty), 3750);
    assert_eq!(compute_doc_trend_power(CommentTrend::Positive, CommentTrend::Negative), 2500);
    assert_eq!(compute_doc_trend_power(CommentTrend::Positive, CommentTrend::Empty), 7500);
    assert_eq!(compute_doc_trend_power(CommentTrend::Empty, CommentTrend::Negative), 5000);
}

#[test]
fn trend_table_is_symmetric() {
    let all = [CommentTrend::Positive, CommentTrend::Negative, CommentTrend::Empty];
    for e in all {
        for p in all {
            assert_eq!(compute_doc_trend_power(e, p), compute_doc_trend_power(p, e));
        }
    }
}

#[test]
fn judge_power_scales_trend_by_both_weights() {
    // 0.375 * 15% * 15% scaled by 10000, truncated
    assert_eq!(compute_judge_power(3750, 15, 15), 84);
    // full agreement at full weights reaches the precision ceiling
    assert_eq!(compute_judge_power(10000, 100, 100), JUDGE_POWER_MAX);
    assert_eq!(compute_judge_power(0, 100, 100), 0);
}

#[test]
fn power_ceilings_are_consistent() {
    assert_eq!(CONTENT_POWER_MAX, 2 * POWER_PRECISION);
    assert_eq!(ATTEND_POWER_MAX, 4 * POWER_PRECISION);
    assert_eq!(JUDGE_POWER_MAX, POWER_PRECISION);
}
