//! Fixed-point scoring arithmetic.
//!
//! Every raw metric is normalized against a running maximum into a rate
//! scaled by [`POWER_PRECISION`] (so `POWER_PRECISION` stands for the ratio
//! `1.0`), and the weighted formulas combine such rates with percent
//! weights, truncating exactly once at the end.  Working purely on
//! integers keeps every replica's result bit-identical.

use crate::types::{CommentMaxRecord, CommentTrend, WeightConfig};
use vstd::arithmetic::div_mod::{lemma_div_is_ordered, lemma_div_multiples_vanish};
use vstd::arithmetic::mul::lemma_mul_upper_bound;
use vstd::prelude::*;

verus! {

/// Scale of a normalized rate: a rate of `POWER_PRECISION` is the ratio `1.0`.
pub const POWER_PRECISION: u64 = 10000;

/// Divisor of the weighted-rate formulas: one factor of `100` for the
/// per-rate weights, one for the secondary weight, one for the top weight.
pub const CONTENT_DENOM: u64 = 100 * 100 * 100;

/// Divisor of the judge formula: one factor of `100` for the document
/// judge weight and one for the top weight.
pub const JUDGE_DENOM: u64 = 100 * 100;

/// Largest value a two-rate content power can take.
pub const CONTENT_POWER_MAX: u64 = 20000;

/// Largest value a four-rate attend power can take.
pub const ATTEND_POWER_MAX: u64 = 40000;

/// Largest value a judge power can take.
pub const JUDGE_POWER_MAX: u64 = 10000;

/// The running maximum after seeing `value`.
pub open spec fn raised_max(value: u64, current: u64) -> u64 {
    if value > current {
        value
    } else {
        current
    }
}

/// `value` as a fraction of `bound`, scaled by [`POWER_PRECISION`] and
/// truncated; zero values normalize to zero whatever the bound.
pub open spec fn scaled_rate(value: u64, bound: u64) -> int {
    if value == 0 {
        0
    } else {
        value * POWER_PRECISION / bound as int
    }
}

/// Normalized rate of `value` against the maximum raised by `value` itself,
/// so a new maximum always normalizes to the full ratio.
pub open spec fn norm_rate(value: u64, current: u64) -> int {
    scaled_rate(value, raised_max(value, current))
}

/// Weighted sum of two scaled rates, scaled by a secondary and a top
/// percent weight, truncated once.
pub open spec fn two_rate_power(r1: int, w1: int, r2: int, w2: int, second: int, top: int) -> int {
    (r1 * w1 + r2 * w2) * second * top / CONTENT_DENOM as int
}

/// Weighted sum of four scaled rates, scaled by a secondary and a top
/// percent weight, truncated once.
pub open spec fn four_rate_power(
    r1: int,
    w1: int,
    r2: int,
    w2: int,
    r3: int,
    w3: int,
    r4: int,
    w4: int,
    second: int,
    top: int,
) -> int {
    (r1 * w1 + r2 * w2 + r3 * w3 + r4 * w4) * second * top / CONTENT_DENOM as int
}

/// A trend agreement value scaled by the judge and top percent weights.
pub open spec fn judge_power_value(trend: int, judge_weight: int, top: int) -> int {
    trend * judge_weight * top / JUDGE_DENOM as int
}

/// Agreement score of the two trend slots, scaled by [`POWER_PRECISION`]:
/// `10000` stands for `1.0`, `2500` for `0.25`, and so on.
pub open spec fn trend_weight(expert: CommentTrend, platform: CommentTrend) -> u64 {
    match (expert, platform) {
        (CommentTrend::Positive, CommentTrend::Positive) => 10000,
        (CommentTrend::Negative, CommentTrend::Negative) => 0,
        (CommentTrend::Empty, CommentTrend::Empty) => 3750,
        (CommentTrend::Positive, CommentTrend::Negative) => 2500,
        (CommentTrend::Negative, CommentTrend::Positive) => 2500,
        (CommentTrend::Positive, CommentTrend::Empty) => 7500,
        (CommentTrend::Empty, CommentTrend::Positive) => 7500,
        (CommentTrend::Negative, CommentTrend::Empty) => 5000,
        (CommentTrend::Empty, CommentTrend::Negative) => 5000,
    }
}

/// `value` scaled into `0 ..= POWER_PRECISION` against a bound at least as
/// large.
pub fn rate_against(value: u64, bound: u64) -> (r: u64)
    requires
        value <= bound,
    ensures
        r == scaled_rate(value, bound),
        0 <= r <= POWER_PRECISION,
{
    if value == 0 {
        0
    } else {
        proof {
            lemma_mul_upper_bound(value as int, bound as int, POWER_PRECISION as int,
                POWER_PRECISION as int);
            lemma_div_is_ordered(value * POWER_PRECISION, bound * POWER_PRECISION, bound as int);
            lemma_div_multiples_vanish(POWER_PRECISION as int, bound as int);
        }
        ((value as u128 * POWER_PRECISION as u128) / (bound as u128)) as u64
    }
}

/// Raises the running maximum if `value` exceeds it and normalizes `value`
/// against the raised maximum.  Returns the scaled rate, the new maximum,
/// and whether the maximum grew.  The new maximum never decreases, and the
/// rate never exceeds the full ratio.
pub fn update_max(value: u64, current: u64) -> (r: (u64, u64, bool))
    ensures
        r.0 == norm_rate(value, current),
        r.1 == raised_max(value, current),
        r.2 == (value > current),
        0 <= r.0 <= POWER_PRECISION,
        r.1 >= current,
        r.1 >= value,
{
    let new_max = if value > current {
        value
    } else {
        current
    };
    let rate = rate_against(value, new_max);
    (rate, new_max, value > current)
}

/// Raises the four per-field maxima of a comment-max record; reports
/// whether any field grew.  No field ever decreases.
pub fn update_comment_max(
    max: &mut CommentMaxRecord,
    count: u64,
    fees: u64,
    positive: u64,
    unit_fee: u64,
) -> (updated: bool)
    ensures
        final(max).max_count == raised_max(count, old(max).max_count),
        final(max).max_fee == raised_max(fees, old(max).max_fee),
        final(max).max_positive == raised_max(positive, old(max).max_positive),
        final(max).max_unit_fee == raised_max(unit_fee, old(max).max_unit_fee),
        updated == (count > old(max).max_count || fees > old(max).max_fee
            || positive > old(max).max_positive || unit_fee > old(max).max_unit_fee),
{
    let mut is_updated = false;
    if count > max.max_count {
        max.max_count = count;
        is_updated = true;
    }
    if fees > max.max_fee {
        max.max_fee = fees;
        is_updated = true;
    }
    if positive > max.max_positive {
        max.max_positive = positive;
        is_updated = true;
    }
    if unit_fee > max.max_unit_fee {
        max.max_unit_fee = unit_fee;
        is_updated = true;
    }
    is_updated
}

/// Normalizes the four comment statistics of one scope against its
/// (already raised) maxima.
pub fn compute_comment_action_rate(
    max: &CommentMaxRecord,
    count: u64,
    fee: u64,
    positive: u64,
    unit_fee: u64,
) -> (r: (u64, u64, u64, u64))
    requires
        count <= max.max_count,
        fee <= max.max_fee,
        positive <= max.max_positive,
        unit_fee <= max.max_unit_fee,
    ensures
        r.0 == scaled_rate(count, max.max_count),
        r.1 == scaled_rate(fee, max.max_fee),
        r.2 == scaled_rate(unit_fee, max.max_unit_fee),
        r.3 == scaled_rate(positive, max.max_positive),
        r.0 <= POWER_PRECISION && r.1 <= POWER_PRECISION && r.2 <= POWER_PRECISION
            && r.3 <= POWER_PRECISION,
{
    (
        rate_against(count, max.max_count),
        rate_against(fee, max.max_fee),
        rate_against(unit_fee, max.max_unit_fee),
        rate_against(positive, max.max_positive),
    )
}

/// Combines two scaled rates with their weights, the secondary weight and
/// the top weight.
pub fn weighted_two_rates(r1: u64, w1: u8, r2: u64, w2: u8, second: u8, top: u64) -> (p: u64)
    requires
        r1 <= POWER_PRECISION,
        r2 <= POWER_PRECISION,
        w1 <= 100,
        w2 <= 100,
        second <= 100,
        top <= 100,
    ensures
        p == two_rate_power(r1 as int, w1 as int, r2 as int, w2 as int, second as int, top as int),
        p <= CONTENT_POWER_MAX,
{
    proof {
        lemma_mul_upper_bound(r1 as int, POWER_PRECISION as int, w1 as int, 100);
        lemma_mul_upper_bound(r2 as int, POWER_PRECISION as int, w2 as int, 100);
        lemma_mul_upper_bound((r1 * w1 + r2 * w2) as int, 2000000, second as int, 100);
        lemma_mul_upper_bound((r1 * w1 + r2 * w2) as int * second as int, 200000000, top as int,
            100);
        lemma_div_is_ordered((r1 * w1 + r2 * w2) as int * second as int * top as int, 20000000000,
            CONTENT_DENOM as int);
        lemma_div_multiples_vanish(CONTENT_POWER_MAX as int, CONTENT_DENOM as int);
        assert(CONTENT_DENOM as int * CONTENT_POWER_MAX as int == 20000000000);
    }
    let sum = r1 * (w1 as u64) + r2 * (w2 as u64);
    sum * (second as u64) * top / CONTENT_DENOM
}

/// Combines four scaled rates with their weights, the secondary weight and
/// the top weight.
pub fn weighted_four_rates(
    r1: u64,
    w1: u8,
    r2: u64,
    w2: u8,
    r3: u64,
    w3: u8,
    r4: u64,
    w4: u8,
    second: u64,
    top: u64,
) -> (p: u64)
    requires
        r1 <= POWER_PRECISION,
        r2 <= POWER_PRECISION,
        r3 <= POWER_PRECISION,
        r4 <= POWER_PRECISION,
        w1 <= 100,
        w2 <= 100,
        w3 <= 100,
        w4 <= 100,
        second <= 100,
        top <= 100,
    ensures
        p == four_rate_power(r1 as int, w1 as int, r2 as int, w2 as int, r3 as int, w3 as int,
            r4 as int, w4 as int, second as int, top as int),
        p <= ATTEND_POWER_MAX,
{
    proof {
        lemma_mul_upper_bound(r1 as int, POWER_PRECISION as int, w1 as int, 100);
        lemma_mul_upper_bound(r2 as int, POWER_PRECISION as int, w2 as int, 100);
        lemma_mul_upper_bound(r3 as int, POWER_PRECISION as int, w3 as int, 100);
        lemma_mul_upper_bound(r4 as int, POWER_PRECISION as int, w4 as int, 100);
        lemma_mul_upper_bound((r1 * w1 + r2 * w2 + r3 * w3 + r4 * w4) as int, 4000000,
            second as int, 100);
        lemma_mul_upper_bound((r1 * w1 + r2 * w2 + r3 * w3 + r4 * w4) as int * second as int,
            400000000, top as int, 100);
        lemma_div_is_ordered(
            (r1 * w1 + r2 * w2 + r3 * w3 + r4 * w4) as int * second as int * top as int,
            40000000000, CONTENT_DENOM as int);
        lemma_div_multiples_vanish(ATTEND_POWER_MAX as int, CONTENT_DENOM as int);
        assert(CONTENT_DENOM as int * ATTEND_POWER_MAX as int == 40000000000);
    }
    let sum = r1 * (w1 as u64) + r2 * (w2 as u64) + r3 * (w3 as u64) + r4 * (w4 as u64);
    sum * second * top / CONTENT_DENOM
}

/// Content power of a publish document from its two normalized rates.
pub fn compute_publish_product_content_power(
    cfg: &WeightConfig,
    para_issue_rate: u64,
    self_issue_rate: u64,
) -> (p: u64)
    requires
        cfg.wf(),
        para_issue_rate <= POWER_PRECISION,
        self_issue_rate <= POWER_PRECISION,
    ensures
        p == two_rate_power(para_issue_rate as int, cfg.document_publish_weight_params_rate as int,
            self_issue_rate as int, cfg.document_publish_weight_params_self_rate as int,
            cfg.document_power_weight_content as int, cfg.top_weight_product_publish as int),
        p <= CONTENT_POWER_MAX,
{
    weighted_two_rates(para_issue_rate, cfg.document_publish_weight_params_rate, self_issue_rate,
        cfg.document_publish_weight_params_self_rate, cfg.document_power_weight_content,
        cfg.top_weight_product_publish as u64)
}

/// Content power of an identify document from its two normalized rates.
pub fn compute_identify_content_power(
    cfg: &WeightConfig,
    ident_rate: u64,
    ident_consistence: u64,
) -> (p: u64)
    requires
        cfg.wf(),
        ident_rate <= POWER_PRECISION,
        ident_consistence <= POWER_PRECISION,
    ensures
        p == two_rate_power(ident_rate as int, cfg.document_identify_weight_params_rate as int,
            ident_consistence as int, cfg.document_identify_weight_check_rate as int,
            cfg.document_power_weight_content as int, cfg.top_weight_document_identify as int),
        p <= CONTENT_POWER_MAX,
{
    weighted_two_rates(ident_rate, cfg.document_identify_weight_params_rate, ident_consistence,
        cfg.document_identify_weight_check_rate, cfg.document_power_weight_content,
        cfg.top_weight_document_identify as u64)
}

/// Content power of a try document from its two normalized rates.
pub fn compute_try_content_power(cfg: &WeightConfig, offset_rate: u64, true_rate: u64) -> (p: u64)
    requires
        cfg.wf(),
        offset_rate <= POWER_PRECISION,
        true_rate <= POWER_PRECISION,
    ensures
        p == two_rate_power(offset_rate as int, cfg.document_try_weight_bias_rate as int,
            true_rate as int, cfg.document_try_weight_true_rate as int,
            cfg.document_power_weight_content as int, cfg.top_weight_document_try as int),
        p <= CONTENT_POWER_MAX,
{
    weighted_two_rates(offset_rate, cfg.document_try_weight_bias_rate, true_rate,
        cfg.document_try_weight_true_rate, cfg.document_power_weight_content,
        cfg.top_weight_document_try as u64)
}

/// Content power of a choose document; its top weight is fixed at the full
/// percentage.
pub fn compute_choose_content_power(
    cfg: &WeightConfig,
    sell_count_rate: u64,
    try_count_rate: u64,
) -> (p: u64)
    requires
        cfg.wf(),
        sell_count_rate <= POWER_PRECISION,
        try_count_rate <= POWER_PRECISION,
    ensures
        p == two_rate_power(sell_count_rate as int, cfg.document_choose_weight_sell_count as int,
            try_count_rate as int, cfg.document_choose_weight_try_count as int,
            cfg.document_cm_power_weight_content as int, 100),
        p <= CONTENT_POWER_MAX,
{
    weighted_two_rates(sell_count_rate, cfg.document_choose_weight_sell_count, try_count_rate,
        cfg.document_choose_weight_try_count, cfg.document_cm_power_weight_content, 100)
}

/// Content power of a model-create document; its top weight is fixed at the
/// full percentage.
pub fn compute_model_content_power(
    cfg: &WeightConfig,
    producer_count_rate: u64,
    product_count_rate: u64,
) -> (p: u64)
    requires
        cfg.wf(),
        producer_count_rate <= POWER_PRECISION,
        product_count_rate <= POWER_PRECISION,
    ensures
        p == two_rate_power(producer_count_rate as int,
            cfg.document_model_weight_producer_count as int, product_count_rate as int,
            cfg.document_model_weight_product_count as int,
            cfg.document_cm_power_weight_content as int, 100),
        p <= CONTENT_POWER_MAX,
{
    weighted_two_rates(producer_count_rate, cfg.document_model_weight_producer_count,
        product_count_rate, cfg.document_model_weight_product_count,
        cfg.document_cm_power_weight_content, 100)
}

/// Attend power from the four comment rates of one scope, using the
/// configured comment weights.
pub fn compute_attend_power(
    cfg: &WeightConfig,
    rates: (u64, u64, u64, u64),
    second_weight: u64,
    top_weight: u64,
) -> (p: u64)
    requires
        cfg.wf(),
        rates.0 <= POWER_PRECISION,
        rates.1 <= POWER_PRECISION,
        rates.2 <= POWER_PRECISION,
        rates.3 <= POWER_PRECISION,
        second_weight <= 100,
        top_weight <= 100,
    ensures
        p == four_rate_power(rates.0 as int, cfg.comment_power_weight_count as int, rates.1 as int,
            cfg.comment_power_weight_cost as int, rates.2 as int,
            cfg.comment_power_weight_per_cost as int, rates.3 as int,
            cfg.comment_power_weight_positive as int, second_weight as int, top_weight as int),
        p <= ATTEND_POWER_MAX,
{
    weighted_four_rates(rates.0, cfg.comment_power_weight_count, rates.1,
        cfg.comment_power_weight_cost, rates.2, cfg.comment_power_weight_per_cost, rates.3,
        cfg.comment_power_weight_positive, second_weight, top_weight)
}

/// Judge power from a scaled trend value, the document judge weight and a
/// top weight.
pub fn compute_judge_power(trend: u64, top_weight: u64, document_weight: u8) -> (p: u64)
    requires
        trend <= POWER_PRECISION,
        top_weight <= 100,
        document_weight <= 100,
    ensures
        p == judge_power_value(trend as int, document_weight as int, top_weight as int),
        p <= JUDGE_POWER_MAX,
{
    proof {
        lemma_mul_upper_bound(trend as int, POWER_PRECISION as int, document_weight as int, 100);
        lemma_mul_upper_bound(trend as int * document_weight as int, 1000000, top_weight as int,
            100);
        lemma_div_is_ordered(trend as int * document_weight as int * top_weight as int, 100000000,
            JUDGE_DENOM as int);
        lemma_div_multiples_vanish(JUDGE_POWER_MAX as int, JUDGE_DENOM as int);
        assert(JUDGE_DENOM as int * JUDGE_POWER_MAX as int == 100000000);
    }
    trend * (document_weight as u64) * top_weight / JUDGE_DENOM
}

/// Agreement score of the expert and platform trend slots, as the exhaustive
/// table over the nine combinations.
pub fn compute_doc_trend_power(expert: CommentTrend, platform: CommentTrend) -> (r: u64)
    ensures
        r == trend_weight(expert, platform),
        r <= POWER_PRECISION,
{
    match (expert, platform) {
        (CommentTrend::Positive, CommentTrend::Positive) => 10000,
        (CommentTrend::Negative, CommentTrend::Negative) => 0,
        (CommentTrend::Empty, CommentTrend::Empty) => 3750,
        (CommentTrend::Positive, CommentTrend::Negative) => 2500,
        (CommentTrend::Negative, CommentTrend::Positive) => 2500,
        (CommentTrend::Positive, CommentTrend::Empty) => 7500,
        (CommentTrend::Empty, CommentTrend::Positive) => 7500,
        (CommentTrend::Negative, CommentTrend::Empty) => 5000,
        (CommentTrend::Empty, CommentTrend::Negative) => 5000,
    }
}

} // verus!
