//! General laws of the scoring engine, stated and proved once over the
//! spec-level model: normalization stays within the unit interval and its
//! maxima only grow, content power is a function of its inputs alone,
//! propagation is idempotent, slashing clamps at zero, and the trend table
//! is the fixed symmetric table.

use crate::compute::{
    norm_rate, raised_max, scaled_rate, trend_weight, POWER_PRECISION,
};
use crate::compute::two_rate_power;
use crate::engine::{
    account_plan_spec, apply_account_power, apply_comment_power, apply_content,
    comment_plan_spec, content_judge_values, key1, key2, or_default_publish_max, or_zero,
    propagate_cart_id, propagate_power_sum, slash_spec, AccountPlan, KpView,
};
use crate::store::StoreKey;
use crate::types::{
    CommentMaxRecord, CommentTrend, DocumentSpecificData, Error, KPCommentData, KPDocumentData,
    KPProductPublishData, WeightConfig,
};
use vstd::arithmetic::div_mod::{
    lemma_div_denominator, lemma_div_is_ordered, lemma_div_multiples_vanish,
};
use vstd::arithmetic::mul::lemma_mul_upper_bound;
use vstd::prelude::*;

verus! {

/// A rate normalized against a bound at least as large lies in the unit
/// interval: between `0` and [`POWER_PRECISION`], the fixed-point `1.0`.
pub proof fn lemma_scaled_rate_unit(value: u64, bound: u64)
    requires
        value <= bound,
    ensures
        0 <= scaled_rate(value, bound) <= POWER_PRECISION,
{
    if value > 0 {
        lemma_mul_upper_bound(value as int, bound as int, POWER_PRECISION as int,
            POWER_PRECISION as int);
        lemma_div_is_ordered(value * POWER_PRECISION, bound * POWER_PRECISION, bound as int);
        lemma_div_multiples_vanish(POWER_PRECISION as int, bound as int);
    }
}

/// One normalization call returns a ratio in the unit interval and never
/// lowers the stored maximum.
pub proof fn lemma_normalize_unit_and_monotonic(value: u64, current: u64)
    ensures
        0 <= norm_rate(value, current) <= POWER_PRECISION,
        raised_max(value, current) >= current,
        raised_max(value, current) >= value,
{
    lemma_scaled_rate_unit(value, raised_max(value, current));
}

/// Normalizing the same unchanged value again returns the same rate and
/// leaves the stored maximum where the first call put it.
pub proof fn lemma_normalize_idempotent(value: u64, current: u64)
    ensures
        raised_max(value, raised_max(value, current)) == raised_max(value, current),
        norm_rate(value, raised_max(value, current)) == norm_rate(value, current),
{
}

/// The maximum stored after a sequence of normalization calls for one
/// (tenant, dimension), starting from `m0`.
pub open spec fn running_max(m0: u64, s: Seq<u64>) -> u64
    decreases s.len(),
{
    if s.len() == 0 {
        m0
    } else {
        running_max(raised_max(s[0], m0), s.drop_first())
    }
}

/// Appending one more call folds into one more `raised_max`.
proof fn lemma_running_max_push(m0: u64, s: Seq<u64>, x: u64)
    ensures
        running_max(m0, s.push(x)) == raised_max(x, running_max(m0, s)),
    decreases s.len(),
{
    if s.len() == 0 {
        assert(s.push(x).drop_first() =~= Seq::<u64>::empty());
        assert(s.push(x)[0] == x);
        assert(running_max(raised_max(x, m0), Seq::<u64>::empty()) == raised_max(x, m0));
    } else {
        assert(s.push(x).drop_first() =~= s.drop_first().push(x));
        assert(s.push(x)[0] == s[0]);
        lemma_running_max_push(raised_max(s[0], m0), s.drop_first(), x);
        assert(running_max(m0, s.push(x)) == running_max(raised_max(s[0], m0),
            s.drop_first().push(x)));
    }
}

/// Across any sequence of normalization calls for one (tenant, dimension),
/// the stored maximum after each call is at least the maximum before it:
/// the running maximum is non-decreasing over the whole sequence.
pub proof fn lemma_running_max_monotonic(m0: u64, s: Seq<u64>, i: int)
    requires
        0 <= i < s.len(),
    ensures
        running_max(m0, s.take(i)) <= running_max(m0, s.take(i + 1)),
{
    assert(s.take(i + 1) =~= s.take(i).push(s[i]));
    lemma_running_max_push(m0, s.take(i), s[i]);
}

/// Content-power computation is replay deterministic: it reads nothing but
/// the weight configuration, the document's own payload and trend slots,
/// and the per-type running maxima, so two independent instances that have
/// recorded the same maxima produce bit-identical powers for the same
/// document.
pub proof fn lemma_content_power_deterministic(
    cfg: WeightConfig,
    a: KpView,
    b: KpView,
    doc: KPDocumentData,
)
    requires
        a.publish_max == b.publish_max,
        a.identify_max == b.identify_max,
        a.try_max == b.try_max,
        a.choose_max == b.choose_max,
        a.model_create_max == b.model_create_max,
    ensures
        content_judge_values(cfg, a, doc) == content_judge_values(cfg, b, doc),
{
}

/// Re-running the account-power propagation on an unchanged state is a
/// no-op: the first run leaves the snapshot equal to the recomputed power,
/// so the second run sees a zero delta and mutates nothing.  The reachable
/// power must fit the carrier, as it always does under the engine's
/// invariant.
pub proof fn lemma_account_power_idempotent(v: KpView, doc: KPDocumentData)
    requires
        propagate_power_sum(v, doc) <= u64::MAX,
    ensures
        ({
            let (v1, r1) = apply_account_power(v, doc);
            r1 is Ok ==> apply_account_power(v1, doc) == (v1, Ok::<(), Error>(()))
        }),
{
    let (v1, r1) = apply_account_power(v, doc);
    if r1 is Ok {
        let plan = account_plan_spec(v, doc)->Ok_0;
        if plan.changed {
            assert(propagate_power_sum(v1, doc) == propagate_power_sum(v, doc));
            assert(or_zero(v1.purchase_power, key2(doc.app_id, propagate_cart_id(doc)))
                == plan.power);
            assert(account_plan_spec(v1, doc) == Ok::<_, Error>(AccountPlan {
                changed: false,
                power: 0,
                miner_new: 0,
                total_new: 0,
            }));
        } else {
            assert(v1 == v);
        }
    }
}

/// Slashing clamps: a zero snapshot changes nothing; otherwise the
/// snapshot is zeroed and the owner's total drops by it, to zero at the
/// lowest.  The global total is never touched.
pub proof fn lemma_slash_behavior(v: KpView, app_id: u64, cart_id: u64, owner: u64)
    ensures
        ({
            let snap = or_zero(v.purchase_power, key2(app_id, cart_id));
            let t = or_zero(v.miner_power, key1(owner));
            let v1 = slash_spec(v, app_id, cart_id, owner);
            &&& snap == 0 ==> v1 == v
            &&& snap > 0 ==> or_zero(v1.purchase_power, key2(app_id, cart_id)) == 0
            &&& snap > 0 && t >= snap ==> or_zero(v1.miner_power, key1(owner)) == t - snap
            &&& snap > 0 && t < snap ==> or_zero(v1.miner_power, key1(owner)) == 0
            &&& v1.total_power == v.total_power
        }),
{
}

/// A full ratio normalizes to exactly the precision constant.
proof fn lemma_full_rate(value: u64, current: u64)
    requires
        value > 0,
        value >= current,
    ensures
        norm_rate(value, current) == POWER_PRECISION,
{
    lemma_div_multiples_vanish(POWER_PRECISION as int, value as int);
}

/// A publish document whose raw rates both reach or set the running maxima
/// earns exactly the fully weighted content power:
/// `(w1 + w2) * content_weight * top_weight / 100`, the closed form of the
/// full-ratio formula with one truncation.
pub proof fn lemma_full_rate_publish_power(
    cfg: WeightConfig,
    v: KpView,
    doc: KPDocumentData,
    d: KPProductPublishData,
)
    requires
        doc.document_data == DocumentSpecificData::ProductPublish(d),
        d.para_issue_rate > 0,
        d.self_issue_rate > 0,
        d.para_issue_rate >= or_default_publish_max(v.publish_max,
            key1(doc.app_id)).para_issue_rate,
        d.self_issue_rate >= or_default_publish_max(v.publish_max,
            key1(doc.app_id)).self_issue_rate,
    ensures
        content_judge_values(cfg, v, doc).0 == (cfg.document_publish_weight_params_rate as int
            + cfg.document_publish_weight_params_self_rate as int)
            * cfg.document_power_weight_content as int * cfg.top_weight_product_publish as int
            / 100,
{
    let m = or_default_publish_max(v.publish_max, key1(doc.app_id));
    let w1 = cfg.document_publish_weight_params_rate as int;
    let w2 = cfg.document_publish_weight_params_self_rate as int;
    let cw = cfg.document_power_weight_content as int;
    let tw = cfg.top_weight_product_publish as int;
    lemma_full_rate(d.para_issue_rate, m.para_issue_rate);
    lemma_full_rate(d.self_issue_rate, m.self_issue_rate);
    let p = POWER_PRECISION as int;
    assert(content_judge_values(cfg, v, doc).0 == two_rate_power(p, w1, p, w2, cw, tw));
    let k = (w1 + w2) * cw * tw;
    assert((p * w1 + p * w2) * cw * tw == p * ((w1 + w2) * cw * tw)) by (nonlinear_arith);
    lemma_div_denominator(p * k, p, 100);
    lemma_div_multiples_vanish(k, p);
    assert(p * 100 == crate::compute::CONTENT_DENOM as int);
    assert(two_rate_power(p, w1, p, w2, cw, tw) == k / 100);
}

/// No document creation lowers a stored per-tenant dimension maximum:
/// after a document's content power is processed, every metric maximum of
/// every tenant is at least what it was.
pub proof fn lemma_content_maxima_monotonic(v: KpView, doc: KPDocumentData)
    ensures
        ({
            let v1 = apply_content(v, doc);
            &&& forall|k: StoreKey| #[trigger]
                v.publish_max.contains_key(k) ==> v1.publish_max.contains_key(k)
                    && v1.publish_max[k].para_issue_rate >= v.publish_max[k].para_issue_rate
                    && v1.publish_max[k].self_issue_rate >= v.publish_max[k].self_issue_rate
            &&& forall|k: StoreKey| #[trigger]
                v.identify_max.contains_key(k) ==> v1.identify_max.contains_key(k)
                    && v1.identify_max[k].ident_rate >= v.identify_max[k].ident_rate
                    && v1.identify_max[k].ident_consistence >= v.identify_max[k].ident_consistence
            &&& forall|k: StoreKey| #[trigger]
                v.try_max.contains_key(k) ==> v1.try_max.contains_key(k)
                    && v1.try_max[k].offset_rate >= v.try_max[k].offset_rate
                    && v1.try_max[k].true_rate >= v.try_max[k].true_rate
            &&& forall|k: StoreKey| #[trigger]
                v.choose_max.contains_key(k) ==> v1.choose_max.contains_key(k)
                    && v1.choose_max[k].sell_count >= v.choose_max[k].sell_count
                    && v1.choose_max[k].try_count >= v.choose_max[k].try_count
            &&& forall|k: StoreKey| #[trigger]
                v.model_create_max.contains_key(k) ==> v1.model_create_max.contains_key(k)
                    && v1.model_create_max[k].producer_count >= v.model_create_max[k].producer_count
                    && v1.model_create_max[k].product_count >= v.model_create_max[k].product_count
        }),
{
}

/// No comment lowers a stored comment maximum: a comment event that goes
/// through leaves every field of both per-tenant comment-max records at
/// least where it was.
pub proof fn lemma_comment_maxima_monotonic(
    v: KpView,
    comment: KPCommentData,
    is_expert: bool,
    is_platform: bool,
)
    ensures
        ({
            let (v1, r) = apply_comment_power(v, comment, is_expert, is_platform);
            r is Ok ==> {
                &&& forall|k: StoreKey| #[trigger]
                    v.comment_max_per_doc.contains_key(k) ==> v1.comment_max_per_doc.contains_key(
                        k) && cmr_geq(v1.comment_max_per_doc[k], v.comment_max_per_doc[k])
                &&& forall|k: StoreKey| #[trigger]
                    v.comment_max_per_account.contains_key(k)
                        ==> v1.comment_max_per_account.contains_key(k) && cmr_geq(
                        v1.comment_max_per_account[k], v.comment_max_per_account[k])
            }
        }),
{
    reveal(comment_plan_spec);
}

/// Pointwise order on comment-max records.
pub open spec fn cmr_geq(a: CommentMaxRecord, b: CommentMaxRecord) -> bool {
    a.max_count >= b.max_count && a.max_fee >= b.max_fee && a.max_positive >= b.max_positive
        && a.max_unit_fee >= b.max_unit_fee
}

/// The trend table: full agreement scores the whole ratio, full
/// disagreement a quarter, two empty slots three eighths; a positive or a
/// negative paired with an empty slot score three quarters and one half.
/// The table is symmetric in its two slots.
pub proof fn lemma_trend_table()
    ensures
        trend_weight(CommentTrend::Positive, CommentTrend::Positive) == 10000,
        trend_weight(CommentTrend::Negative, CommentTrend::Negative) == 0,
        trend_weight(CommentTrend::Empty, CommentTrend::Empty) == 3750,
        trend_weight(CommentTrend::Positive, CommentTrend::Negative) == 2500,
        trend_weight(CommentTrend::Positive, CommentTrend::Empty) == 7500,
        trend_weight(CommentTrend::Empty, CommentTrend::Negative) == 5000,
        forall|e: CommentTrend, p: CommentTrend| #[trigger]
            trend_weight(e, p) == trend_weight(p, e),
{
}

} // verus!
