//! The knowledge-power engine: a deterministic state machine that applies
//! document, comment, model and slash events in ledger order.
//!
//! Every event first runs all of its checks against the current state and
//! only then mutates it, so a rejected event leaves the state untouched.
//! The whole state is summarized by the ghost [`KpView`], and each event's
//! contract pins the new view and the returned result exactly, through
//! spec functions that mirror the transition.

use crate::compute::{
    compute_attend_power, compute_choose_content_power, compute_comment_action_rate,
    compute_doc_trend_power, compute_identify_content_power, compute_judge_power,
    compute_model_content_power, compute_publish_product_content_power, compute_try_content_power,
    four_rate_power, judge_power_value, norm_rate, raised_max, scaled_rate, trend_weight,
    two_rate_power, update_comment_max, update_max, ATTEND_POWER_MAX, CONTENT_POWER_MAX,
    JUDGE_POWER_MAX,
};
use crate::store::{KvMap, StoreKey};
use crate::types::{
    CommentMaxRecord, CommentTrend, CommodityTypeData, DocumentPower, DocumentSpecificData,
    DocumentType, Error, KPCommentAccountRecord, KPCommentData, KPDocumentData, KPModelCreateData,
    KPModelCreateDataMax, KPModelData, KPProductChooseData, KPProductChooseDataMax,
    KPProductIdentifyData, KPProductIdentifyRateMax, KPProductPublishData,
    KPProductPublishRateMax, KPProductTryData, KPProductTryRateMax, ModelStatus, PowerSize,
    PowerSum, WeightConfig,
};
use vstd::prelude::*;

verus! {

/// Key of a record family indexed by one component.
pub open spec fn key1(a: u64) -> StoreKey {
    StoreKey { k1: a, k2: 0, k3: 0 }
}

/// Key of a record family indexed by two components.
pub open spec fn key2(a: u64, b: u64) -> StoreKey {
    StoreKey { k1: a, k2: b, k3: 0 }
}

/// Key of a record family indexed by three components.
pub open spec fn key3(a: u64, b: u64, c: u64) -> StoreKey {
    StoreKey { k1: a, k2: b, k3: c }
}

/// Ghost summary of the whole engine state.
#[verifier::ext_equal]
pub ghost struct KpView {
    pub config: WeightConfig,
    pub model_data: Map<StoreKey, KPModelData>,
    pub comment_account_record: Map<StoreKey, KPCommentAccountRecord>,
    pub purchase_power: Map<StoreKey, PowerSize>,
    pub document_data: Map<StoreKey, KPDocumentData>,
    pub document_power: Map<StoreKey, DocumentPower>,
    pub product_index: Map<StoreKey, u64>,
    pub cart_identify_index: Map<StoreKey, u64>,
    pub cart_try_index: Map<StoreKey, u64>,
    pub comment_data: Map<StoreKey, KPCommentData>,
    pub total_power: PowerSize,
    pub miner_power: Map<StoreKey, PowerSize>,
    pub account_attend_power: Map<StoreKey, PowerSize>,
    pub comment_max_per_doc: Map<StoreKey, CommentMaxRecord>,
    pub comment_max_per_account: Map<StoreKey, CommentMaxRecord>,
    pub publish_max: Map<StoreKey, KPProductPublishRateMax>,
    pub identify_max: Map<StoreKey, KPProductIdentifyRateMax>,
    pub try_max: Map<StoreKey, KPProductTryRateMax>,
    pub choose_max: Map<StoreKey, KPProductChooseDataMax>,
    pub model_create_max: Map<StoreKey, KPModelCreateDataMax>,
    pub commodity_type_sets: Seq<CommodityTypeData>,
    pub commodity_type_map: Map<StoreKey, Seq<u8>>,
    pub model_first_type_benefit: Map<StoreKey, bool>,
    pub app_model_total: Map<StoreKey, u32>,
    pub app_model_count: Map<StoreKey, u32>,
    pub model_year_income: Map<StoreKey, u64>,
    pub app_year_income_total: Map<StoreKey, u64>,
}

/// The knowledge-power engine.
pub struct Kp {
    /// Percent weights of every formula, fixed at construction.
    pub config: WeightConfig,
    /// (app, model) -> model record.
    pub model_data: KvMap<KPModelData>,
    /// (app, account) -> running comment statistics of that account.
    pub comment_account_record: KvMap<KPCommentAccountRecord>,
    /// (app, cart) -> last computed purchase-power snapshot.
    pub purchase_power: KvMap<PowerSize>,
    /// (app, document) -> document record.
    pub document_data: KvMap<KPDocumentData>,
    /// (app, document) -> document power components.
    pub document_power: KvMap<DocumentPower>,
    /// (app, product) -> publish document of that product.
    pub product_index: KvMap<u64>,
    /// (app, cart) -> identify document of that cart.
    pub cart_identify_index: KvMap<u64>,
    /// (app, cart) -> try document of that cart.
    pub cart_try_index: KvMap<u64>,
    /// (app, comment) -> comment record.
    pub comment_data: KvMap<KPCommentData>,
    /// Global total power.
    pub total_power: PowerSize,
    /// account -> account total power.
    pub miner_power: KvMap<PowerSize>,
    /// (account, app) -> attend power earned by commenting.
    pub account_attend_power: KvMap<PowerSize>,
    /// app -> document-scope comment maxima.
    pub comment_max_per_doc: KvMap<CommentMaxRecord>,
    /// app -> account-scope comment maxima.
    pub comment_max_per_account: KvMap<CommentMaxRecord>,
    /// app -> publish metric maxima.
    pub publish_max: KvMap<KPProductPublishRateMax>,
    /// app -> identify metric maxima.
    pub identify_max: KvMap<KPProductIdentifyRateMax>,
    /// app -> try metric maxima.
    pub try_max: KvMap<KPProductTryRateMax>,
    /// app -> choose metric maxima.
    pub choose_max: KvMap<KPProductChooseDataMax>,
    /// app -> model-create metric maxima.
    pub model_create_max: KvMap<KPModelCreateDataMax>,
    /// Registered commodity types, sorted by ascending type id.
    pub commodity_type_sets: Vec<CommodityTypeData>,
    /// type id -> description.
    pub commodity_type_map: KvMap<Vec<u8>>,
    /// (app, type) -> the first model of this type already drew its benefit.
    pub model_first_type_benefit: KvMap<bool>,
    /// app -> configured model capacity.
    pub app_model_total: KvMap<u32>,
    /// app -> current model count.
    pub app_model_count: KvMap<u32>,
    /// (year, app, model) -> declared model income.
    pub model_year_income: KvMap<u64>,
    /// year -> summed declared income.
    pub app_year_income_total: KvMap<u64>,
}

impl View for Kp {
    type V = KpView;

    open spec fn view(&self) -> KpView {
        KpView {
            config: self.config,
            model_data: self.model_data@,
            comment_account_record: self.comment_account_record@,
            purchase_power: self.purchase_power@,
            document_data: self.document_data@,
            document_power: self.document_power@,
            product_index: self.product_index@,
            cart_identify_index: self.cart_identify_index@,
            cart_try_index: self.cart_try_index@,
            comment_data: self.comment_data@,
            total_power: self.total_power,
            miner_power: self.miner_power@,
            account_attend_power: self.account_attend_power@,
            comment_max_per_doc: self.comment_max_per_doc@,
            comment_max_per_account: self.comment_max_per_account@,
            publish_max: self.publish_max@,
            identify_max: self.identify_max@,
            try_max: self.try_max@,
            choose_max: self.choose_max@,
            model_create_max: self.model_create_max@,
            commodity_type_sets: self.commodity_type_sets@,
            commodity_type_map: self.commodity_type_map@.map_values(|v: Vec<u8>| v@),
            model_first_type_benefit: self.model_first_type_benefit@,
            app_model_total: self.app_model_total@,
            app_model_count: self.app_model_count@,
            model_year_income: self.model_year_income@,
            app_year_income_total: self.app_year_income_total@,
        }
    }
}

/// Looks up a power value, defaulting to zero.
pub open spec fn or_zero(m: Map<StoreKey, u64>, k: StoreKey) -> u64 {
    if m.contains_key(k) {
        m[k]
    } else {
        0
    }
}

/// Looks up a counter, defaulting to zero.
pub open spec fn or_zero32(m: Map<StoreKey, u32>, k: StoreKey) -> u32 {
    if m.contains_key(k) {
        m[k]
    } else {
        0
    }
}

/// Looks up a document power, defaulting to all-zero components.
pub open spec fn or_default_power(m: Map<StoreKey, DocumentPower>, k: StoreKey) -> DocumentPower {
    if m.contains_key(k) {
        m[k]
    } else {
        DocumentPower { attend: 0, content: 0, judge: 0 }
    }
}

/// Looks up a comment-max record, defaulting to all-zero maxima.
pub open spec fn or_default_cmr(m: Map<StoreKey, CommentMaxRecord>, k: StoreKey) -> CommentMaxRecord {
    if m.contains_key(k) {
        m[k]
    } else {
        CommentMaxRecord { max_count: 0, max_fee: 0, max_positive: 0, max_unit_fee: 0 }
    }
}

/// Looks up an account comment record, defaulting to all-zero counters.
pub open spec fn or_default_car(
    m: Map<StoreKey, KPCommentAccountRecord>,
    k: StoreKey,
) -> KPCommentAccountRecord {
    if m.contains_key(k) {
        m[k]
    } else {
        KPCommentAccountRecord { count: 0, fees: 0, positive_count: 0 }
    }
}

/// A document power whose components respect the formula maxima.
pub open spec fn bounded_doc_power(p: DocumentPower) -> bool {
    p.attend <= ATTEND_POWER_MAX && p.content <= CONTENT_POWER_MAX && p.judge <= JUDGE_POWER_MAX
}

/// Commodity types are kept in strictly ascending type-id order.
pub open spec fn sorted_by_type_id(s: Seq<CommodityTypeData>) -> bool {
    forall|i: int, j: int|
        0 <= i < j < s.len() ==> (#[trigger] s[i]).type_id < (#[trigger] s[j]).type_id
}

/// The position at which a fresh type id enters the sorted registry: the
/// first index whose type id is at least `id`.
pub open spec fn type_insert_pos(s: Seq<CommodityTypeData>, id: u32) -> int
    decreases s.len(),
{
    if s.len() == 0 {
        0
    } else if s[0].type_id >= id {
        0
    } else {
        1 + type_insert_pos(s.drop_first(), id)
    }
}

proof fn lemma_type_insert_pos_char(s: Seq<CommodityTypeData>, id: u32, p: int)
    requires
        0 <= p <= s.len(),
        forall|j: int| 0 <= j < p ==> (#[trigger] s[j]).type_id < id,
        p == s.len() || s[p].type_id >= id,
    ensures
        type_insert_pos(s, id) == p,
    decreases s.len(),
{
    if p == 0 {
    } else {
        assert(s[0].type_id < id);
        assert(forall|j: int| 0 <= j < p - 1 ==> (#[trigger] s.drop_first()[j]) == s[j + 1]);
        lemma_type_insert_pos_char(s.drop_first(), id, p - 1);
    }
}

/// State invariant, preserved by every event:
/// - every stored document carries the tenant and document id it is keyed
///   by;
/// - every stored document power and attend power respects the maxima the
///   scoring formulas can produce;
/// - the commodity-type registry is strictly sorted and every registered
///   type also stands in the type map.
pub open spec fn inv(v: KpView) -> bool {
    &&& forall|k: StoreKey| #[trigger]
        v.document_data.contains_key(k) ==> v.document_data[k].app_id == k.k1
            && v.document_data[k].document_id == k.k2
    &&& forall|k: StoreKey| #[trigger]
        v.document_power.contains_key(k) ==> bounded_doc_power(v.document_power[k])
    &&& forall|k: StoreKey| #[trigger]
        v.account_attend_power.contains_key(k) ==> v.account_attend_power[k] <= ATTEND_POWER_MAX
    &&& sorted_by_type_id(v.commodity_type_sets)
    &&& forall|i: int|
        0 <= i < v.commodity_type_sets.len() ==> v.commodity_type_map.contains_key(
            key1((#[trigger] v.commodity_type_sets[i]).type_id as u64))
}

/// Looks up a publish-max record, defaulting to zero maxima.
pub open spec fn or_default_publish_max(
    m: Map<StoreKey, KPProductPublishRateMax>,
    k: StoreKey,
) -> KPProductPublishRateMax {
    if m.contains_key(k) {
        m[k]
    } else {
        KPProductPublishRateMax { para_issue_rate: 0, self_issue_rate: 0 }
    }
}

/// Looks up an identify-max record, defaulting to zero maxima.
pub open spec fn or_default_identify_max(
    m: Map<StoreKey, KPProductIdentifyRateMax>,
    k: StoreKey,
) -> KPProductIdentifyRateMax {
    if m.contains_key(k) {
        m[k]
    } else {
        KPProductIdentifyRateMax { ident_rate: 0, ident_consistence: 0 }
    }
}

/// Looks up a try-max record, defaulting to zero maxima.
pub open spec fn or_default_try_max(
    m: Map<StoreKey, KPProductTryRateMax>,
    k: StoreKey,
) -> KPProductTryRateMax {
    if m.contains_key(k) {
        m[k]
    } else {
        KPProductTryRateMax { offset_rate: 0, true_rate: 0 }
    }
}

/// Looks up a choose-max record, defaulting to zero maxima.
pub open spec fn or_default_choose_max(
    m: Map<StoreKey, KPProductChooseDataMax>,
    k: StoreKey,
) -> KPProductChooseDataMax {
    if m.contains_key(k) {
        m[k]
    } else {
        KPProductChooseDataMax { sell_count: 0, try_count: 0 }
    }
}

/// Looks up a model-create-max record, defaulting to zero maxima.
pub open spec fn or_default_model_create_max(
    m: Map<StoreKey, KPModelCreateDataMax>,
    k: StoreKey,
) -> KPModelCreateDataMax {
    if m.contains_key(k) {
        m[k]
    } else {
        KPModelCreateDataMax { producer_count: 0, product_count: 0 }
    }
}

/// A document as every creation event records it: the given identity and
/// payload, zero comment counters, both trend slots empty.
pub open spec fn new_document(
    app_id: u64,
    document_id: u64,
    model_id: u64,
    product_id: u64,
    owner: u64,
    document_type: DocumentType,
    document_data: DocumentSpecificData,
) -> KPDocumentData {
    KPDocumentData {
        app_id,
        document_id,
        model_id,
        product_id,
        owner,
        document_type,
        document_data,
        comment_count: 0,
        comment_total_fee: 0,
        comment_positive_count: 0,
        expert_trend: CommentTrend::Empty,
        platform_trend: CommentTrend::Empty,
    }
}

/// Content power and initial judge power a document earns at creation,
/// normalized against the current per-tenant maxima of its type.
pub open spec fn content_judge_values(cfg: WeightConfig, v: KpView, doc: KPDocumentData) -> (
    int,
    int,
) {
    let trend = trend_weight(doc.expert_trend, doc.platform_trend) as int;
    let ak = key1(doc.app_id);
    match doc.document_data {
        DocumentSpecificData::ProductPublish(d) => {
            let m = or_default_publish_max(v.publish_max, ak);
            (
                two_rate_power(norm_rate(d.para_issue_rate, m.para_issue_rate),
                    cfg.document_publish_weight_params_rate as int,
                    norm_rate(d.self_issue_rate, m.self_issue_rate),
                    cfg.document_publish_weight_params_self_rate as int,
                    cfg.document_power_weight_content as int,
                    cfg.top_weight_product_publish as int),
                judge_power_value(trend, cfg.document_power_weight_judge as int,
                    cfg.top_weight_product_publish as int),
            )
        },
        DocumentSpecificData::ProductIdentify(d) => {
            let m = or_default_identify_max(v.identify_max, ak);
            (
                two_rate_power(norm_rate(d.ident_rate, m.ident_rate),
                    cfg.document_identify_weight_params_rate as int,
                    norm_rate(d.ident_consistence, m.ident_consistence),
                    cfg.document_identify_weight_check_rate as int,
                    cfg.document_power_weight_content as int,
                    cfg.top_weight_document_identify as int),
                judge_power_value(trend, cfg.document_power_weight_judge as int,
                    cfg.top_weight_document_identify as int),
            )
        },
        DocumentSpecificData::ProductTry(d) => {
            let m = or_default_try_max(v.try_max, ak);
            (
                two_rate_power(norm_rate(d.offset_rate, m.offset_rate),
                    cfg.document_try_weight_bias_rate as int,
                    norm_rate(d.true_rate, m.true_rate),
                    cfg.document_try_weight_true_rate as int,
                    cfg.document_power_weight_content as int,
                    cfg.top_weight_document_try as int),
                judge_power_value(trend, cfg.document_power_weight_judge as int,
                    cfg.top_weight_document_try as int),
            )
        },
        DocumentSpecificData::ProductChoose(d) => {
            let m = or_default_choose_max(v.choose_max, ak);
            (
                two_rate_power(norm_rate(d.sell_count, m.sell_count),
                    cfg.document_choose_weight_sell_count as int,
                    norm_rate(d.try_count, m.try_count),
                    cfg.document_choose_weight_try_count as int,
                    cfg.document_cm_power_weight_content as int, 100),
                judge_power_value(trend, cfg.document_cm_power_weight_judge as int, 100),
            )
        },
        DocumentSpecificData::ModelCreate(d) => {
            let m = or_default_model_create_max(v.model_create_max, ak);
            (
                two_rate_power(norm_rate(d.producer_count, m.producer_count),
                    cfg.document_model_weight_producer_count as int,
                    norm_rate(d.product_count, m.product_count),
                    cfg.document_model_weight_product_count as int,
                    cfg.document_cm_power_weight_content as int, 100),
                judge_power_value(trend, cfg.document_cm_power_weight_judge as int, 100),
            )
        },
    }
}

/// The state after a document's content power was processed: the maxima of
/// its type's dimensions are raised where exceeded, and a power record with
/// the content and initial judge power is stored when the content power is
/// positive.
pub open spec fn apply_content(v: KpView, doc: KPDocumentData) -> KpView {
    let cj = content_judge_values(v.config, v, doc);
    let ak = key1(doc.app_id);
    let v1 = match doc.document_data {
        DocumentSpecificData::ProductPublish(d) => {
            let m = or_default_publish_max(v.publish_max, ak);
            if d.para_issue_rate > m.para_issue_rate || d.self_issue_rate > m.self_issue_rate {
                KpView {
                    publish_max: v.publish_max.insert(ak, KPProductPublishRateMax {
                        para_issue_rate: raised_max(d.para_issue_rate, m.para_issue_rate),
                        self_issue_rate: raised_max(d.self_issue_rate, m.self_issue_rate),
                    }),
                    ..v
                }
            } else {
                v
            }
        },
        DocumentSpecificData::ProductIdentify(d) => {
            let m = or_default_identify_max(v.identify_max, ak);
            if d.ident_rate > m.ident_rate || d.ident_consistence > m.ident_consistence {
                KpView {
                    identify_max: v.identify_max.insert(ak, KPProductIdentifyRateMax {
                        ident_rate: raised_max(d.ident_rate, m.ident_rate),
                        ident_consistence: raised_max(d.ident_consistence, m.ident_consistence),
                    }),
                    ..v
                }
            } else {
                v
            }
        },
        DocumentSpecificData::ProductTry(d) => {
            let m = or_default_try_max(v.try_max, ak);
            if d.offset_rate > m.offset_rate || d.true_rate > m.true_rate {
                KpView {
                    try_max: v.try_max.insert(ak, KPProductTryRateMax {
                        offset_rate: raised_max(d.offset_rate, m.offset_rate),
                        true_rate: raised_max(d.true_rate, m.true_rate),
                    }),
                    ..v
                }
            } else {
                v
            }
        },
        DocumentSpecificData::ProductChoose(d) => {
            let m = or_default_choose_max(v.choose_max, ak);
            if d.sell_count > m.sell_count || d.try_count > m.try_count {
                KpView {
                    choose_max: v.choose_max.insert(ak, KPProductChooseDataMax {
                        sell_count: raised_max(d.sell_count, m.sell_count),
                        try_count: raised_max(d.try_count, m.try_count),
                    }),
                    ..v
                }
            } else {
                v
            }
        },
        DocumentSpecificData::ModelCreate(d) => {
            let m = or_default_model_create_max(v.model_create_max, ak);
            if d.producer_count > m.producer_count || d.product_count > m.product_count {
                KpView {
                    model_create_max: v.model_create_max.insert(ak, KPModelCreateDataMax {
                        producer_count: raised_max(d.producer_count, m.producer_count),
                        product_count: raised_max(d.product_count, m.product_count),
                    }),
                    ..v
                }
            } else {
                v
            }
        },
    };
    if cj.0 > 0 {
        KpView {
            document_power: v1.document_power.insert(key2(doc.app_id, doc.document_id),
                DocumentPower { attend: 0, content: cj.0 as u64, judge: cj.1 as u64 }),
            ..v1
        }
    } else {
        v1
    }
}

/// The state after a model was created: the record stored enabled, the
/// tenant's model count raised, and the first-type benefit marked the
/// first time this tenant sees the type.
pub open spec fn create_model_spec(
    v: KpView,
    app_id: u64,
    model_id: u64,
    expert_id: u64,
    commodity_name: Vec<u8>,
    commodity_type: u32,
    owner: u64,
) -> (KpView, Result<(), Error>) {
    let mk = key2(app_id, model_id);
    let count = or_zero32(v.app_model_count, key1(app_id));
    if v.model_data.contains_key(mk) {
        (v, Err(Error::ModelAlreadyExisted))
    } else if !v.commodity_type_map.contains_key(key1(commodity_type as u64)) {
        (v, Err(Error::ModelTypeInvalid))
    } else if !(count < or_zero32(v.app_model_total, key1(app_id))) {
        (v, Err(Error::ModelOverSizeLimit))
    } else {
        let model = KPModelData {
            app_id,
            model_id,
            expert_id,
            status: ModelStatus::ENABLED,
            commodity_name,
            commodity_type,
            owner,
        };
        let tk = key2(app_id, commodity_type as u64);
        let benefit = if v.model_first_type_benefit.contains_key(tk) {
            v.model_first_type_benefit
        } else {
            v.model_first_type_benefit.insert(tk, true)
        };
        (
            KpView {
                model_data: v.model_data.insert(mk, model),
                app_model_count: v.app_model_count.insert(key1(app_id), (count + 1) as u32),
                model_first_type_benefit: benefit,
                ..v
            },
            Ok(()),
        )
    }
}

/// The plan a propagation run produces before any write: whether the
/// snapshot grew, and the exact values to store if it did.
#[derive(Clone, Copy, PartialEq, Eq, Structural, Debug)]
pub struct AccountPlan {
    pub changed: bool,
    pub power: u64,
    pub miner_new: u64,
    pub total_new: u64,
}

/// The cart a document's propagation is keyed by.
pub open spec fn propagate_cart_id(doc: KPDocumentData) -> u64 {
    match doc.document_data {
        DocumentSpecificData::ProductIdentify(d) => d.cart_id,
        DocumentSpecificData::ProductTry(d) => d.cart_id,
        _ => 0,
    }
}

/// Everything a cart's power is summed from: the paired document found
/// through the cart indices, the document itself, the publish document of
/// its product, and the owner's attend power in this tenant.
pub open spec fn propagate_power_sum(v: KpView, doc: KPDocumentData) -> int {
    let app = doc.app_id;
    let couple = match doc.document_data {
        DocumentSpecificData::ProductIdentify(d) => {
            if v.cart_try_index.contains_key(key2(app, d.cart_id)) {
                or_default_power(v.document_power, key2(app,
                    v.cart_try_index[key2(app, d.cart_id)])).spec_total()
            } else {
                0
            }
        },
        DocumentSpecificData::ProductTry(d) => {
            if v.cart_identify_index.contains_key(key2(app, d.cart_id)) {
                or_default_power(v.document_power, key2(app,
                    v.cart_identify_index[key2(app, d.cart_id)])).spec_total()
            } else {
                0
            }
        },
        _ => 0,
    };
    let own = or_default_power(v.document_power, key2(app, doc.document_id)).spec_total();
    let publish = if v.product_index.contains_key(key2(app, doc.product_id)) {
        or_default_power(v.document_power, key2(app,
            v.product_index[key2(app, doc.product_id)])).spec_total()
    } else {
        0
    };
    let attend = or_zero(v.account_attend_power, key2(doc.owner, app)) as int;
    couple + own + publish + attend
}

/// The propagation plan: only a positive delta against the cart's last
/// snapshot is applied, and an accumulator that would overflow rejects the
/// whole event.
pub open spec fn account_plan_spec(v: KpView, doc: KPDocumentData) -> Result<AccountPlan, Error> {
    let power = propagate_power_sum(v, doc);
    let last = or_zero(v.purchase_power, key2(doc.app_id, propagate_cart_id(doc)));
    if power <= last {
        Ok(AccountPlan { changed: false, power: 0, miner_new: 0, total_new: 0 })
    } else {
        let delta = power - last;
        let miner0 = or_zero(v.miner_power, key1(doc.owner));
        if miner0 + delta > u64::MAX {
            Err(Error::AddOverflow)
        } else if v.total_power + delta > u64::MAX {
            Err(Error::AddOverflow)
        } else {
            Ok(AccountPlan {
                changed: true,
                power: power as u64,
                miner_new: (miner0 + delta) as u64,
                total_new: (v.total_power + delta) as u64,
            })
        }
    }
}

/// The state after a propagation plan was applied: the new snapshot, the
/// owner's raised total, and the raised global total.
pub open spec fn apply_account_plan_spec(v: KpView, doc: KPDocumentData, p: AccountPlan) -> KpView {
    if p.changed {
        KpView {
            purchase_power: v.purchase_power.insert(key2(doc.app_id, propagate_cart_id(doc)),
                p.power),
            miner_power: v.miner_power.insert(key1(doc.owner), p.miner_new),
            total_power: p.total_new,
            ..v
        }
    } else {
        v
    }
}

/// One full propagation run over a document.
pub open spec fn apply_account_power(v: KpView, doc: KPDocumentData) -> (
    KpView,
    Result<(), Error>,
) {
    match account_plan_spec(v, doc) {
        Err(e) => (v, Err(e)),
        Ok(p) => (apply_account_plan_spec(v, doc, p), Ok(())),
    }
}

/// A view with pending (not yet stored) power values layered over it: a
/// document power entry and an attend power entry that the running event
/// is about to write.
/// A document-power map with one pending entry layered over it.
pub open spec fn power_map_with(
    m: Map<StoreKey, DocumentPower>,
    app: u64,
    pov: Option<(u64, DocumentPower)>,
) -> Map<StoreKey, DocumentPower> {
    match pov {
        Some(o) => m.insert(key2(app, o.0), o.1),
        None => m,
    }
}

/// An attend-power map with one pending entry layered over it.
pub open spec fn attend_map_with(
    m: Map<StoreKey, PowerSize>,
    app: u64,
    aov: Option<(u64, u64)>,
) -> Map<StoreKey, PowerSize> {
    match aov {
        Some(o) => m.insert(key2(o.0, app), o.1),
        None => m,
    }
}

pub open spec fn with_overrides(
    v: KpView,
    app: u64,
    pov: Option<(u64, DocumentPower)>,
    aov: Option<(u64, u64)>,
) -> KpView {
    KpView {
        document_power: power_map_with(v.document_power, app, pov),
        account_attend_power: attend_map_with(v.account_attend_power, app, aov),
        ..v
    }
}

/// The propagation plan reads only the power stores, the indices and the
/// totals; two views that agree there plan alike.
proof fn lemma_account_plan_same_reads(a: KpView, b: KpView, doc: KPDocumentData)
    requires
        a.document_power == b.document_power,
        a.cart_try_index == b.cart_try_index,
        a.cart_identify_index == b.cart_identify_index,
        a.product_index == b.product_index,
        a.account_attend_power == b.account_attend_power,
        a.purchase_power == b.purchase_power,
        a.miner_power == b.miner_power,
        a.total_power == b.total_power,
    ensures
        account_plan_spec(a, doc) == account_plan_spec(b, doc),
{
    assert(propagate_power_sum(a, doc) == propagate_power_sum(b, doc));
}

/// The state after a publish document was created.
pub open spec fn create_publish_spec(
    v: KpView,
    app_id: u64,
    document_id: u64,
    model_id: u64,
    product_id: u64,
    data: KPProductPublishData,
    owner: u64,
) -> (KpView, Result<(), Error>) {
    let dk = key2(app_id, document_id);
    let pk = key2(app_id, product_id);
    let mk = key2(app_id, model_id);
    if v.document_data.contains_key(dk) {
        (v, Err(Error::DocumentAlreadyExisted))
    } else if v.product_index.contains_key(pk) {
        (v, Err(Error::ProductAlreadyExisted))
    } else if !v.model_data.contains_key(mk) {
        (v, Err(Error::ModelNotFound))
    } else {
        let doc = new_document(app_id, document_id, model_id, product_id, owner,
            DocumentType::ProductPublish, DocumentSpecificData::ProductPublish(data));
        let v1 = apply_content(v, doc);
        (
            KpView {
                document_data: v1.document_data.insert(dk, doc),
                product_index: v1.product_index.insert(pk, document_id),
                ..v1
            },
            Ok(()),
        )
    }
}

/// The state after an identify document was created: content power, then
/// propagation over its cart, then the cart index and the record itself.
pub open spec fn create_identify_spec(
    v: KpView,
    app_id: u64,
    document_id: u64,
    model_id: u64,
    product_id: u64,
    data: KPProductIdentifyData,
    owner: u64,
) -> (KpView, Result<(), Error>) {
    let dk = key2(app_id, document_id);
    if v.document_data.contains_key(dk) {
        (v, Err(Error::DocumentAlreadyExisted))
    } else {
        let doc = new_document(app_id, document_id, model_id, product_id, owner,
            DocumentType::ProductIdentify, DocumentSpecificData::ProductIdentify(data));
        let v1 = apply_content(v, doc);
        match account_plan_spec(v1, doc) {
            Err(e) => (v, Err(e)),
            Ok(ap) => {
                let v2 = apply_account_plan_spec(v1, doc, ap);
                (
                    KpView {
                        cart_identify_index: v2.cart_identify_index.insert(key2(app_id,
                            data.cart_id), document_id),
                        document_data: v2.document_data.insert(dk, doc),
                        ..v2
                    },
                    Ok(()),
                )
            },
        }
    }
}

/// The state after a try document was created; the mirror image of
/// [`create_identify_spec`] over the try index.
pub open spec fn create_try_spec(
    v: KpView,
    app_id: u64,
    document_id: u64,
    model_id: u64,
    product_id: u64,
    data: KPProductTryData,
    owner: u64,
) -> (KpView, Result<(), Error>) {
    let dk = key2(app_id, document_id);
    if v.document_data.contains_key(dk) {
        (v, Err(Error::DocumentAlreadyExisted))
    } else {
        let doc = new_document(app_id, document_id, model_id, product_id, owner,
            DocumentType::ProductTry, DocumentSpecificData::ProductTry(data));
        let v1 = apply_content(v, doc);
        match account_plan_spec(v1, doc) {
            Err(e) => (v, Err(e)),
            Ok(ap) => {
                let v2 = apply_account_plan_spec(v1, doc, ap);
                (
                    KpView {
                        cart_try_index: v2.cart_try_index.insert(key2(app_id, data.cart_id),
                            document_id),
                        document_data: v2.document_data.insert(dk, doc),
                        ..v2
                    },
                    Ok(()),
                )
            },
        }
    }
}

/// The state after a choose document was created.
pub open spec fn create_choose_spec(
    v: KpView,
    app_id: u64,
    document_id: u64,
    model_id: u64,
    product_id: u64,
    data: KPProductChooseData,
    owner: u64,
) -> (KpView, Result<(), Error>) {
    let dk = key2(app_id, document_id);
    if v.document_data.contains_key(dk) {
        (v, Err(Error::DocumentAlreadyExisted))
    } else {
        let doc = new_document(app_id, document_id, model_id, product_id, owner,
            DocumentType::ProductChoose, DocumentSpecificData::ProductChoose(data));
        let v1 = apply_content(v, doc);
        (KpView { document_data: v1.document_data.insert(dk, doc), ..v1 }, Ok(()))
    }
}

/// The state after a model-create document was created.
pub open spec fn create_model_create_spec(
    v: KpView,
    app_id: u64,
    document_id: u64,
    model_id: u64,
    product_id: u64,
    data: KPModelCreateData,
    owner: u64,
) -> (KpView, Result<(), Error>) {
    let dk = key2(app_id, document_id);
    if v.document_data.contains_key(dk) {
        (v, Err(Error::DocumentAlreadyExisted))
    } else {
        let doc = new_document(app_id, document_id, model_id, product_id, owner,
            DocumentType::ModelCreate, DocumentSpecificData::ModelCreate(data));
        let v1 = apply_content(v, doc);
        (KpView { document_data: v1.document_data.insert(dk, doc), ..v1 }, Ok(()))
    }
}

/// The record of a document that was never created; commenting on one is
/// rejected before this default is ever stored.
pub open spec fn default_document() -> KPDocumentData {
    KPDocumentData {
        app_id: 0,
        document_id: 0,
        model_id: 0,
        product_id: 0,
        owner: 0,
        document_type: DocumentType::ProductPublish,
        document_data: DocumentSpecificData::ProductPublish(KPProductPublishData {
            para_issue_rate: 0,
            self_issue_rate: 0,
        }),
        comment_count: 0,
        comment_total_fee: 0,
        comment_positive_count: 0,
        expert_trend: CommentTrend::Empty,
        platform_trend: CommentTrend::Empty,
    }
}

/// The trend a comment's wire code stands for.
pub open spec fn trend_from_code(c: u8) -> CommentTrend {
    if c == 0 {
        CommentTrend::Positive
    } else if c == 1 {
        CommentTrend::Negative
    } else {
        CommentTrend::Empty
    }
}

/// The (account attend, comment power, document top) weight triple a
/// comment on a document of the given type is scored with; a type without
/// comment semantics contributes zero weights.
pub open spec fn comment_weights(cfg: WeightConfig, t: DocumentType) -> (u64, u64, u64) {
    match t {
        DocumentType::ProductPublish => (
            cfg.top_weight_account_attend as u64,
            cfg.document_power_weight_attend as u64,
            cfg.top_weight_product_publish as u64,
        ),
        DocumentType::ProductIdentify => (
            cfg.top_weight_account_attend as u64,
            cfg.document_power_weight_attend as u64,
            cfg.top_weight_document_identify as u64,
        ),
        DocumentType::ProductTry => (
            cfg.top_weight_account_attend as u64,
            cfg.document_power_weight_attend as u64,
            cfg.top_weight_document_try as u64,
        ),
        DocumentType::ProductChoose => (
            cfg.cm_power_account_attend as u64,
            cfg.document_cm_power_weight_attend as u64,
            100,
        ),
        DocumentType::ModelCreate => (
            cfg.cm_power_account_attend as u64,
            cfg.document_cm_power_weight_attend as u64,
            100,
        ),
        DocumentType::Unknown => (0, 0, 0),
    }
}

/// The (judge, top) weight pair the judge power of a document of the
/// given type is scaled by; a type without comment semantics contributes
/// zero weights.
pub open spec fn judge_weights(cfg: WeightConfig, t: DocumentType) -> (u64, u64) {
    match t {
        DocumentType::ProductPublish => (
            cfg.document_power_weight_judge as u64,
            cfg.top_weight_product_publish as u64,
        ),
        DocumentType::ProductIdentify => (
            cfg.document_power_weight_judge as u64,
            cfg.top_weight_document_identify as u64,
        ),
        DocumentType::ProductTry => (
            cfg.document_power_weight_judge as u64,
            cfg.top_weight_document_try as u64,
        ),
        DocumentType::ProductChoose => (cfg.document_cm_power_weight_judge as u64, 100),
        DocumentType::ModelCreate => (cfg.document_cm_power_weight_judge as u64, 100),
        DocumentType::Unknown => (0, 0),
    }
}

/// Everything one comment event computes before any write: the raised
/// account and document statistics and maxima, both attend powers, the
/// final document record with any freshly set trend slot (whose judge
/// power is recomputed through the type's judge and top weights), and the
/// document-power entry to store.
#[derive(Clone, Copy, PartialEq, Eq, Structural, Debug)]
pub struct CommentPlan {
    pub account_record: KPCommentAccountRecord,
    pub doc_final: KPDocumentData,
    pub account_max: CommentMaxRecord,
    pub account_max_updated: bool,
    pub doc_max: CommentMaxRecord,
    pub doc_max_updated: bool,
    pub account_attend: u64,
    pub doc_attend: u64,
    pub new_doc_power: DocumentPower,
}

/// The plan one comment event produces, or the overflow that rejects it.
#[verifier::opaque]
pub open spec fn comment_plan_spec(
    v: KpView,
    comment: KPCommentData,
    is_expert: bool,
    is_platform: bool,
) -> Result<CommentPlan, Error> {
    let cfg = v.config;
    let app = comment.app_id;
    let dk = key2(app, comment.document_id);
    let doc0 = if v.document_data.contains_key(dk) {
        v.document_data[dk]
    } else {
        default_document()
    };
    let acct0 = or_default_car(v.comment_account_record, key2(app, comment.owner));
    let positive = comment.comment_trend == 0;
    if acct0.count + 1 > u64::MAX || acct0.fees + comment.comment_fee > u64::MAX || (positive
        && acct0.positive_count + 1 > u64::MAX) || doc0.comment_count + 1 > u64::MAX
        || doc0.comment_total_fee + comment.comment_fee > u64::MAX || (positive
        && doc0.comment_positive_count + 1 > u64::MAX) {
        Err(Error::AddOverflow)
    } else {
        let acct1 = KPCommentAccountRecord {
            count: (acct0.count + 1) as u64,
            fees: (acct0.fees + comment.comment_fee) as u64,
            positive_count: if positive {
                (acct0.positive_count + 1) as u64
            } else {
                acct0.positive_count
            },
        };
        let doc1 = KPDocumentData {
            comment_count: (doc0.comment_count + 1) as u64,
            comment_total_fee: (doc0.comment_total_fee + comment.comment_fee) as u64,
            comment_positive_count: if positive {
                (doc0.comment_positive_count + 1) as u64
            } else {
                doc0.comment_positive_count
            },
            ..doc0
        };
        let a_unit = acct1.fees / acct1.count;
        let amax0 = or_default_cmr(v.comment_max_per_account, key1(app));
        let amax1 = CommentMaxRecord {
            max_count: raised_max(acct1.count, amax0.max_count),
            max_fee: raised_max(acct1.fees, amax0.max_fee),
            max_positive: raised_max(acct1.positive_count, amax0.max_positive),
            max_unit_fee: raised_max(a_unit, amax0.max_unit_fee),
        };
        let a_updated = acct1.count > amax0.max_count || acct1.fees > amax0.max_fee
            || acct1.positive_count > amax0.max_positive || a_unit > amax0.max_unit_fee;
        let w = comment_weights(cfg, doc1.document_type);
        let account_attend = four_rate_power(scaled_rate(acct1.count, amax1.max_count),
            cfg.comment_power_weight_count as int, scaled_rate(acct1.fees, amax1.max_fee),
            cfg.comment_power_weight_cost as int, scaled_rate(a_unit, amax1.max_unit_fee),
            cfg.comment_power_weight_per_cost as int,
            scaled_rate(acct1.positive_count, amax1.max_positive),
            cfg.comment_power_weight_positive as int, 100, w.0 as int);
        let d_unit = doc1.comment_total_fee / doc1.comment_count;
        let dmax0 = or_default_cmr(v.comment_max_per_doc, key1(app));
        let dmax1 = CommentMaxRecord {
            max_count: raised_max(doc1.comment_count, dmax0.max_count),
            max_fee: raised_max(doc1.comment_total_fee, dmax0.max_fee),
            max_positive: raised_max(doc1.comment_positive_count, dmax0.max_positive),
            max_unit_fee: raised_max(d_unit, dmax0.max_unit_fee),
        };
        let d_updated = doc1.comment_count > dmax0.max_count || doc1.comment_total_fee
            > dmax0.max_fee || doc1.comment_positive_count > dmax0.max_positive || d_unit
            > dmax0.max_unit_fee;
        let doc_attend = four_rate_power(scaled_rate(doc1.comment_count, dmax1.max_count),
            cfg.comment_power_weight_count as int,
            scaled_rate(doc1.comment_total_fee, dmax1.max_fee),
            cfg.comment_power_weight_cost as int, scaled_rate(d_unit, dmax1.max_unit_fee),
            cfg.comment_power_weight_per_cost as int,
            scaled_rate(doc1.comment_positive_count, dmax1.max_positive),
            cfg.comment_power_weight_positive as int, w.1 as int, w.2 as int);
        let ct = trend_from_code(comment.comment_trend);
        let expert_set = doc1.expert_trend == CommentTrend::Empty && is_expert;
        let doc2 = if expert_set {
            KPDocumentData { expert_trend: ct, ..doc1 }
        } else {
            doc1
        };
        let platform_set = doc2.platform_trend == CommentTrend::Empty && is_platform;
        let doc3 = if platform_set {
            KPDocumentData { platform_trend: ct, ..doc2 }
        } else {
            doc2
        };
        let judge_updated = expert_set || platform_set;
        let jw = judge_weights(cfg, doc3.document_type);
        let judge_val = judge_power_value(trend_weight(doc3.expert_trend, doc3.platform_trend)
            as int, jw.0 as int, jw.1 as int) as u64;
        let p0 = or_default_power(v.document_power, dk);
        let new_doc_power = DocumentPower {
            attend: doc_attend as u64,
            content: p0.content,
            judge: if judge_updated {
                judge_val
            } else {
                p0.judge
            },
        };
        Ok(CommentPlan {
            account_record: acct1,
            doc_final: doc3,
            account_max: amax1,
            account_max_updated: a_updated,
            doc_max: dmax1,
            doc_max_updated: d_updated,
            account_attend: account_attend as u64,
            doc_attend: doc_attend as u64,
            new_doc_power,
        })
    }
}

/// The state after a comment plan's writes: the document and account
/// records, the maxima where they grew, both attend powers, and the
/// document's power entry.
pub open spec fn apply_comment_plan_spec(
    v: KpView,
    comment: KPCommentData,
    p: CommentPlan,
) -> KpView {
    let app = comment.app_id;
    let dk = key2(app, comment.document_id);
    KpView {
        document_data: v.document_data.insert(dk, p.doc_final),
        comment_account_record: v.comment_account_record.insert(key2(app, comment.owner),
            p.account_record),
        comment_max_per_account: if p.account_max_updated {
            v.comment_max_per_account.insert(key1(app), p.account_max)
        } else {
            v.comment_max_per_account
        },
        comment_max_per_doc: if p.doc_max_updated {
            v.comment_max_per_doc.insert(key1(app), p.doc_max)
        } else {
            v.comment_max_per_doc
        },
        account_attend_power: v.account_attend_power.insert(key2(comment.owner, app),
            p.account_attend),
        document_power: v.document_power.insert(dk, p.new_doc_power),
        ..v
    }
}

/// One full comment-power run.
pub open spec fn apply_comment_power(
    v: KpView,
    comment: KPCommentData,
    is_expert: bool,
    is_platform: bool,
) -> (KpView, Result<(), Error>) {
    match comment_plan_spec(v, comment, is_expert, is_platform) {
        Err(e) => (v, Err(e)),
        Ok(p) => (apply_comment_plan_spec(v, comment, p), Ok(())),
    }
}

/// The state after a comment was created: the comment-power run over its
/// document and account, then, for identify and try documents, a
/// propagation run over the updated document, then the comment record.
pub open spec fn create_comment_spec(
    v: KpView,
    app_id: u64,
    comment_id: u64,
    document_id: u64,
    comment_fee: u64,
    comment_trend: u8,
    owner: u64,
    is_expert: bool,
    is_platform: bool,
) -> (KpView, Result<(), Error>) {
    let ck = key2(app_id, comment_id);
    let dk = key2(app_id, document_id);
    if v.comment_data.contains_key(ck) {
        (v, Err(Error::CommentAlreadyExisted))
    } else if !v.document_data.contains_key(dk) {
        (v, Err(Error::DocumentNotFound))
    } else {
        let comment = KPCommentData {
            app_id,
            document_id,
            comment_id,
            comment_fee,
            comment_trend,
            owner,
        };
        match comment_plan_spec(v, comment, is_expert, is_platform) {
            Err(e) => (v, Err(e)),
            Ok(plan) => {
                let v1 = apply_comment_plan_spec(v, comment, plan);
                if plan.doc_final.document_type == DocumentType::ProductIdentify
                    || plan.doc_final.document_type == DocumentType::ProductTry {
                    match account_plan_spec(v1, plan.doc_final) {
                        Err(e) => (v, Err(e)),
                        Ok(ap) => {
                            let v2 = apply_account_plan_spec(v1, plan.doc_final, ap);
                            (
                                KpView { comment_data: v2.comment_data.insert(ck, comment), ..v2 },
                                Ok(()),
                            )
                        },
                    }
                } else {
                    (KpView { comment_data: v1.comment_data.insert(ck, comment), ..v1 }, Ok(()))
                }
            },
        }
    }
}

/// The state a cart's slash leaves behind: the snapshot is zeroed and the
/// owner's total is reduced by it, clamped at zero; a zero snapshot changes
/// nothing.  The global total is deliberately untouched.
pub open spec fn slash_spec(v: KpView, app_id: u64, cart_id: u64, owner: u64) -> KpView {
    let pk = key2(app_id, cart_id);
    let snap = or_zero(v.purchase_power, pk);
    if snap == 0 {
        v
    } else {
        let mk = key1(owner);
        let miner0 = or_zero(v.miner_power, mk);
        let reduced: u64 = if miner0 >= snap {
            (miner0 - snap) as u64
        } else {
            0
        };
        KpView {
            purchase_power: v.purchase_power.insert(pk, 0),
            miner_power: v.miner_power.insert(mk, reduced),
            ..v
        }
    }
}

impl Kp {
    /// Every record store is well formed and the configuration holds
    /// percent weights.
    pub open spec fn maps_wf(&self) -> bool {
        &&& self.config.wf()
        &&& self.model_data.wf()
        &&& self.comment_account_record.wf()
        &&& self.purchase_power.wf()
        &&& self.document_data.wf()
        &&& self.document_power.wf()
        &&& self.product_index.wf()
        &&& self.cart_identify_index.wf()
        &&& self.cart_try_index.wf()
        &&& self.comment_data.wf()
        &&& self.miner_power.wf()
        &&& self.account_attend_power.wf()
        &&& self.comment_max_per_doc.wf()
        &&& self.comment_max_per_account.wf()
        &&& self.publish_max.wf()
        &&& self.identify_max.wf()
        &&& self.try_max.wf()
        &&& self.choose_max.wf()
        &&& self.model_create_max.wf()
        &&& self.commodity_type_map.wf()
        &&& self.model_first_type_benefit.wf()
        &&& self.app_model_total.wf()
        &&& self.app_model_count.wf()
        &&& self.model_year_income.wf()
        &&& self.app_year_income_total.wf()
    }

    /// Well-formed engine: stores intact and the state invariant holds.
    pub open spec fn wf(&self) -> bool {
        self.maps_wf() && inv(self@)
    }

    /// An engine with the given weights and no recorded state.
    pub fn new(config: WeightConfig) -> (r: Kp)
        requires
            config.wf(),
        ensures
            r.wf(),
            r@.config == config,
            r@.total_power == 0,
            r@.model_data == Map::<StoreKey, KPModelData>::empty(),
            r@.comment_account_record == Map::<StoreKey, KPCommentAccountRecord>::empty(),
            r@.purchase_power == Map::<StoreKey, PowerSize>::empty(),
            r@.document_data == Map::<StoreKey, KPDocumentData>::empty(),
            r@.document_power == Map::<StoreKey, DocumentPower>::empty(),
            r@.product_index == Map::<StoreKey, u64>::empty(),
            r@.cart_identify_index == Map::<StoreKey, u64>::empty(),
            r@.cart_try_index == Map::<StoreKey, u64>::empty(),
            r@.comment_data == Map::<StoreKey, KPCommentData>::empty(),
            r@.miner_power == Map::<StoreKey, PowerSize>::empty(),
            r@.account_attend_power == Map::<StoreKey, PowerSize>::empty(),
            r@.comment_max_per_doc == Map::<StoreKey, CommentMaxRecord>::empty(),
            r@.comment_max_per_account == Map::<StoreKey, CommentMaxRecord>::empty(),
            r@.publish_max == Map::<StoreKey, KPProductPublishRateMax>::empty(),
            r@.identify_max == Map::<StoreKey, KPProductIdentifyRateMax>::empty(),
            r@.try_max == Map::<StoreKey, KPProductTryRateMax>::empty(),
            r@.choose_max == Map::<StoreKey, KPProductChooseDataMax>::empty(),
            r@.model_create_max == Map::<StoreKey, KPModelCreateDataMax>::empty(),
            r@.commodity_type_sets == Seq::<CommodityTypeData>::empty(),
            r@.commodity_type_map == Map::<StoreKey, Seq<u8>>::empty(),
            r@.model_first_type_benefit == Map::<StoreKey, bool>::empty(),
            r@.app_model_total == Map::<StoreKey, u32>::empty(),
            r@.app_model_count == Map::<StoreKey, u32>::empty(),
            r@.model_year_income == Map::<StoreKey, u64>::empty(),
            r@.app_year_income_total == Map::<StoreKey, u64>::empty(),
    {
        let r = Kp {
            config,
            model_data: KvMap::new(),
            comment_account_record: KvMap::new(),
            purchase_power: KvMap::new(),
            document_data: KvMap::new(),
            document_power: KvMap::new(),
            product_index: KvMap::new(),
            cart_identify_index: KvMap::new(),
            cart_try_index: KvMap::new(),
            comment_data: KvMap::new(),
            total_power: 0,
            miner_power: KvMap::new(),
            account_attend_power: KvMap::new(),
            comment_max_per_doc: KvMap::new(),
            comment_max_per_account: KvMap::new(),
            publish_max: KvMap::new(),
            identify_max: KvMap::new(),
            try_max: KvMap::new(),
            choose_max: KvMap::new(),
            model_create_max: KvMap::new(),
            commodity_type_sets: Vec::new(),
            commodity_type_map: KvMap::new(),
            model_first_type_benefit: KvMap::new(),
            app_model_total: KvMap::new(),
            app_model_count: KvMap::new(),
            model_year_income: KvMap::new(),
            app_year_income_total: KvMap::new(),
        };
        proof {
            assert(r@.commodity_type_map =~= Map::<StoreKey, Seq<u8>>::empty());
        }
        r
    }

    /// Global total power.
    pub fn kp_total_power(&self) -> (r: PowerSize)
        ensures
            r == self@.total_power,
    {
        self.total_power
    }

    /// Total power of one account.
    pub fn kp_account_power(&self, account: u64) -> (r: PowerSize)
        requires
            self.wf(),
        ensures
            r == or_zero(self@.miner_power, key1(account)),
    {
        match self.miner_power.get(StoreKey { k1: account, k2: 0, k3: 0 }) {
            Some(p) => *p,
            None => 0,
        }
    }

    /// Total power of an account named by its application-side identity;
    /// in this engine both sides share one account space.
    pub fn kp_auth_account_power(&self, account: u64) -> (r: PowerSize)
        requires
            self.wf(),
        ensures
            r == or_zero(self@.miner_power, key1(account)),
    {
        self.kp_account_power(account)
    }

    /// Last computed purchase power of a cart.
    pub fn kp_commodity_power(&self, app_id: u64, cart_id: u64) -> (r: PowerSize)
        requires
            self.wf(),
        ensures
            r == or_zero(self@.purchase_power, key2(app_id, cart_id)),
    {
        match self.purchase_power.get(StoreKey { k1: app_id, k2: cart_id, k3: 0 }) {
            Some(p) => *p,
            None => 0,
        }
    }

    /// Whether a cart ever had purchase power recorded.
    pub fn is_commodity_power_exist(&self, app_id: u64, cart_id: u64) -> (r: bool)
        requires
            self.wf(),
        ensures
            r == self@.purchase_power.contains_key(key2(app_id, cart_id)),
    {
        self.purchase_power.contains(StoreKey { k1: app_id, k2: cart_id, k3: 0 })
    }

    /// Power components of a document, all zero when none were recorded.
    pub fn kp_document_power(&self, app_id: u64, document_id: u64) -> (r: DocumentPower)
        requires
            self.wf(),
        ensures
            r == or_default_power(self@.document_power, key2(app_id, document_id)),
    {
        match self.document_power.get(StoreKey { k1: app_id, k2: document_id, k3: 0 }) {
            Some(p) => *p,
            None => DocumentPower { attend: 0, content: 0, judge: 0 },
        }
    }

    /// Attend power an account has earned within one tenant.
    pub fn kp_account_attend_power(&self, app_id: u64, account: u64) -> (r: PowerSize)
        requires
            self.wf(),
        ensures
            r == or_zero(self@.account_attend_power, key2(account, app_id)),
    {
        match self.account_attend_power.get(StoreKey { k1: account, k2: app_id, k3: 0 }) {
            Some(p) => *p,
            None => 0,
        }
    }

    /// The stored record of a model, if it was created.
    pub fn kp_model_data_by_idhash(&self, app_id: u64, model_id: u64) -> (r: Option<&KPModelData>)
        requires
            self.wf(),
        ensures
            match r {
                Some(m) => self@.model_data.contains_key(key2(app_id, model_id)) && *m
                    == self@.model_data[key2(app_id, model_id)],
                None => !self@.model_data.contains_key(key2(app_id, model_id)),
            },
    {
        self.model_data.get(StoreKey { k1: app_id, k2: model_id, k3: 0 })
    }

    /// The stored record of a document, if it was created.
    pub fn kp_document_data_by_idhash(&self, app_id: u64, document_id: u64) -> (r: Option<
        &KPDocumentData,
    >)
        requires
            self.wf(),
        ensures
            match r {
                Some(d) => self@.document_data.contains_key(key2(app_id, document_id)) && *d
                    == self@.document_data[key2(app_id, document_id)],
                None => !self@.document_data.contains_key(key2(app_id, document_id)),
            },
    {
        self.document_data.get(StoreKey { k1: app_id, k2: document_id, k3: 0 })
    }

    /// The stored record of a comment, if it was created.
    pub fn kp_comment_data_by_idhash(&self, app_id: u64, comment_id: u64) -> (r: Option<
        &KPCommentData,
    >)
        requires
            self.wf(),
        ensures
            match r {
                Some(c) => self@.comment_data.contains_key(key2(app_id, comment_id)) && *c
                    == self@.comment_data[key2(app_id, comment_id)],
                None => !self@.comment_data.contains_key(key2(app_id, comment_id)),
            },
    {
        self.comment_data.get(StoreKey { k1: app_id, k2: comment_id, k3: 0 })
    }

    /// An account's running comment statistics within one tenant.
    pub fn kp_comment_account_record_map(&self, app_id: u64, account: u64) -> (r:
        KPCommentAccountRecord)
        requires
            self.wf(),
        ensures
            r == or_default_car(self@.comment_account_record, key2(app_id, account)),
    {
        match self.comment_account_record.get(StoreKey { k1: app_id, k2: account, k3: 0 }) {
            Some(a) => *a,
            None => KPCommentAccountRecord { count: 0, fees: 0, positive_count: 0 },
        }
    }

    /// A tenant's document-scope comment maxima.
    pub fn comment_max_info_per_doc_map(&self, app_id: u64) -> (r: CommentMaxRecord)
        requires
            self.wf(),
        ensures
            r == or_default_cmr(self@.comment_max_per_doc, key1(app_id)),
    {
        match self.comment_max_per_doc.get(StoreKey { k1: app_id, k2: 0, k3: 0 }) {
            Some(m) => *m,
            None => CommentMaxRecord { max_count: 0, max_fee: 0, max_positive: 0, max_unit_fee: 0 },
        }
    }

    /// A tenant's account-scope comment maxima.
    pub fn comment_max_info_per_account_map(&self, app_id: u64) -> (r: CommentMaxRecord)
        requires
            self.wf(),
        ensures
            r == or_default_cmr(self@.comment_max_per_account, key1(app_id)),
    {
        match self.comment_max_per_account.get(StoreKey { k1: app_id, k2: 0, k3: 0 }) {
            Some(m) => *m,
            None => CommentMaxRecord { max_count: 0, max_fee: 0, max_positive: 0, max_unit_fee: 0 },
        }
    }

    /// The registered commodity types, in ascending type-id order.
    pub fn kp_get_commodity_types(&self) -> (r: &Vec<CommodityTypeData>)
        ensures
            r@ == self@.commodity_type_sets,
    {
        &self.commodity_type_sets
    }

    /// Zeroes a cart's purchase-power snapshot and deducts it from the
    /// owner's total power, clamped at zero.  A zero snapshot is a no-op.
    pub fn slash_power(&mut self, app_id: u64, cart_id: u64, owner: u64)
        requires
            old(self).wf(),
        ensures
            final(self).wf(),
            final(self)@ == slash_spec(old(self)@, app_id, cart_id, owner),
    {
        let pk = StoreKey { k1: app_id, k2: cart_id, k3: 0 };
        let cart_power = match self.purchase_power.get(pk) {
            Some(p) => *p,
            None => 0,
        };
        if cart_power > 0 {
            self.purchase_power.insert(pk, 0);
            let mk = StoreKey { k1: owner, k2: 0, k3: 0 };
            let miner0 = match self.miner_power.get(mk) {
                Some(p) => *p,
                None => 0,
            };
            let reduced = if miner0 >= cart_power {
                miner0 - cart_power
            } else {
                0
            };
            self.miner_power.insert(mk, reduced);
            proof {
                assert(self@ =~= slash_spec(old(self)@, app_id, cart_id, owner));
            }
        }
    }

    /// Looks up a comment, resolves its document's owner, and slashes the
    /// given cart of that owner.
    pub fn democracy_slash_commodity_power(
        &mut self,
        app_id: u64,
        cart_id: u64,
        comment_id: u64,
    ) -> (r: Result<(), Error>)
        requires
            old(self).wf(),
        ensures
            final(self).wf(),
            ({
                let ck = key2(app_id, comment_id);
                if !old(self)@.comment_data.contains_key(ck) {
                    r == Err::<(), Error>(Error::CommentNotFound) && final(self)@ == old(self)@
                } else {
                    let dk = key2(app_id, old(self)@.comment_data[ck].document_id);
                    if !old(self)@.document_data.contains_key(dk) {
                        r == Err::<(), Error>(Error::DocumentNotFound) && final(self)@ == old(
                            self)@
                    } else {
                        r == Ok::<(), Error>(()) && final(self)@ == slash_spec(old(self)@, app_id,
                            cart_id, old(self)@.document_data[dk].owner)
                    }
                }
            }),
    {
        let ck = StoreKey { k1: app_id, k2: comment_id, k3: 0 };
        let document_id = match self.comment_data.get(ck) {
            Some(c) => c.document_id,
            None => {
                return Err(Error::CommentNotFound);
            },
        };
        let dk = StoreKey { k1: app_id, k2: document_id, k3: 0 };
        let owner = match self.document_data.get(dk) {
            Some(d) => d.owner,
            None => {
                return Err(Error::DocumentNotFound);
            },
        };
        self.slash_power(app_id, cart_id, owner);
        Ok(())
    }

    /// Records a tenant's model capacity.
    pub fn set_app_model_total(&mut self, app_id: u64, total: u32)
        requires
            old(self).wf(),
        ensures
            final(self).wf(),
            final(self)@ == (KpView {
                app_model_total: old(self)@.app_model_total.insert(key1(app_id), total),
                ..old(self)@
            }),
    {
        self.app_model_total.insert(StoreKey { k1: app_id, k2: 0, k3: 0 }, total);
        proof {
            assert(self@ =~= (KpView {
                app_model_total: old(self)@.app_model_total.insert(key1(app_id), total),
                ..old(self)@
            }));
        }
    }

    /// Declares a model's income for one year and adds it to that year's
    /// total.  The caller resolves whether the sender administers the
    /// tenant and passes the verdict in.
    pub fn set_model_year_income(
        &mut self,
        is_app_admin: bool,
        year: u32,
        app_id: u64,
        model_id: u64,
        income: u64,
    ) -> (r: Result<(), Error>)
        requires
            old(self).wf(),
        ensures
            final(self).wf(),
            ({
                let ik = key3(year as u64, app_id, model_id);
                let yk = key1(year as u64);
                let total0 = or_zero(old(self)@.app_year_income_total, yk);
                if !is_app_admin {
                    r == Err::<(), Error>(Error::NotAppAdmin) && final(self)@ == old(self)@
                } else if old(self)@.model_year_income.contains_key(ik) {
                    r == Err::<(), Error>(Error::ModelYearIncomeAlreadyExisted) && final(self)@
                        == old(self)@
                } else if total0 + income > u64::MAX {
                    r == Err::<(), Error>(Error::AddOverflow) && final(self)@ == old(self)@
                } else {
                    r == Ok::<(), Error>(()) && final(self)@ == (KpView {
                        model_year_income: old(self)@.model_year_income.insert(ik, income),
                        app_year_income_total: old(self)@.app_year_income_total.insert(yk,
                            (total0 + income) as u64),
                        ..old(self)@
                    })
                }
            }),
    {
        if !is_app_admin {
            return Err(Error::NotAppAdmin);
        }
        let ik = StoreKey { k1: year as u64, k2: app_id, k3: model_id };
        if self.model_year_income.contains(ik) {
            return Err(Error::ModelYearIncomeAlreadyExisted);
        }
        let yk = StoreKey { k1: year as u64, k2: 0, k3: 0 };
        let total0 = match self.app_year_income_total.get(yk) {
            Some(t) => *t,
            None => 0,
        };
        let total1 = match total0.checked_add(income) {
            Some(t) => t,
            None => {
                return Err(Error::AddOverflow);
            },
        };
        self.app_year_income_total.insert(yk, total1);
        self.model_year_income.insert(ik, income);
        proof {
            assert(self@ =~= (KpView {
                model_year_income: old(self)@.model_year_income.insert(key3(year as u64, app_id,
                    model_id), income),
                app_year_income_total: old(self)@.app_year_income_total.insert(key1(year as u64),
                    total1),
                ..old(self)@
            }));
        }
        Ok(())
    }

    /// Registers a model for a tenant, charging it against the tenant's
    /// model capacity and marking the first model of its commodity type.
    pub fn create_model(
        &mut self,
        app_id: u64,
        model_id: u64,
        expert_id: u64,
        commodity_name: Vec<u8>,
        commodity_type: u32,
        owner: u64,
    ) -> (r: Result<(), Error>)
        requires
            old(self).wf(),
        ensures
            final(self).wf(),
            ({
                let (v2, res) = create_model_spec(old(self)@, app_id, model_id, expert_id,
                    commodity_name, commodity_type, owner);
                final(self)@ == v2 && r == res
            }),
    {
        let mk = StoreKey { k1: app_id, k2: model_id, k3: 0 };
        if self.model_data.contains(mk) {
            return Err(Error::ModelAlreadyExisted);
        }
        if !self.commodity_type_map.contains(StoreKey { k1: commodity_type as u64, k2: 0, k3: 0 }) {
            return Err(Error::ModelTypeInvalid);
        }
        let ck = StoreKey { k1: app_id, k2: 0, k3: 0 };
        let count = match self.app_model_count.get(ck) {
            Some(c) => *c,
            None => 0,
        };
        let total = match self.app_model_total.get(ck) {
            Some(t) => *t,
            None => 0,
        };
        if !(count < total) {
            return Err(Error::ModelOverSizeLimit);
        }
        let model = KPModelData {
            app_id,
            model_id,
            expert_id,
            status: ModelStatus::ENABLED,
            commodity_name,
            commodity_type,
            owner,
        };
        self.model_data.insert(mk, model);
        self.app_model_count.insert(ck, count + 1);
        let tk = StoreKey { k1: app_id, k2: commodity_type as u64, k3: 0 };
        if !self.model_first_type_benefit.contains(tk) {
            self.model_first_type_benefit.insert(tk, true);
        }
        proof {
            let (v2, res) = create_model_spec(old(self)@, app_id, model_id, expert_id,
                model.commodity_name, commodity_type, owner);
            assert(self@ =~= v2);
        }
        Ok(())
    }

    /// Disables a model; the transition is one way.
    pub fn disable_model(&mut self, app_id: u64, model_id: u64) -> (r: Result<(), Error>)
        requires
            old(self).wf(),
        ensures
            final(self).wf(),
            ({
                let mk = key2(app_id, model_id);
                if !old(self)@.model_data.contains_key(mk) {
                    r == Err::<(), Error>(Error::ModelNotFound) && final(self)@ == old(self)@
                } else {
                    r == Ok::<(), Error>(()) && final(self)@ == (KpView {
                        model_data: old(self)@.model_data.insert(mk, KPModelData {
                            status: ModelStatus::DISABLED,
                            ..old(self)@.model_data[mk]
                        }),
                        ..old(self)@
                    })
                }
            }),
    {
        let mk = StoreKey { k1: app_id, k2: model_id, k3: 0 };
        let model = match self.model_data.remove(mk) {
            Some(m) => m,
            None => {
                return Err(Error::ModelNotFound);
            },
        };
        let disabled = KPModelData { status: ModelStatus::DISABLED, ..model };
        self.model_data.insert(mk, disabled);
        proof {
            assert(self@.model_data =~= old(self)@.model_data.insert(mk, KPModelData {
                status: ModelStatus::DISABLED,
                ..old(self)@.model_data[mk]
            }));
            assert(self@ =~= (KpView {
                model_data: old(self)@.model_data.insert(mk, KPModelData {
                    status: ModelStatus::DISABLED,
                    ..old(self)@.model_data[mk]
                }),
                ..old(self)@
            }));
        }
        Ok(())
    }

    /// Registers a commodity type under a fresh type id, keeping the
    /// registry sorted by type id.
    pub fn create_commodity_type(&mut self, type_id: u32, type_desc: Vec<u8>) -> (r: Result<
        (),
        Error,
    >)
        requires
            old(self).wf(),
        ensures
            final(self).wf(),
            ({
                if old(self)@.commodity_type_map.contains_key(key1(type_id as u64)) {
                    r == Err::<(), Error>(Error::CommodityTypeExisted) && final(self)@ == old(
                        self)@
                } else {
                    let sets0 = old(self)@.commodity_type_sets;
                    r == Ok::<(), Error>(()) && final(self)@ == (KpView {
                        commodity_type_sets: sets0.insert(type_insert_pos(sets0, type_id),
                            CommodityTypeData { type_id, type_desc }),
                        commodity_type_map: old(self)@.commodity_type_map.insert(key1(
                            type_id as u64), type_desc@),
                        ..old(self)@
                    })
                }
            }),
    {
        let tk = StoreKey { k1: type_id as u64, k2: 0, k3: 0 };
        if self.commodity_type_map.contains(tk) {
            proof {
                assert(self@.commodity_type_map.contains_key(key1(type_id as u64)));
            }
            return Err(Error::CommodityTypeExisted);
        }
        let n = self.commodity_type_sets.len();
        let mut i: usize = 0;
        while i < n && self.commodity_type_sets[i].type_id < type_id
            invariant
                0 <= i <= n,
                n == self.commodity_type_sets.len(),
                forall|j: int|
                    0 <= j < i ==> (#[trigger] self.commodity_type_sets@[j]).type_id < type_id,
            decreases n - i,
        {
            i += 1;
        }
        proof {
            if i < n && self.commodity_type_sets@[i as int].type_id == type_id {
                assert(old(self)@.commodity_type_map.contains_key(key1(
                    self.commodity_type_sets@[i as int].type_id as u64)));
            }
            lemma_type_insert_pos_char(self.commodity_type_sets@, type_id, i as int);
        }
        let desc_for_map = type_desc.clone();
        proof {
            assert(desc_for_map@ =~= type_desc@);
        }
        let data = CommodityTypeData { type_id, type_desc };
        self.commodity_type_sets.insert(i, data);
        self.commodity_type_map.insert(tk, desc_for_map);
        proof {
            let sets0 = old(self)@.commodity_type_sets;
            let p = i as int;
            assert(self@.commodity_type_map =~= old(self)@.commodity_type_map.insert(key1(
                type_id as u64), desc_for_map@));
            assert(sorted_by_type_id(self@.commodity_type_sets)) by {
                assert(forall|j: int| 0 <= j < p ==> (#[trigger] sets0[j]).type_id < type_id);
                assert(forall|j: int|
                    p <= j < sets0.len() ==> type_id < (#[trigger] sets0[j]).type_id);
            }
            assert(self@ =~= (KpView {
                commodity_type_sets: sets0.insert(p, data),
                commodity_type_map: old(self)@.commodity_type_map.insert(key1(type_id as u64),
                    desc_for_map@),
                ..old(self)@
            }));
        }
        Ok(())
    }

    /// Normalizes a freshly created document's raw metrics against the
    /// current maxima and returns its content power and initial judge
    /// power; the state is not touched.
    fn plan_content_power(&self, doc: &KPDocumentData) -> (r: (u64, u64))
        requires
            self.maps_wf(),
        ensures
            r.0 == content_judge_values(self@.config, self@, *doc).0,
            r.1 == content_judge_values(self@.config, self@, *doc).1,
            r.0 <= CONTENT_POWER_MAX,
            r.1 <= JUDGE_POWER_MAX,
    {
        let trend = compute_doc_trend_power(doc.expert_trend, doc.platform_trend);
        let ak = StoreKey { k1: doc.app_id, k2: 0, k3: 0 };
        match &doc.document_data {
            DocumentSpecificData::ProductPublish(d) => {
                let m = match self.publish_max.get(ak) {
                    Some(x) => *x,
                    None => KPProductPublishRateMax { para_issue_rate: 0, self_issue_rate: 0 },
                };
                let (r1, _, _) = update_max(d.para_issue_rate, m.para_issue_rate);
                let (r2, _, _) = update_max(d.self_issue_rate, m.self_issue_rate);
                let content = compute_publish_product_content_power(&self.config, r1, r2);
                let judge = compute_judge_power(trend,
                    self.config.top_weight_product_publish as u64,
                    self.config.document_power_weight_judge);
                (content, judge)
            },
            DocumentSpecificData::ProductIdentify(d) => {
                let m = match self.identify_max.get(ak) {
                    Some(x) => *x,
                    None => KPProductIdentifyRateMax { ident_rate: 0, ident_consistence: 0 },
                };
                let (r1, _, _) = update_max(d.ident_rate, m.ident_rate);
                let (r2, _, _) = update_max(d.ident_consistence, m.ident_consistence);
                let content = compute_identify_content_power(&self.config, r1, r2);
                let judge = compute_judge_power(trend,
                    self.config.top_weight_document_identify as u64,
                    self.config.document_power_weight_judge);
                (content, judge)
            },
            DocumentSpecificData::ProductTry(d) => {
                let m = match self.try_max.get(ak) {
                    Some(x) => *x,
                    None => KPProductTryRateMax { offset_rate: 0, true_rate: 0 },
                };
                let (r1, _, _) = update_max(d.offset_rate, m.offset_rate);
                let (r2, _, _) = update_max(d.true_rate, m.true_rate);
                let content = compute_try_content_power(&self.config, r1, r2);
                let judge = compute_judge_power(trend, self.config.top_weight_document_try as u64,
                    self.config.document_power_weight_judge);
                (content, judge)
            },
            DocumentSpecificData::ProductChoose(d) => {
                let m = match self.choose_max.get(ak) {
                    Some(x) => *x,
                    None => KPProductChooseDataMax { sell_count: 0, try_count: 0 },
                };
                let (r1, _, _) = update_max(d.sell_count, m.sell_count);
                let (r2, _, _) = update_max(d.try_count, m.try_count);
                let content = compute_choose_content_power(&self.config, r1, r2);
                let judge = compute_judge_power(trend, 100,
                    self.config.document_cm_power_weight_judge);
                (content, judge)
            },
            DocumentSpecificData::ModelCreate(d) => {
                let m = match self.model_create_max.get(ak) {
                    Some(x) => *x,
                    None => KPModelCreateDataMax { producer_count: 0, product_count: 0 },
                };
                let (r1, _, _) = update_max(d.producer_count, m.producer_count);
                let (r2, _, _) = update_max(d.product_count, m.product_count);
                let content = compute_model_content_power(&self.config, r1, r2);
                let judge = compute_judge_power(trend, 100,
                    self.config.document_cm_power_weight_judge);
                (content, judge)
            },
        }
    }

    /// Raises the maxima of the document type's dimensions and stores the
    /// document's power record when its content power is positive.
    fn apply_content_power(&mut self, doc: &KPDocumentData, content: u64, judge: u64)
        requires
            old(self).maps_wf(),
            content == content_judge_values(old(self)@.config, old(self)@, *doc).0,
            judge == content_judge_values(old(self)@.config, old(self)@, *doc).1,
        ensures
            final(self).maps_wf(),
            final(self)@ == apply_content(old(self)@, *doc),
    {
        let ak = StoreKey { k1: doc.app_id, k2: 0, k3: 0 };
        match &doc.document_data {
            DocumentSpecificData::ProductPublish(d) => {
                let m = match self.publish_max.get(ak) {
                    Some(x) => *x,
                    None => KPProductPublishRateMax { para_issue_rate: 0, self_issue_rate: 0 },
                };
                if d.para_issue_rate > m.para_issue_rate || d.self_issue_rate > m.self_issue_rate {
                    self.publish_max.insert(ak, KPProductPublishRateMax {
                        para_issue_rate: if d.para_issue_rate > m.para_issue_rate {
                            d.para_issue_rate
                        } else {
                            m.para_issue_rate
                        },
                        self_issue_rate: if d.self_issue_rate > m.self_issue_rate {
                            d.self_issue_rate
                        } else {
                            m.self_issue_rate
                        },
                    });
                }
            },
            DocumentSpecificData::ProductIdentify(d) => {
                let m = match self.identify_max.get(ak) {
                    Some(x) => *x,
                    None => KPProductIdentifyRateMax { ident_rate: 0, ident_consistence: 0 },
                };
                if d.ident_rate > m.ident_rate || d.ident_consistence > m.ident_consistence {
                    self.identify_max.insert(ak, KPProductIdentifyRateMax {
                        ident_rate: if d.ident_rate > m.ident_rate {
                            d.ident_rate
                        } else {
                            m.ident_rate
                        },
                        ident_consistence: if d.ident_consistence > m.ident_consistence {
                            d.ident_consistence
                        } else {
                            m.ident_consistence
                        },
                    });
                }
            },
            DocumentSpecificData::ProductTry(d) => {
                let m = match self.try_max.get(ak) {
                    Some(x) => *x,
                    None => KPProductTryRateMax { offset_rate: 0, true_rate: 0 },
                };
                if d.offset_rate > m.offset_rate || d.true_rate > m.true_rate {
                    self.try_max.insert(ak, KPProductTryRateMax {
                        offset_rate: if d.offset_rate > m.offset_rate {
                            d.offset_rate
                        } else {
                            m.offset_rate
                        },
                        true_rate: if d.true_rate > m.true_rate {
                            d.true_rate
                        } else {
                            m.true_rate
                        },
                    });
                }
            },
            DocumentSpecificData::ProductChoose(d) => {
                let m = match self.choose_max.get(ak) {
                    Some(x) => *x,
                    None => KPProductChooseDataMax { sell_count: 0, try_count: 0 },
                };
                if d.sell_count > m.sell_count || d.try_count > m.try_count {
                    self.choose_max.insert(ak, KPProductChooseDataMax {
                        sell_count: if d.sell_count > m.sell_count {
                            d.sell_count
                        } else {
                            m.sell_count
                        },
                        try_count: if d.try_count > m.try_count {
                            d.try_count
                        } else {
                            m.try_count
                        },
                    });
                }
            },
            DocumentSpecificData::ModelCreate(d) => {
                let m = match self.model_create_max.get(ak) {
                    Some(x) => *x,
                    None => KPModelCreateDataMax { producer_count: 0, product_count: 0 },
                };
                if d.producer_count > m.producer_count || d.product_count > m.product_count {
                    self.model_create_max.insert(ak, KPModelCreateDataMax {
                        producer_count: if d.producer_count > m.producer_count {
                            d.producer_count
                        } else {
                            m.producer_count
                        },
                        product_count: if d.product_count > m.product_count {
                            d.product_count
                        } else {
                            m.product_count
                        },
                    });
                }
            },
        }
        if content > 0 {
            self.document_power.insert(StoreKey { k1: doc.app_id, k2: doc.document_id, k3: 0 },
                DocumentPower { attend: 0, content, judge });
        }
        proof {
            assert(self@ =~= apply_content(old(self)@, *doc));
        }
    }

    /// Processes a freshly created document's content power: normalizes its
    /// raw metrics (raising the running maxima) and stores its power
    /// record when the content power is positive.  The powers a document
    /// earns are a function of the weight configuration, its payload and
    /// trend slots, and the per-type maxima alone, so the outcome is
    /// replay deterministic.
    pub fn process_document_content_power(&mut self, doc: &KPDocumentData)
        requires
            old(self).wf(),
        ensures
            final(self).wf(),
            final(self)@ == apply_content(old(self)@, *doc),
            0 <= content_judge_values(old(self)@.config, old(self)@, *doc).0 <= CONTENT_POWER_MAX,
            0 <= content_judge_values(old(self)@.config, old(self)@, *doc).1 <= JUDGE_POWER_MAX,
    {
        let (content, judge) = self.plan_content_power(doc);
        self.apply_content_power(doc, content, judge);
        proof {
            assert(inv(self@));
        }
    }

    /// Reads a document's power, preferring a pending entry the running
    /// event is about to write.
    fn read_doc_power(&self, app: u64, id: u64, pov: Option<(u64, DocumentPower)>) -> (p:
        DocumentPower)
        requires
            self.maps_wf(),
            inv(self@),
            match pov {
                Some(o) => bounded_doc_power(o.1),
                None => true,
            },
        ensures
            p == or_default_power(power_map_with(self@.document_power, app, pov), key2(app, id)),
            bounded_doc_power(p),
    {
        match pov {
            Some((oid, op)) => {
                if oid == id {
                    return op;
                }
            },
            None => {},
        }
        let k = StoreKey { k1: app, k2: id, k3: 0 };
        match self.document_power.get(k) {
            Some(p) => {
                proof {
                    assert(self@.document_power.contains_key(k));
                    assert(bounded_doc_power(self@.document_power[k]));
                }
                *p
            },
            None => DocumentPower { attend: 0, content: 0, judge: 0 },
        }
    }

    /// Sums the power reachable from a document's cart: the paired
    /// document, the document itself, its product's publish document, and
    /// the owner's attend power, all over any pending entries of the
    /// running event.
    fn propagate_sum(
        &self,
        doc: &KPDocumentData,
        pov: Option<(u64, DocumentPower)>,
        aov: Option<(u64, u64)>,
    ) -> (power: u64)
        requires
            self.maps_wf(),
            inv(self@),
            match pov {
                Some(o) => bounded_doc_power(o.1),
                None => true,
            },
            match aov {
                Some(o) => o.1 <= ATTEND_POWER_MAX,
                None => true,
            },
        ensures
            power == propagate_power_sum(with_overrides(self@, doc.app_id, pov, aov), *doc),
    {
        let app = doc.app_id;
        let couple_id = match &doc.document_data {
            DocumentSpecificData::ProductIdentify(d) => {
                match self.cart_try_index.get(StoreKey { k1: app, k2: d.cart_id, k3: 0 }) {
                    Some(x) => Some(*x),
                    None => None,
                }
            },
            DocumentSpecificData::ProductTry(d) => {
                match self.cart_identify_index.get(StoreKey { k1: app, k2: d.cart_id, k3: 0 }) {
                    Some(x) => Some(*x),
                    None => None,
                }
            },
            _ => None,
        };
        let couple: u64 = match couple_id {
            Some(cid) => self.read_doc_power(app, cid, pov).total(),
            None => 0,
        };
        let own: u64 = self.read_doc_power(app, doc.document_id, pov).total();
        let publish_id = match self.product_index.get(StoreKey {
            k1: app,
            k2: doc.product_id,
            k3: 0,
        }) {
            Some(x) => Some(*x),
            None => None,
        };
        let publish: u64 = match publish_id {
            Some(pid) => self.read_doc_power(app, pid, pov).total(),
            None => 0,
        };
        let attend: u64 = match aov {
            Some((ao, av)) => {
                if ao == doc.owner {
                    av
                } else {
                    match self.account_attend_power.get(StoreKey {
                        k1: doc.owner,
                        k2: app,
                        k3: 0,
                    }) {
                        Some(a) => *a,
                        None => 0,
                    }
                }
            },
            None => {
                match self.account_attend_power.get(StoreKey { k1: doc.owner, k2: app, k3: 0 }) {
                    Some(a) => *a,
                    None => 0,
                }
            },
        };
        proof {
            let ov = with_overrides(self@, doc.app_id, pov, aov);
            assert(attend == or_zero(ov.account_attend_power, key2(doc.owner, app)));
            assert(couple <= 3 * JUDGE_POWER_MAX + CONTENT_POWER_MAX + ATTEND_POWER_MAX);
            assert(own <= 3 * JUDGE_POWER_MAX + CONTENT_POWER_MAX + ATTEND_POWER_MAX);
            assert(publish <= 3 * JUDGE_POWER_MAX + CONTENT_POWER_MAX + ATTEND_POWER_MAX);
        }
        couple + own + publish + attend
    }

    /// Plans one propagation run over a document without touching the
    /// state: sums the cart's reachable power (over any pending entries of
    /// the running event) and derives the delta against the last snapshot.
    fn plan_account_power(
        &self,
        doc: &KPDocumentData,
        pov: Option<(u64, DocumentPower)>,
        aov: Option<(u64, u64)>,
    ) -> (r: Result<AccountPlan, Error>)
        requires
            self.maps_wf(),
            inv(self@),
            match pov {
                Some(o) => bounded_doc_power(o.1),
                None => true,
            },
            match aov {
                Some(o) => o.1 <= ATTEND_POWER_MAX,
                None => true,
            },
        ensures
            r == account_plan_spec(with_overrides(self@, doc.app_id, pov, aov), *doc),
    {
        let app = doc.app_id;
        let power = self.propagate_sum(doc, pov, aov);
        let cart = match &doc.document_data {
            DocumentSpecificData::ProductIdentify(d) => d.cart_id,
            DocumentSpecificData::ProductTry(d) => d.cart_id,
            _ => 0,
        };
        let last = match self.purchase_power.get(StoreKey { k1: app, k2: cart, k3: 0 }) {
            Some(p) => *p,
            None => 0,
        };
        if power <= last {
            return Ok(AccountPlan { changed: false, power: 0, miner_new: 0, total_new: 0 });
        }
        let delta = power - last;
        let miner0 = match self.miner_power.get(StoreKey { k1: doc.owner, k2: 0, k3: 0 }) {
            Some(p) => *p,
            None => 0,
        };
        let miner_new = match miner0.checked_add(delta) {
            Some(m) => m,
            None => {
                return Err(Error::AddOverflow);
            },
        };
        let total_new = match self.total_power.checked_add(delta) {
            Some(t) => t,
            None => {
                return Err(Error::AddOverflow);
            },
        };
        Ok(AccountPlan { changed: true, power, miner_new, total_new })
    }

    /// Applies a propagation plan: stores the new snapshot and the raised
    /// account and global totals.
    fn apply_account_plan(&mut self, doc: &KPDocumentData, plan: AccountPlan)
        requires
            old(self).maps_wf(),
        ensures
            final(self).maps_wf(),
            final(self)@ == apply_account_plan_spec(old(self)@, *doc, plan),
    {
        if plan.changed {
            let cart = match &doc.document_data {
                DocumentSpecificData::ProductIdentify(d) => d.cart_id,
                DocumentSpecificData::ProductTry(d) => d.cart_id,
                _ => 0,
            };
            self.purchase_power.insert(StoreKey { k1: doc.app_id, k2: cart, k3: 0 }, plan.power);
            self.miner_power.insert(StoreKey { k1: doc.owner, k2: 0, k3: 0 }, plan.miner_new);
            self.total_power = plan.total_new;
            proof {
                assert(self@ =~= apply_account_plan_spec(old(self)@, *doc, plan));
            }
        }
    }

    /// Creates a publish document: its product must be fresh and its model
    /// known; the document earns content power against the tenant maxima.
    pub fn create_product_publish_document(
        &mut self,
        app_id: u64,
        document_id: u64,
        model_id: u64,
        product_id: u64,
        document_power_data: KPProductPublishData,
        owner: u64,
    ) -> (r: Result<(), Error>)
        requires
            old(self).wf(),
        ensures
            final(self).wf(),
            ({
                let (v2, res) = create_publish_spec(old(self)@, app_id, document_id, model_id,
                    product_id, document_power_data, owner);
                final(self)@ == v2 && r == res
            }),
    {
        let dk = StoreKey { k1: app_id, k2: document_id, k3: 0 };
        if self.document_data.contains(dk) {
            return Err(Error::DocumentAlreadyExisted);
        }
        let pk = StoreKey { k1: app_id, k2: product_id, k3: 0 };
        if self.product_index.contains(pk) {
            return Err(Error::ProductAlreadyExisted);
        }
        if !self.model_data.contains(StoreKey { k1: app_id, k2: model_id, k3: 0 }) {
            return Err(Error::ModelNotFound);
        }
        let doc = KPDocumentData {
            app_id,
            document_id,
            model_id,
            product_id,
            owner,
            document_type: DocumentType::ProductPublish,
            document_data: DocumentSpecificData::ProductPublish(document_power_data),
            comment_count: 0,
            comment_total_fee: 0,
            comment_positive_count: 0,
            expert_trend: CommentTrend::Empty,
            platform_trend: CommentTrend::Empty,
        };
        self.process_document_content_power(&doc);
        self.document_data.insert(dk, doc);
        self.product_index.insert(pk, document_id);
        proof {
            let (v2, res) = create_publish_spec(old(self)@, app_id, document_id, model_id,
                product_id, document_power_data, owner);
            assert(self@ =~= v2);
        }
        Ok(())
    }

    /// Creates an identify document and propagates the power reachable
    /// from its cart to the owning account and the global total.
    pub fn create_product_identify_document(
        &mut self,
        app_id: u64,
        document_id: u64,
        model_id: u64,
        product_id: u64,
        document_power_data: KPProductIdentifyData,
        owner: u64,
    ) -> (r: Result<(), Error>)
        requires
            old(self).wf(),
        ensures
            final(self).wf(),
            ({
                let (v2, res) = create_identify_spec(old(self)@, app_id, document_id, model_id,
                    product_id, document_power_data, owner);
                final(self)@ == v2 && r == res
            }),
    {
        let dk = StoreKey { k1: app_id, k2: document_id, k3: 0 };
        if self.document_data.contains(dk) {
            return Err(Error::DocumentAlreadyExisted);
        }
        let cart_id = document_power_data.cart_id;
        let doc = KPDocumentData {
            app_id,
            document_id,
            model_id,
            product_id,
            owner,
            document_type: DocumentType::ProductIdentify,
            document_data: DocumentSpecificData::ProductIdentify(document_power_data),
            comment_count: 0,
            comment_total_fee: 0,
            comment_positive_count: 0,
            expert_trend: CommentTrend::Empty,
            platform_trend: CommentTrend::Empty,
        };
        let (content, judge) = self.plan_content_power(&doc);
        let pov = if content > 0 {
            Some((document_id, DocumentPower { attend: 0, content, judge }))
        } else {
            None
        };
        let ghost v1 = apply_content(old(self)@, doc);
        proof {
            lemma_account_plan_same_reads(with_overrides(old(self)@, app_id, pov, None), v1, doc);
        }
        let plan = match self.plan_account_power(&doc, pov, None) {
            Ok(p) => p,
            Err(e) => {
                return Err(e);
            },
        };
        self.apply_content_power(&doc, content, judge);
        self.apply_account_plan(&doc, plan);
        self.cart_identify_index.insert(StoreKey { k1: app_id, k2: cart_id, k3: 0 }, document_id);
        self.document_data.insert(dk, doc);
        proof {
            let (v2, res) = create_identify_spec(old(self)@, app_id, document_id, model_id,
                product_id, document_power_data, owner);
            assert(self@ =~= v2);
        }
        Ok(())
    }

    /// Creates a try document and propagates the power reachable from its
    /// cart to the owning account and the global total.
    pub fn create_product_try_document(
        &mut self,
        app_id: u64,
        document_id: u64,
        model_id: u64,
        product_id: u64,
        document_power_data: KPProductTryData,
        owner: u64,
    ) -> (r: Result<(), Error>)
        requires
            old(self).wf(),
        ensures
            final(self).wf(),
            ({
                let (v2, res) = create_try_spec(old(self)@, app_id, document_id, model_id,
                    product_id, document_power_data, owner);
                final(self)@ == v2 && r == res
            }),
    {
        let dk = StoreKey { k1: app_id, k2: document_id, k3: 0 };
        if self.document_data.contains(dk) {
            return Err(Error::DocumentAlreadyExisted);
        }
        let cart_id = document_power_data.cart_id;
        let doc = KPDocumentData {
            app_id,
            document_id,
            model_id,
            product_id,
            owner,
            document_type: DocumentType::ProductTry,
            document_data: DocumentSpecificData::ProductTry(document_power_data),
            comment_count: 0,
            comment_total_fee: 0,
            comment_positive_count: 0,
            expert_trend: CommentTrend::Empty,
            platform_trend: CommentTrend::Empty,
        };
        let (content, judge) = self.plan_content_power(&doc);
        let pov = if content > 0 {
            Some((document_id, DocumentPower { attend: 0, content, judge }))
        } else {
            None
        };
        let ghost v1 = apply_content(old(self)@, doc);
        proof {
            lemma_account_plan_same_reads(with_overrides(old(self)@, app_id, pov, None), v1, doc);
        }
        let plan = match self.plan_account_power(&doc, pov, None) {
            Ok(p) => p,
            Err(e) => {
                return Err(e);
            },
        };
        self.apply_content_power(&doc, content, judge);
        self.apply_account_plan(&doc, plan);
        self.cart_try_index.insert(StoreKey { k1: app_id, k2: cart_id, k3: 0 }, document_id);
        self.document_data.insert(dk, doc);
        proof {
            let (v2, res) = create_try_spec(old(self)@, app_id, document_id, model_id, product_id,
                document_power_data, owner);
            assert(self@ =~= v2);
        }
        Ok(())
    }

    /// Creates a choose document; it earns content power but no
    /// propagation runs over it.
    pub fn create_product_choose_document(
        &mut self,
        app_id: u64,
        document_id: u64,
        model_id: u64,
        product_id: u64,
        document_power_data: KPProductChooseData,
        owner: u64,
    ) -> (r: Result<(), Error>)
        requires
            old(self).wf(),
        ensures
            final(self).wf(),
            ({
                let (v2, res) = create_choose_spec(old(self)@, app_id, document_id, model_id,
                    product_id, document_power_data, owner);
                final(self)@ == v2 && r == res
            }),
    {
        let dk = StoreKey { k1: app_id, k2: document_id, k3: 0 };
        if self.document_data.contains(dk) {
            return Err(Error::DocumentAlreadyExisted);
        }
        let doc = KPDocumentData {
            app_id,
            document_id,
            model_id,
            product_id,
            owner,
            document_type: DocumentType::ProductChoose,
            document_data: DocumentSpecificData::ProductChoose(document_power_data),
            comment_count: 0,
            comment_total_fee: 0,
            comment_positive_count: 0,
            expert_trend: CommentTrend::Empty,
            platform_trend: CommentTrend::Empty,
        };
        self.process_document_content_power(&doc);
        self.document_data.insert(dk, doc);
        proof {
            let (v2, res) = create_choose_spec(old(self)@, app_id, document_id, model_id,
                product_id, document_power_data, owner);
            assert(self@ =~= v2);
        }
        Ok(())
    }

    /// Creates a model-create document; it earns content power but no
    /// propagation runs over it.
    pub fn create_model_create_document(
        &mut self,
        app_id: u64,
        document_id: u64,
        model_id: u64,
        product_id: u64,
        document_power_data: KPModelCreateData,
        owner: u64,
    ) -> (r: Result<(), Error>)
        requires
            old(self).wf(),
        ensures
            final(self).wf(),
            ({
                let (v2, res) = create_model_create_spec(old(self)@, app_id, document_id, model_id,
                    product_id, document_power_data, owner);
                final(self)@ == v2 && r == res
            }),
    {
        let dk = StoreKey { k1: app_id, k2: document_id, k3: 0 };
        if self.document_data.contains(dk) {
            return Err(Error::DocumentAlreadyExisted);
        }
        let doc = KPDocumentData {
            app_id,
            document_id,
            model_id,
            product_id,
            owner,
            document_type: DocumentType::ModelCreate,
            document_data: DocumentSpecificData::ModelCreate(document_power_data),
            comment_count: 0,
            comment_total_fee: 0,
            comment_positive_count: 0,
            expert_trend: CommentTrend::Empty,
            platform_trend: CommentTrend::Empty,
        };
        self.process_document_content_power(&doc);
        self.document_data.insert(dk, doc);
        proof {
            let (v2, res) = create_model_create_spec(old(self)@, app_id, document_id, model_id,
                product_id, document_power_data, owner);
            assert(self@ =~= v2);
        }
        Ok(())
    }

    /// Computes everything one comment event will write, without touching
    /// the state: raises the account's and the document's statistics and
    /// the per-tenant maxima, normalizes them into attend powers, and
    /// settles any trend slot the commenter's role may set.
    #[verifier::rlimit(100)]
    fn plan_comment_power(&self, comment: &KPCommentData, is_expert: bool, is_platform: bool) -> (r:
        Result<CommentPlan, Error>)
        requires
            self.maps_wf(),
            inv(self@),
        ensures
            r == comment_plan_spec(self@, *comment, is_expert, is_platform),
            match r {
                Ok(p) => bounded_doc_power(p.new_doc_power) && p.account_attend
                    <= ATTEND_POWER_MAX,
                Err(_) => true,
            },
    {
        proof {
            reveal(comment_plan_spec);
        }
        let app = comment.app_id;
        let dk = StoreKey { k1: app, k2: comment.document_id, k3: 0 };
        let doc0 = match self.document_data.get(dk) {
            Some(d) => *d,
            None => KPDocumentData {
                app_id: 0,
                document_id: 0,
                model_id: 0,
                product_id: 0,
                owner: 0,
                document_type: DocumentType::ProductPublish,
                document_data: DocumentSpecificData::ProductPublish(KPProductPublishData {
                    para_issue_rate: 0,
                    self_issue_rate: 0,
                }),
                comment_count: 0,
                comment_total_fee: 0,
                comment_positive_count: 0,
                expert_trend: CommentTrend::Empty,
                platform_trend: CommentTrend::Empty,
            },
        };
        let acct0 = match self.comment_account_record.get(StoreKey {
            k1: app,
            k2: comment.owner,
            k3: 0,
        }) {
            Some(a) => *a,
            None => KPCommentAccountRecord { count: 0, fees: 0, positive_count: 0 },
        };
        let positive = comment.comment_trend == 0;
        let count1 = match acct0.count.checked_add(1) {
            Some(x) => x,
            None => {
                return Err(Error::AddOverflow);
            },
        };
        let fees1 = match acct0.fees.checked_add(comment.comment_fee) {
            Some(x) => x,
            None => {
                return Err(Error::AddOverflow);
            },
        };
        let apos1 = if positive {
            match acct0.positive_count.checked_add(1) {
                Some(x) => x,
                None => {
                    return Err(Error::AddOverflow);
                },
            }
        } else {
            acct0.positive_count
        };
        let dcount1 = match doc0.comment_count.checked_add(1) {
            Some(x) => x,
            None => {
                return Err(Error::AddOverflow);
            },
        };
        let dfee1 = match doc0.comment_total_fee.checked_add(comment.comment_fee) {
            Some(x) => x,
            None => {
                return Err(Error::AddOverflow);
            },
        };
        let dpos1 = if positive {
            match doc0.comment_positive_count.checked_add(1) {
                Some(x) => x,
                None => {
                    return Err(Error::AddOverflow);
                },
            }
        } else {
            doc0.comment_positive_count
        };
        let acct1 = KPCommentAccountRecord { count: count1, fees: fees1, positive_count: apos1 };
        let doc1 = KPDocumentData {
            comment_count: dcount1,
            comment_total_fee: dfee1,
            comment_positive_count: dpos1,
            ..doc0
        };
        let a_unit = fees1 / count1;
        let mut amax = match self.comment_max_per_account.get(StoreKey { k1: app, k2: 0, k3: 0 }) {
            Some(m) => *m,
            None => CommentMaxRecord { max_count: 0, max_fee: 0, max_positive: 0, max_unit_fee: 0 },
        };
        let a_updated = update_comment_max(&mut amax, count1, fees1, apos1, a_unit);
        let arates = compute_comment_action_rate(&amax, count1, fees1, apos1, a_unit);
        let (aaw, cpw, dtw): (u64, u64, u64) = match doc1.document_type {
            DocumentType::ProductPublish => (
                self.config.top_weight_account_attend as u64,
                self.config.document_power_weight_attend as u64,
                self.config.top_weight_product_publish as u64,
            ),
            DocumentType::ProductIdentify => (
                self.config.top_weight_account_attend as u64,
                self.config.document_power_weight_attend as u64,
                self.config.top_weight_document_identify as u64,
            ),
            DocumentType::ProductTry => (
                self.config.top_weight_account_attend as u64,
                self.config.document_power_weight_attend as u64,
                self.config.top_weight_document_try as u64,
            ),
            DocumentType::ProductChoose => (
                self.config.cm_power_account_attend as u64,
                self.config.document_cm_power_weight_attend as u64,
                100,
            ),
            DocumentType::ModelCreate => (
                self.config.cm_power_account_attend as u64,
                self.config.document_cm_power_weight_attend as u64,
                100,
            ),
            DocumentType::Unknown => (0, 0, 0),
        };
        let account_attend = compute_attend_power(&self.config, arates, 100, aaw);
        let d_unit = dfee1 / dcount1;
        let mut dmax = match self.comment_max_per_doc.get(StoreKey { k1: app, k2: 0, k3: 0 }) {
            Some(m) => *m,
            None => CommentMaxRecord { max_count: 0, max_fee: 0, max_positive: 0, max_unit_fee: 0 },
        };
        let d_updated = update_comment_max(&mut dmax, dcount1, dfee1, dpos1, d_unit);
        let drates = compute_comment_action_rate(&dmax, dcount1, dfee1, dpos1, d_unit);
        let doc_attend = compute_attend_power(&self.config, drates, cpw, dtw);
        let ct = CommentTrend::from(comment.comment_trend);
        let expert_set = doc1.expert_trend == CommentTrend::Empty && is_expert;
        let doc2 = if expert_set {
            KPDocumentData { expert_trend: ct, ..doc1 }
        } else {
            doc1
        };
        let platform_set = doc2.platform_trend == CommentTrend::Empty && is_platform;
        let doc3 = if platform_set {
            KPDocumentData { platform_trend: ct, ..doc2 }
        } else {
            doc2
        };
        let judge_updated = expert_set || platform_set;
        let (jw, jtw): (u8, u64) = match doc3.document_type {
            DocumentType::ProductPublish => (
                self.config.document_power_weight_judge,
                self.config.top_weight_product_publish as u64,
            ),
            DocumentType::ProductIdentify => (
                self.config.document_power_weight_judge,
                self.config.top_weight_document_identify as u64,
            ),
            DocumentType::ProductTry => (
                self.config.document_power_weight_judge,
                self.config.top_weight_document_try as u64,
            ),
            DocumentType::ProductChoose => (self.config.document_cm_power_weight_judge, 100),
            DocumentType::ModelCreate => (self.config.document_cm_power_weight_judge, 100),
            DocumentType::Unknown => (0, 0),
        };
        let trend_score = compute_doc_trend_power(doc3.expert_trend, doc3.platform_trend);
        let judge_val = compute_judge_power(trend_score, jtw, jw);
        let p0 = match self.document_power.get(dk) {
            Some(p) => *p,
            None => DocumentPower { attend: 0, content: 0, judge: 0 },
        };
        let new_doc_power = DocumentPower {
            attend: doc_attend,
            content: p0.content,
            judge: if judge_updated {
                judge_val
            } else {
                p0.judge
            },
        };
        Ok(CommentPlan {
            account_record: acct1,
            doc_final: doc3,
            account_max: amax,
            account_max_updated: a_updated,
            doc_max: dmax,
            doc_max_updated: d_updated,
            account_attend,
            doc_attend,
            new_doc_power,
        })
    }

    /// Writes one comment plan: the document and account records, the
    /// maxima where they grew, both attend powers, and the document's
    /// power entry.
    fn apply_comment_plan(&mut self, comment: &KPCommentData, plan: CommentPlan)
        requires
            old(self).maps_wf(),
        ensures
            final(self).maps_wf(),
            final(self)@ == apply_comment_plan_spec(old(self)@, *comment, plan),
    {
        let app = comment.app_id;
        let dk = StoreKey { k1: app, k2: comment.document_id, k3: 0 };
        self.document_data.insert(dk, plan.doc_final);
        self.comment_account_record.insert(StoreKey { k1: app, k2: comment.owner, k3: 0 },
            plan.account_record);
        if plan.account_max_updated {
            self.comment_max_per_account.insert(StoreKey { k1: app, k2: 0, k3: 0 },
                plan.account_max);
        }
        if plan.doc_max_updated {
            self.comment_max_per_doc.insert(StoreKey { k1: app, k2: 0, k3: 0 }, plan.doc_max);
        }
        self.account_attend_power.insert(StoreKey { k1: comment.owner, k2: app, k3: 0 },
            plan.account_attend);
        self.document_power.insert(dk, plan.new_doc_power);
        proof {
            assert(self@ =~= apply_comment_plan_spec(old(self)@, *comment, plan));
        }
    }

    /// Creates a comment: raises the comment statistics and attend powers
    /// of its document and its author, settles any trend slot the author's
    /// role may set, and, on identify and try documents, propagates the
    /// cart's power to the document owner's account and the global total.
    /// The caller resolves the author's expert and platform roles and
    /// passes the verdicts in.
    #[verifier::rlimit(100)]
    pub fn create_comment(
        &mut self,
        app_id: u64,
        comment_id: u64,
        document_id: u64,
        comment_fee: PowerSize,
        comment_trend: u8,
        owner: u64,
        is_expert: bool,
        is_platform: bool,
    ) -> (r: Result<(), Error>)
        requires
            old(self).wf(),
        ensures
            final(self).wf(),
            ({
                let (v2, res) = create_comment_spec(old(self)@, app_id, comment_id, document_id,
                    comment_fee, comment_trend, owner, is_expert, is_platform);
                final(self)@ == v2 && r == res
            }),
    {
        let ck = StoreKey { k1: app_id, k2: comment_id, k3: 0 };
        if self.comment_data.contains(ck) {
            return Err(Error::CommentAlreadyExisted);
        }
        let dk = StoreKey { k1: app_id, k2: document_id, k3: 0 };
        if !self.document_data.contains(dk) {
            return Err(Error::DocumentNotFound);
        }
        let comment = KPCommentData {
            app_id,
            document_id,
            comment_id,
            comment_fee,
            comment_trend,
            owner,
        };
        let plan = match self.plan_comment_power(&comment, is_expert, is_platform) {
            Ok(p) => p,
            Err(e) => {
                return Err(e);
            },
        };
        proof {
            assert(plan.doc_final.app_id == app_id && plan.doc_final.document_id
                == document_id) by {
                reveal(comment_plan_spec);
            }
        }
        let propagates = match plan.doc_final.document_type {
            DocumentType::ProductIdentify => true,
            DocumentType::ProductTry => true,
            _ => false,
        };
        let ghost v1 = apply_comment_plan_spec(old(self)@, comment, plan);
        if propagates {
            let pov = Some((document_id, plan.new_doc_power));
            let aov = Some((owner, plan.account_attend));
            proof {
                assert(with_overrides(old(self)@, app_id, pov, aov).document_power
                    =~= v1.document_power);
                assert(with_overrides(old(self)@, app_id, pov, aov).account_attend_power
                    =~= v1.account_attend_power);
                lemma_account_plan_same_reads(with_overrides(old(self)@, app_id, pov, aov), v1,
                    plan.doc_final);
            }
            let ap = match self.plan_account_power(&plan.doc_final, pov, aov) {
                Ok(a) => a,
                Err(e) => {
                    return Err(e);
                },
            };
            self.apply_comment_plan(&comment, plan);
            proof {
                assert(self@ == v1);
            }
            self.apply_account_plan(&plan.doc_final, ap);
            let ghost v2 = apply_account_plan_spec(v1, plan.doc_final, ap);
            proof {
                assert(self@ == v2);
            }
            self.comment_data.insert(ck, comment);
            proof {
                assert(self@ =~= (KpView { comment_data: v2.comment_data.insert(key2(app_id,
                    comment_id), comment), ..v2 }));
            }
        } else {
            self.apply_comment_plan(&comment, plan);
            proof {
                assert(self@ == v1);
            }
            self.comment_data.insert(ck, comment);
            proof {
                assert(self@ =~= (KpView { comment_data: v1.comment_data.insert(key2(app_id,
                    comment_id), comment), ..v1 }));
            }
        }
        Ok(())
    }
}

} // verus!
