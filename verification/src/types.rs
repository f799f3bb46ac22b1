//! Domain data model: documents, comments, models, power records, running
//! maxima, weight configuration and the error categories of the engine.

use vstd::prelude::*;

verus! {

/// Integer carrier of every power value and raw metric.
pub type PowerSize = u64;

/// Lifecycle of a model: enabled at creation, disabled at most once.
#[derive(Clone, Copy, PartialEq, Eq, Structural, Debug)]
pub enum ModelStatus {
    ENABLED,
    DISABLED,
}

impl Default for ModelStatus {
    fn default() -> (r: Self)
        ensures
            r == ModelStatus::ENABLED,
    {
        ModelStatus::ENABLED
    }
}

impl From<u8> for ModelStatus {
    fn from(orig: u8) -> (r: Self) {
        match orig {
            0u8 => ModelStatus::ENABLED,
            1u8 => ModelStatus::DISABLED,
            _ => ModelStatus::ENABLED,
        }
    }
}

impl vstd::std_specs::convert::FromSpecImpl<u8> for ModelStatus {
    open spec fn obeys_from_spec() -> bool {
        true
    }

    open spec fn from_spec(orig: u8) -> Self {
        if orig == 1u8 {
            ModelStatus::DISABLED
        } else {
            ModelStatus::ENABLED
        }
    }
}

/// The five contribution kinds a document can record, plus the unknown tag
/// kept for decoding foreign codes.
#[derive(Clone, Copy, PartialEq, Eq, Structural, Debug)]
pub enum DocumentType {
    ProductPublish,
    ProductIdentify,
    ProductTry,
    ProductChoose,
    ModelCreate,
    Unknown,
}

impl Default for DocumentType {
    fn default() -> (r: Self)
        ensures
            r == DocumentType::ProductPublish,
    {
        DocumentType::ProductPublish
    }
}

impl From<u8> for DocumentType {
    fn from(orig: u8) -> (r: Self) {
        match orig {
            0u8 => DocumentType::ProductPublish,
            1u8 => DocumentType::ProductIdentify,
            2u8 => DocumentType::ProductTry,
            3u8 => DocumentType::ProductChoose,
            4u8 => DocumentType::ModelCreate,
            _ => DocumentType::Unknown,
        }
    }
}

impl vstd::std_specs::convert::FromSpecImpl<u8> for DocumentType {
    open spec fn obeys_from_spec() -> bool {
        true
    }

    open spec fn from_spec(orig: u8) -> Self {
        if orig == 0u8 {
            DocumentType::ProductPublish
        } else if orig == 1u8 {
            DocumentType::ProductIdentify
        } else if orig == 2u8 {
            DocumentType::ProductTry
        } else if orig == 3u8 {
            DocumentType::ProductChoose
        } else if orig == 4u8 {
            DocumentType::ModelCreate
        } else {
            DocumentType::Unknown
        }
    }
}

/// Qualitative judgement attached to a document by an expert or by the
/// platform; `Empty` until the matching role has commented.
#[derive(Clone, Copy, PartialEq, Eq, Structural, Debug)]
pub enum CommentTrend {
    Positive,
    Negative,
    Empty,
}

impl Default for CommentTrend {
    fn default() -> (r: Self)
        ensures
            r == CommentTrend::Empty,
    {
        CommentTrend::Empty
    }
}

impl From<u8> for CommentTrend {
    fn from(orig: u8) -> (r: Self) {
        match orig {
            0u8 => CommentTrend::Positive,
            1u8 => CommentTrend::Negative,
            _ => CommentTrend::Empty,
        }
    }
}

impl vstd::std_specs::convert::FromSpecImpl<u8> for CommentTrend {
    open spec fn obeys_from_spec() -> bool {
        true
    }

    open spec fn from_spec(orig: u8) -> Self {
        if orig == 0u8 {
            CommentTrend::Positive
        } else if orig == 1u8 {
            CommentTrend::Negative
        } else {
            CommentTrend::Empty
        }
    }
}

/// Raw metrics declared by a product-publish document.
#[derive(Clone, Copy, PartialEq, Eq, Structural, Debug)]
pub struct KPProductPublishData {
    pub para_issue_rate: PowerSize,
    pub self_issue_rate: PowerSize,
}

/// Per-tenant running maxima of the publish metrics.
#[derive(Clone, Copy, PartialEq, Eq, Structural, Debug)]
pub struct KPProductPublishRateMax {
    pub para_issue_rate: PowerSize,
    pub self_issue_rate: PowerSize,
}

/// Raw metrics declared by a product-identify document.
#[derive(Clone, Copy, PartialEq, Eq, Structural, Debug)]
pub struct KPProductIdentifyData {
    pub goods_price: PowerSize,
    pub ident_rate: PowerSize,
    pub ident_consistence: PowerSize,
    pub cart_id: u64,
}

/// Per-tenant running maxima of the identify metrics.
#[derive(Clone, Copy, PartialEq, Eq, Structural, Debug)]
pub struct KPProductIdentifyRateMax {
    pub ident_rate: PowerSize,
    pub ident_consistence: PowerSize,
}

/// Raw metrics declared by a product-try document.
#[derive(Clone, Copy, PartialEq, Eq, Structural, Debug)]
pub struct KPProductTryData {
    pub goods_price: PowerSize,
    pub offset_rate: PowerSize,
    pub true_rate: PowerSize,
    pub cart_id: u64,
}

/// Per-tenant running maxima of the try metrics.
#[derive(Clone, Copy, PartialEq, Eq, Structural, Debug)]
pub struct KPProductTryRateMax {
    pub offset_rate: PowerSize,
    pub true_rate: PowerSize,
}

/// Raw metrics declared by a product-choose document.
#[derive(Clone, Copy, PartialEq, Eq, Structural, Debug)]
pub struct KPProductChooseData {
    pub sell_count: PowerSize,
    pub try_count: PowerSize,
}

/// Per-tenant running maxima of the choose metrics.
#[derive(Clone, Copy, PartialEq, Eq, Structural, Debug)]
pub struct KPProductChooseDataMax {
    pub sell_count: PowerSize,
    pub try_count: PowerSize,
}

/// Raw metrics declared by a model-create document.
#[derive(Clone, Copy, PartialEq, Eq, Structural, Debug)]
pub struct KPModelCreateData {
    pub producer_count: PowerSize,
    pub product_count: PowerSize,
}

/// Per-tenant running maxima of the model-create metrics.
#[derive(Clone, Copy, PartialEq, Eq, Structural, Debug)]
pub struct KPModelCreateDataMax {
    pub producer_count: PowerSize,
    pub product_count: PowerSize,
}

/// Type-specific payload of a document, fixed at creation.
#[derive(Clone, Copy, PartialEq, Eq, Structural, Debug)]
pub enum DocumentSpecificData {
    ProductPublish(KPProductPublishData),
    ProductIdentify(KPProductIdentifyData),
    ProductTry(KPProductTryData),
    ProductChoose(KPProductChooseData),
    ModelCreate(KPModelCreateData),
}

/// Running comment statistics of one account within one tenant; each field
/// only ever grows.
#[derive(Clone, Copy, PartialEq, Eq, Structural, Debug)]
pub struct KPCommentAccountRecord {
    pub count: PowerSize,
    pub fees: PowerSize,
    pub positive_count: PowerSize,
}

impl Default for KPCommentAccountRecord {
    fn default() -> (r: Self)
        ensures
            r == (KPCommentAccountRecord { count: 0, fees: 0, positive_count: 0 }),
    {
        KPCommentAccountRecord { count: 0, fees: 0, positive_count: 0 }
    }
}

/// Per-tenant running maxima of comment statistics, kept separately at
/// account scope and at document scope.
#[derive(Clone, Copy, PartialEq, Eq, Structural, Debug)]
pub struct CommentMaxRecord {
    pub max_count: PowerSize,
    pub max_fee: PowerSize,
    pub max_positive: PowerSize,
    pub max_unit_fee: PowerSize,
}

impl Default for CommentMaxRecord {
    fn default() -> (r: Self)
        ensures
            r == (CommentMaxRecord { max_count: 0, max_fee: 0, max_positive: 0, max_unit_fee: 0 }),
    {
        CommentMaxRecord { max_count: 0, max_fee: 0, max_positive: 0, max_unit_fee: 0 }
    }
}

/// One document: identity, immutable payload, and the comment-driven
/// counters and trend slots that later events mutate.
#[derive(Clone, Copy, PartialEq, Eq, Structural, Debug)]
pub struct KPDocumentData {
    pub app_id: u64,
    pub document_id: u64,
    pub model_id: u64,
    pub product_id: u64,
    pub owner: u64,
    pub document_type: DocumentType,
    pub document_data: DocumentSpecificData,
    pub comment_count: PowerSize,
    pub comment_total_fee: PowerSize,
    pub comment_positive_count: PowerSize,
    pub expert_trend: CommentTrend,
    pub platform_trend: CommentTrend,
}

/// The three power components of a document.
#[derive(Clone, Copy, PartialEq, Eq, Structural, Debug)]
pub struct DocumentPower {
    pub attend: PowerSize,
    pub content: PowerSize,
    pub judge: PowerSize,
}

impl Default for DocumentPower {
    fn default() -> (r: Self)
        ensures
            r == (DocumentPower { attend: 0, content: 0, judge: 0 }),
    {
        DocumentPower { attend: 0, content: 0, judge: 0 }
    }
}

/// Anything whose power components can be summed into one total.
pub trait PowerSum {
    spec fn spec_total(&self) -> int;

    fn total(&self) -> (r: PowerSize)
        requires
            self.spec_total() <= u64::MAX,
        ensures
            r == self.spec_total(),
    ;
}

impl PowerSum for DocumentPower {
    open spec fn spec_total(&self) -> int {
        self.attend + self.content + self.judge
    }

    fn total(&self) -> (r: PowerSize) {
        self.attend + self.content + self.judge
    }
}

/// One comment on a document.  `comment_trend` keeps the wire code:
/// `0` is positive, anything else negative.
#[derive(Clone, Copy, PartialEq, Eq, Structural, Debug)]
pub struct KPCommentData {
    pub app_id: u64,
    pub document_id: u64,
    pub comment_id: u64,
    pub comment_fee: PowerSize,
    pub comment_trend: u8,
    pub owner: u64,
}

/// One model of a tenant.
#[derive(Clone, PartialEq, Eq, Debug)]
pub struct KPModelData {
    pub app_id: u64,
    pub model_id: u64,
    pub expert_id: u64,
    pub status: ModelStatus,
    pub commodity_name: Vec<u8>,
    pub commodity_type: u32,
    pub owner: u64,
}

/// A registered commodity type: numeric identity plus description.
/// Two records are the same commodity type exactly when their type ids
/// agree; the description does not enter the comparison.
#[derive(Clone, Eq, Debug)]
pub struct CommodityTypeData {
    pub type_id: u32,
    pub type_desc: Vec<u8>,
}

impl PartialEq for CommodityTypeData {
    fn eq(&self, other: &Self) -> (r: bool) {
        self.type_id == other.type_id
    }
}

impl vstd::std_specs::cmp::PartialEqSpecImpl for CommodityTypeData {
    open spec fn obeys_eq_spec() -> bool {
        true
    }

    open spec fn eq_spec(&self, other: &Self) -> bool {
        self.type_id == other.type_id
    }
}

/// Why an event was rejected.  Every check runs before any mutation, so a
/// rejected event leaves the state untouched.
#[derive(Clone, Copy, PartialEq, Eq, Structural, Debug)]
pub enum Error {
    AddOverflow,
    DocumentAlreadyExisted,
    ProductAlreadyExisted,
    CommentAlreadyExisted,
    ModelAlreadyExisted,
    ModelTypeInvalid,
    ModelNotFound,
    CommodityTypeExisted,
    ModelOverSizeLimit,
    NotAppAdmin,
    ModelYearIncomeAlreadyExisted,
    CommentNotFound,
    DocumentNotFound,
}

/// The percent weights of every scoring formula, fixed when the engine is
/// built.  Each weight lies in `0 ..= 100`.
#[derive(Clone, Copy, PartialEq, Eq, Structural, Debug)]
pub struct WeightConfig {
    pub top_weight_product_publish: u8,
    pub top_weight_document_identify: u8,
    pub top_weight_document_try: u8,
    pub top_weight_account_attend: u8,
    pub document_power_weight_attend: u8,
    pub document_power_weight_content: u8,
    pub document_power_weight_judge: u8,
    pub comment_power_weight_count: u8,
    pub comment_power_weight_cost: u8,
    pub comment_power_weight_per_cost: u8,
    pub comment_power_weight_positive: u8,
    pub document_publish_weight_params_rate: u8,
    pub document_publish_weight_params_self_rate: u8,
    pub document_identify_weight_params_rate: u8,
    pub document_identify_weight_check_rate: u8,
    pub document_try_weight_bias_rate: u8,
    pub document_try_weight_true_rate: u8,
    pub document_choose_weight_sell_count: u8,
    pub document_choose_weight_try_count: u8,
    pub document_model_weight_producer_count: u8,
    pub document_model_weight_product_count: u8,
    pub document_cm_power_weight_attend: u8,
    pub document_cm_power_weight_content: u8,
    pub document_cm_power_weight_judge: u8,
    pub cm_power_account_attend: u8,
}

impl WeightConfig {
    /// Every weight is a percentage.
    pub open spec fn wf(&self) -> bool {
        &&& self.top_weight_product_publish <= 100
        &&& self.top_weight_document_identify <= 100
        &&& self.top_weight_document_try <= 100
        &&& self.top_weight_account_attend <= 100
        &&& self.document_power_weight_attend <= 100
        &&& self.document_power_weight_content <= 100
        &&& self.document_power_weight_judge <= 100
        &&& self.comment_power_weight_count <= 100
        &&& self.comment_power_weight_cost <= 100
        &&& self.comment_power_weight_per_cost <= 100
        &&& self.comment_power_weight_positive <= 100
        &&& self.document_publish_weight_params_rate <= 100
        &&& self.document_publish_weight_params_self_rate <= 100
        &&& self.document_identify_weight_params_rate <= 100
        &&& self.document_identify_weight_check_rate <= 100
        &&& self.document_try_weight_bias_rate <= 100
        &&& self.document_try_weight_true_rate <= 100
        &&& self.document_choose_weight_sell_count <= 100
        &&& self.document_choose_weight_try_count <= 100
        &&& self.document_model_weight_producer_count <= 100
        &&& self.document_model_weight_product_count <= 100
        &&& self.document_cm_power_weight_attend <= 100
        &&& self.document_cm_power_weight_content <= 100
        &&& self.document_cm_power_weight_judge <= 100
        &&& self.cm_power_account_attend <= 100
    }
}

} // verus!
