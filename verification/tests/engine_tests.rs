use kp::engine::Kp;
use kp::types::{
    CommentTrend, DocumentType, Error, KPProductChooseData, KPProductIdentifyData,
    KPModelCreateData, KPProductPublishData, KPProductTryData, ModelStatus, WeightConfig,
};

fn test_config() -> WeightConfig {
    WeightConfig {
        top_weight_product_publish: 15,
        top_weight_document_identify: 25,
        top_weight_document_try: 35,
        top_weight_account_attend: 5,
        document_power_weight_attend: 40,
        document_power_weight_content: 45,
        document_power_weight_judge: 15,
        comment_power_weight_count: 40,
        comment_power_weight_cost: 30,
        comment_power_weight_per_cost: 20,
        comment_power_weight_positive: 10,
        document_publish_weight_params_rate: 40,
        document_publish_weight_params_self_rate: 60,
        document_identify_weight_params_rate: 50,
        document_identify_weight_check_rate: 50,
        document_try_weight_bias_rate: 70,
        document_try_weight_true_rate: 30,
        document_choose_weight_sell_count: 60,
        document_choose_weight_try_count: 40,
        document_model_weight_producer_count: 50,
        document_model_weight_product_count: 50,
        document_cm_power_weight_attend: 45,
        document_cm_power_weight_content: 35,
        document_cm_power_weight_judge: 20,
        cm_power_account_attend: 5,
    }
}

/// An engine with one commodity type, room for models in tenant 1, and one
/// model (1, 77).
fn engine_with_model() -> Kp {
    let mut kp = Kp::new(test_config());
    kp.create_commodity_type(9, b"general".to_vec()).unwrap();
    kp.set_app_model_total(1, 10);
    kp.create_model(1, 77, 5, b"m".to_vec(), 9, 1000).unwrap();
    kp
}

#[test]
fn fresh_engine_reads_all_defaults() {
    let kp = Kp::new(test_config());
    assert_eq!(kp.kp_total_power(), 0);
    assert_eq!(kp.kp_account_power(1), 0);
    assert_eq!(kp.kp_auth_account_power(1), 0);
    assert_eq!(kp.kp_commodity_power(1, 2), 0);
    assert!(!kp.is_commodity_power_exist(1, 2));
    let p = kp.kp_document_power(1, 2);
    assert_eq!((p.attend, p.content, p.judge), (0, 0, 0));
    assert_eq!(kp.kp_account_attend_power(1, 2), 0);
    assert!(kp.kp_get_commodity_types().is_empty());
}

#[test]
fn commodity_types_stay_sorted_and_unique() {
    let mut kp = Kp::new(test_config());
    kp.create_commodity_type(30, b"c".to_vec()).unwrap();
    kp.create_commodity_type(10, b"a".to_vec()).unwrap();
    kp.create_commodity_type(20, b"b".to_vec()).unwrap();
    assert_eq!(
        kp.create_commodity_type(20, b"again".to_vec()),
        Err(Error::CommodityTypeExisted)
    );
    let types = kp.kp_get_commodity_types();
    let ids: Vec<u32> = types.iter().map(|t| t.type_id).collect();
    assert_eq!(ids, vec![10, 20, 30]);
    assert_eq!(types[0].type_desc, b"a".to_vec());
}

#[test]
fn create_model_checks_run_in_order() {
    let mut kp = Kp::new(test_config());
    // unknown commodity type
    assert_eq!(
        kp.create_model(1, 77, 5, b"m".to_vec(), 9, 1000),
        Err(Error::ModelTypeInvalid)
    );
    kp.create_commodity_type(9, b"general".to_vec()).unwrap();
    // no capacity configured yet
    assert_eq!(
        kp.create_model(1, 77, 5, b"m".to_vec(), 9, 1000),
        Err(Error::ModelOverSizeLimit)
    );
    kp.set_app_model_total(1, 1);
    kp.create_model(1, 77, 5, b"m".to_vec(), 9, 1000).unwrap();
    // duplicate id
    assert_eq!(
        kp.create_model(1, 77, 5, b"m".to_vec(), 9, 1000),
        Err(Error::ModelAlreadyExisted)
    );
    // capacity of one is exhausted
    assert_eq!(
        kp.create_model(1, 78, 5, b"m".to_vec(), 9, 1000),
        Err(Error::ModelOverSizeLimit)
    );
}

#[test]
fn disable_model_needs_an_existing_model() {
    let mut kp = engine_with_model();
    assert_eq!(kp.disable_model(1, 99), Err(Error::ModelNotFound));
    assert_eq!(kp.disable_model(1, 77), Ok(()));
    // disabling again still finds the (now disabled) model
    assert_eq!(kp.disable_model(1, 77), Ok(()));
}

#[test]
fn publish_document_requires_fresh_ids_and_known_model() {
    let mut kp = engine_with_model();
    let data = KPProductPublishData { para_issue_rate: 50, self_issue_rate: 50 };
    assert_eq!(
        kp.create_product_publish_document(1, 200, 99, 300, data, 1000),
        Err(Error::ModelNotFound)
    );
    kp.create_product_publish_document(1, 200, 77, 300, data, 1000).unwrap();
    assert_eq!(
        kp.create_product_publish_document(1, 200, 77, 301, data, 1000),
        Err(Error::DocumentAlreadyExisted)
    );
    assert_eq!(
        kp.create_product_publish_document(1, 201, 77, 300, data, 1000),
        Err(Error::ProductAlreadyExisted)
    );
}

#[test]
fn zero_metrics_store_no_power_record() {
    let mut kp = engine_with_model();
    let data = KPProductPublishData { para_issue_rate: 0, self_issue_rate: 0 };
    kp.create_product_publish_document(1, 200, 77, 300, data, 1000).unwrap();
    let p = kp.kp_document_power(1, 200);
    assert_eq!((p.attend, p.content, p.judge), (0, 0, 0));
}

#[test]
fn choose_document_earns_cm_weighted_power() {
    let mut kp = engine_with_model();
    let data = KPProductChooseData { sell_count: 7, try_count: 9 };
    kp.create_product_choose_document(1, 400, 77, 300, data, 1000).unwrap();
    let p = kp.kp_document_power(1, 400);
    // both metrics are first maxima: full rates; 100% * 35% * 10000 = 3500
    assert_eq!(p.content, 3500);
    // initial judge: 0.375 * 20% * 100% * 10000 = 750
    assert_eq!(p.judge, 750);
    assert_eq!(p.attend, 0);
    // choose documents do not propagate purchase power
    assert_eq!(kp.kp_total_power(), 0);
}

#[test]
fn model_create_document_earns_cm_weighted_power() {
    let mut kp = engine_with_model();
    let data = KPModelCreateData { producer_count: 3, product_count: 4 };
    kp.create_model_create_document(1, 500, 77, 300, data, 1000).unwrap();
    let p = kp.kp_document_power(1, 500);
    assert_eq!(p.content, 3500);
    assert_eq!(p.judge, 750);
}

#[test]
fn duplicate_identify_document_is_rejected() {
    let mut kp = engine_with_model();
    let data = KPProductIdentifyData {
        goods_price: 10,
        ident_rate: 50,
        ident_consistence: 50,
        cart_id: 1,
    };
    kp.create_product_identify_document(1, 600, 77, 300, data, 1000).unwrap();
    assert_eq!(
        kp.create_product_identify_document(1, 600, 77, 300, data, 1000),
        Err(Error::DocumentAlreadyExisted)
    );
}

#[test]
fn duplicate_try_document_is_rejected() {
    let mut kp = engine_with_model();
    let data = KPProductTryData { goods_price: 10, offset_rate: 50, true_rate: 50, cart_id: 1 };
    kp.create_product_try_document(1, 700, 77, 300, data, 1000).unwrap();
    assert_eq!(
        kp.create_product_try_document(1, 700, 77, 300, data, 1000),
        Err(Error::DocumentAlreadyExisted)
    );
}

#[test]
fn comments_need_a_document_and_a_fresh_id() {
    let mut kp = engine_with_model();
    assert_eq!(
        kp.create_comment(1, 900, 200, 10, 0, 2000, false, false),
        Err(Error::DocumentNotFound)
    );
    let data = KPProductPublishData { para_issue_rate: 50, self_issue_rate: 50 };
    kp.create_product_publish_document(1, 200, 77, 300, data, 1000).unwrap();
    kp.create_comment(1, 900, 200, 10, 0, 2000, false, false).unwrap();
    assert_eq!(
        kp.create_comment(1, 900, 200, 10, 0, 2000, false, false),
        Err(Error::CommentAlreadyExisted)
    );
}

#[test]
fn year_income_checks_admin_uniqueness_and_overflow() {
    let mut kp = Kp::new(test_config());
    assert_eq!(
        kp.set_model_year_income(false, 2020, 1, 77, 10),
        Err(Error::NotAppAdmin)
    );
    kp.set_model_year_income(true, 2020, 1, 77, u64::MAX).unwrap();
    assert_eq!(
        kp.set_model_year_income(true, 2020, 1, 77, 5),
        Err(Error::ModelYearIncomeAlreadyExisted)
    );
    assert_eq!(
        kp.set_model_year_income(true, 2020, 1, 78, 1),
        Err(Error::AddOverflow)
    );
    // another year starts its own total
    kp.set_model_year_income(true, 2021, 1, 78, 1).unwrap();
}

#[test]
fn democracy_slash_needs_the_comment() {
    let mut kp = engine_with_model();
    assert_eq!(
        kp.democracy_slash_commodity_power(1, 1, 999),
        Err(Error::CommentNotFound)
    );
}

#[test]
fn status_and_type_codes_decode() {
    assert_eq!(ModelStatus::from(0u8), ModelStatus::ENABLED);
    assert_eq!(ModelStatus::from(1u8), ModelStatus::DISABLED);
    assert_eq!(ModelStatus::from(7u8), ModelStatus::ENABLED);
    assert_eq!(DocumentType::from(0u8), DocumentType::ProductPublish);
    assert_eq!(DocumentType::from(1u8), DocumentType::ProductIdentify);
    assert_eq!(DocumentType::from(2u8), DocumentType::ProductTry);
    assert_eq!(DocumentType::from(3u8), DocumentType::ProductChoose);
    assert_eq!(DocumentType::from(4u8), DocumentType::ModelCreate);
    assert_eq!(DocumentType::from(9u8), DocumentType::Unknown);
    assert_eq!(CommentTrend::from(0u8), CommentTrend::Positive);
    assert_eq!(CommentTrend::from(1u8), CommentTrend::Negative);
    assert_eq!(CommentTrend::from(4u8), CommentTrend::Empty);
    assert_eq!(ModelStatus::default(), ModelStatus::ENABLED);
    assert_eq!(DocumentType::default(), DocumentType::ProductPublish);
    assert_eq!(CommentTrend::default(), CommentTrend::Empty);
}

#[test]
fn disable_model_flips_the_status_once() {
    let mut kp = engine_with_model();
    assert_eq!(kp.kp_model_data_by_idhash(1, 77).unwrap().status, ModelStatus::ENABLED);
    kp.disable_model(1, 77).unwrap();
    let m = kp.kp_model_data_by_idhash(1, 77).unwrap();
    assert_eq!(m.status, ModelStatus::DISABLED);
    // the rest of the record is untouched
    assert_eq!(m.commodity_type, 9);
    assert_eq!(m.owner, 1000);
    assert_eq!(m.commodity_name, b"m".to_vec());
    assert!(kp.kp_model_data_by_idhash(1, 78).is_none());
}

#[test]
fn document_record_carries_identity_and_counters() {
    let mut kp = engine_with_model();
    let data = KPProductPublishData { para_issue_rate: 50, self_issue_rate: 50 };
    kp.create_product_publish_document(1, 200, 77, 300, data, 1000).unwrap();
    let d = kp.kp_document_data_by_idhash(1, 200).unwrap();
    assert_eq!(d.app_id, 1);
    assert_eq!(d.document_id, 200);
    assert_eq!(d.model_id, 77);
    assert_eq!(d.product_id, 300);
    assert_eq!(d.owner, 1000);
    assert_eq!(d.document_type, DocumentType::ProductPublish);
    assert_eq!(d.comment_count, 0);
    assert_eq!(d.expert_trend, CommentTrend::Empty);
    assert!(kp.kp_document_data_by_idhash(1, 201).is_none());
}

#[test]
fn comment_record_is_stored_as_sent() {
    let mut kp = engine_with_model();
    let data = KPProductPublishData { para_issue_rate: 50, self_issue_rate: 50 };
    kp.create_product_publish_document(1, 200, 77, 300, data, 1000).unwrap();
    kp.create_comment(1, 900, 200, 10, 1, 2000, false, false).unwrap();
    let c = kp.kp_comment_data_by_idhash(1, 900).unwrap();
    assert_eq!(c.document_id, 200);
    assert_eq!(c.comment_fee, 10);
    assert_eq!(c.comment_trend, 1);
    assert_eq!(c.owner, 2000);
    assert!(kp.kp_comment_data_by_idhash(1, 901).is_none());
}

#[test]
fn comment_maxima_never_decrease() {
    let mut kp = engine_with_model();
    let data = KPProductPublishData { para_issue_rate: 50, self_issue_rate: 50 };
    kp.create_product_publish_document(1, 200, 77, 300, data, 1000).unwrap();
    kp.create_comment(1, 900, 200, 40, 0, 2000, false, false).unwrap();
    let m1 = kp.comment_max_info_per_doc_map(1);
    assert_eq!((m1.max_count, m1.max_fee, m1.max_positive, m1.max_unit_fee), (1, 40, 1, 40));
    // a cheaper comment raises the count but no fee maximum
    kp.create_comment(1, 901, 200, 4, 1, 2001, false, false).unwrap();
    let m2 = kp.comment_max_info_per_doc_map(1);
    assert_eq!((m2.max_count, m2.max_fee, m2.max_positive, m2.max_unit_fee), (2, 44, 1, 40));
    assert!(m2.max_count >= m1.max_count && m2.max_fee >= m1.max_fee);
    assert!(m2.max_positive >= m1.max_positive && m2.max_unit_fee >= m1.max_unit_fee);
    // account-scope maxima run separately: each commenter has one comment
    let a = kp.comment_max_info_per_account_map(1);
    assert_eq!((a.max_count, a.max_fee, a.max_positive, a.max_unit_fee), (1, 40, 1, 40));
}

#[test]
fn commodity_type_equality_goes_by_id() {
    let a = kp::types::CommodityTypeData { type_id: 9, type_desc: b"one".to_vec() };
    let b = kp::types::CommodityTypeData { type_id: 9, type_desc: b"another".to_vec() };
    let c = kp::types::CommodityTypeData { type_id: 10, type_desc: b"one".to_vec() };
    // two records are the same commodity type when their ids agree,
    // whatever their descriptions say
    assert!(a == b);
    assert!(a != c);
}
