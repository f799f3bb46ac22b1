use kp::engine::Kp;
use kp::types::{
    DocumentPower, KPProductIdentifyData, KPProductPublishData, KPProductTryData, PowerSum,
    WeightConfig,
};

fn flow_config() -> WeightConfig {
    WeightConfig {
        top_weight_product_publish: 15,
        top_weight_document_identify: 25,
        top_weight_document_try: 35,
        top_weight_account_attend: 5,
        document_power_weight_attend: 40,
        document_power_weight_content: 45,
        document_power_weight_judge: 15,
        comment_power_weight_count: 40,
        comment_power_weight_cost: 30,
        comment_power_weight_per_cost: 20,
        comment_power_weight_positive: 10,
        document_publish_weight_params_rate: 40,
        document_publish_weight_params_self_rate: 60,
        document_identify_weight_params_rate: 50,
        document_identify_weight_check_rate: 50,
        document_try_weight_bias_rate: 70,
        document_try_weight_true_rate: 30,
        document_choose_weight_sell_count: 60,
        document_choose_weight_try_count: 40,
        document_model_weight_producer_count: 50,
        document_model_weight_product_count: 50,
        document_cm_power_weight_attend: 45,
        document_cm_power_weight_content: 35,
        document_cm_power_weight_judge: 20,
        cm_power_account_attend: 5,
    }
}

fn prepared_engine() -> Kp {
    let mut kp = Kp::new(flow_config());
    kp.create_commodity_type(9, b"general".to_vec()).unwrap();
    kp.set_app_model_total(1, 10);
    kp.create_model(1, 77, 5, b"m".to_vec(), 9, 1000).unwrap();
    kp
}

#[test]
fn first_publish_document_scores_the_full_formula() {
    let mut kp = prepared_engine();
    let data = KPProductPublishData { para_issue_rate: 50, self_issue_rate: 50 };
    kp.create_product_publish_document(1, 200, 77, 300, data, 1000).unwrap();
    let p = kp.kp_document_power(1, 200);
    // both maxima become 50, both rates 1.0:
    // (1.0*40% + 1.0*60%) * 45% * 15% * 10000 = 675
    assert_eq!(p.content, 675);
    // initial judge: 0.375 * 15% * 15% * 10000 = 84 (truncated)
    assert_eq!(p.judge, 84);
    assert_eq!(p.attend, 0);
    assert_eq!(p.total(), 759);
    // publish documents do not propagate purchase power
    assert_eq!(kp.kp_total_power(), 0);
}

#[test]
fn later_metrics_normalize_against_running_maxima() {
    let mut kp = prepared_engine();
    let first = KPProductPublishData { para_issue_rate: 50, self_issue_rate: 50 };
    kp.create_product_publish_document(1, 200, 77, 300, first, 1000).unwrap();
    // para 25 scores 0.5 against max 50; self 100 raises the max, scoring 1.0
    let second = KPProductPublishData { para_issue_rate: 25, self_issue_rate: 100 };
    kp.create_product_publish_document(1, 201, 77, 301, second, 1000).unwrap();
    // (0.5*40% + 1.0*60%) * 45% * 15% * 10000 = 540
    assert_eq!(kp.kp_document_power(1, 201).content, 540);
    // the earlier document's stored power is untouched
    assert_eq!(kp.kp_document_power(1, 200).content, 675);
    // a third document scored against the raised maximum
    let third = KPProductPublishData { para_issue_rate: 50, self_issue_rate: 50 };
    kp.create_product_publish_document(1, 202, 77, 302, third, 1000).unwrap();
    // (1.0*40% + 0.5*60%) * 45% * 15% * 10000 = 472.5, truncated
    assert_eq!(kp.kp_document_power(1, 202).content, 472);
}

#[test]
fn identify_then_paired_try_sums_both_documents() {
    let mut kp = prepared_engine();
    let ident = KPProductIdentifyData {
        goods_price: 10,
        ident_rate: 50,
        ident_consistence: 50,
        cart_id: 42,
    };
    kp.create_product_identify_document(1, 600, 77, 300, ident, 1000).unwrap();
    // identify content: (1.0*50% + 1.0*50%) * 45% * 25% * 10000 = 1125
    // identify judge: 0.375 * 15% * 25% * 10000 = 140 (truncated)
    let ip = kp.kp_document_power(1, 600);
    assert_eq!((ip.content, ip.judge), (1125, 140));
    // the creation propagated the cart's power to owner and global total
    assert_eq!(kp.kp_commodity_power(1, 42), 1265);
    assert!(kp.is_commodity_power_exist(1, 42));
    assert_eq!(kp.kp_account_power(1000), 1265);
    assert_eq!(kp.kp_total_power(), 1265);

    let tr = KPProductTryData { goods_price: 10, offset_rate: 50, true_rate: 50, cart_id: 42 };
    kp.create_product_try_document(1, 700, 77, 300, tr, 1000).unwrap();
    // try content: (1.0*70% + 1.0*30%) * 45% * 35% * 10000 = 1575
    // try judge: 0.375 * 15% * 35% * 10000 = 196 (truncated)
    let tp = kp.kp_document_power(1, 700);
    assert_eq!((tp.content, tp.judge), (1575, 196));
    // the paired identify document's total is part of the new cart power
    assert_eq!(kp.kp_commodity_power(1, 42), 1575 + 196 + 1265);
    assert_eq!(kp.kp_account_power(1000), 3036);
    assert_eq!(kp.kp_total_power(), 3036);
}

#[test]
fn unpaired_try_document_sums_only_itself() {
    let mut kp = prepared_engine();
    let tr = KPProductTryData { goods_price: 10, offset_rate: 50, true_rate: 50, cart_id: 8 };
    kp.create_product_try_document(1, 700, 77, 300, tr, 1000).unwrap();
    assert_eq!(kp.kp_commodity_power(1, 8), 1575 + 196);
}

#[test]
fn comment_updates_document_and_account_attend_power() {
    let mut kp = prepared_engine();
    let data = KPProductPublishData { para_issue_rate: 50, self_issue_rate: 50 };
    kp.create_product_publish_document(1, 200, 77, 300, data, 1000).unwrap();
    kp.create_comment(1, 900, 200, 10, 0, 2000, false, false).unwrap();
    // all four first-comment rates are 1.0:
    // document attend: 100% * 40% * 15% * 10000 = 600
    assert_eq!(kp.kp_document_power(1, 200).attend, 600);
    // account attend: 100% * 100% * 5% * 10000 = 500
    assert_eq!(kp.kp_account_attend_power(1, 2000), 500);
    // content power stays as it was
    assert_eq!(kp.kp_document_power(1, 200).content, 675);
}

#[test]
fn unit_fee_is_total_fee_over_count() {
    let mut kp = prepared_engine();
    let data = KPProductPublishData { para_issue_rate: 50, self_issue_rate: 50 };
    kp.create_product_publish_document(1, 200, 77, 300, data, 1000).unwrap();
    // fees 10 and 30: the document's unit fee becomes 40 / 2 = 20
    kp.create_comment(1, 900, 200, 10, 0, 2000, false, false).unwrap();
    kp.create_comment(1, 901, 200, 30, 1, 2001, false, false).unwrap();
    // with every rate back at 1.0 the attend power is unchanged
    assert_eq!(kp.kp_document_power(1, 200).attend, 600);
    // a third cheap comment drops the unit fee to 42/3 = 14 against max 20:
    // (1.0*40% + 1.0*30% + 0.7*20% + 1.0*10%) * 40% * 15% * 10000 = 564
    kp.create_comment(1, 902, 200, 2, 1, 2002, false, false).unwrap();
    assert_eq!(kp.kp_document_power(1, 200).attend, 564);
}

#[test]
fn trend_slots_set_once_and_freeze() {
    let mut kp = prepared_engine();
    let data = KPProductPublishData { para_issue_rate: 50, self_issue_rate: 50 };
    kp.create_product_publish_document(1, 200, 77, 300, data, 1000).unwrap();
    assert_eq!(kp.kp_document_power(1, 200).judge, 84);
    // an expert's positive comment fills the expert slot:
    // judge = 0.75 * 15% * 15% * 10000 = 168 (truncated)
    kp.create_comment(1, 900, 200, 10, 0, 2000, true, false).unwrap();
    assert_eq!(kp.kp_document_power(1, 200).judge, 168);
    // the platform's negative comment fills the other slot:
    // judge = 0.25 * 15% * 15% * 10000 = 56 (truncated)
    kp.create_comment(1, 901, 200, 10, 1, 2001, false, true).unwrap();
    assert_eq!(kp.kp_document_power(1, 200).judge, 56);
    // both slots are frozen now
    kp.create_comment(1, 902, 200, 10, 0, 2002, true, true).unwrap();
    assert_eq!(kp.kp_document_power(1, 200).judge, 56);
}

#[test]
fn replaying_an_unchanged_cart_state_moves_nothing() {
    let mut kp = prepared_engine();
    let ident = KPProductIdentifyData {
        goods_price: 10,
        ident_rate: 50,
        ident_consistence: 50,
        cart_id: 42,
    };
    kp.create_product_identify_document(1, 600, 77, 300, ident, 1000).unwrap();
    kp.create_comment(1, 900, 600, 5, 0, 2000, false, false).unwrap();
    let total = kp.kp_total_power();
    let account = kp.kp_account_power(1000);
    let cart = kp.kp_commodity_power(1, 42);
    // a second identical comment leaves every rate at 1.0, so the
    // recomputed cart power equals the snapshot and nothing moves
    kp.create_comment(1, 901, 600, 5, 0, 2000, false, false).unwrap();
    assert_eq!(kp.kp_total_power(), total);
    assert_eq!(kp.kp_account_power(1000), account);
    assert_eq!(kp.kp_commodity_power(1, 42), cart);
}

#[test]
fn slash_zeroes_snapshot_and_clamps_account() {
    let mut kp = prepared_engine();
    let ident = KPProductIdentifyData {
        goods_price: 10,
        ident_rate: 50,
        ident_consistence: 50,
        cart_id: 42,
    };
    kp.create_product_identify_document(1, 600, 77, 300, ident, 1000).unwrap();
    assert_eq!(kp.kp_commodity_power(1, 42), 1265);
    assert_eq!(kp.kp_account_power(1000), 1265);
    let total_before = kp.kp_total_power();

    // slashing an untouched cart is a no-op
    kp.slash_power(1, 8, 1000);
    assert_eq!(kp.kp_account_power(1000), 1265);

    // slashing against an account below the snapshot clamps at zero
    kp.slash_power(1, 42, 555);
    assert_eq!(kp.kp_commodity_power(1, 42), 0);
    assert_eq!(kp.kp_account_power(555), 0);

    // the global total is deliberately untouched by slashing
    assert_eq!(kp.kp_total_power(), total_before);
}

#[test]
fn slash_subtracts_exactly_when_covered() {
    let mut kp = prepared_engine();
    let ident = KPProductIdentifyData {
        goods_price: 10,
        ident_rate: 50,
        ident_consistence: 50,
        cart_id: 42,
    };
    kp.create_product_identify_document(1, 600, 77, 300, ident, 1000).unwrap();
    let tr = KPProductTryData { goods_price: 10, offset_rate: 50, true_rate: 50, cart_id: 43 };
    kp.create_product_try_document(1, 700, 77, 301, tr, 1000).unwrap();
    // two carts: 1265 and 1771; the account carries their sum
    assert_eq!(kp.kp_account_power(1000), 1265 + 1771);
    kp.slash_power(1, 42, 1000);
    assert_eq!(kp.kp_commodity_power(1, 42), 0);
    assert_eq!(kp.kp_account_power(1000), 1771);
    // slashing the same cart again is a no-op
    kp.slash_power(1, 42, 1000);
    assert_eq!(kp.kp_account_power(1000), 1771);
}

#[test]
fn democracy_slash_reaches_the_document_owner() {
    let mut kp = prepared_engine();
    let ident = KPProductIdentifyData {
        goods_price: 10,
        ident_rate: 50,
        ident_consistence: 50,
        cart_id: 42,
    };
    kp.create_product_identify_document(1, 600, 77, 300, ident, 1000).unwrap();
    kp.create_comment(1, 900, 600, 5, 0, 2000, false, false).unwrap();
    let account_before = kp.kp_account_power(1000);
    assert!(account_before > 0);
    kp.democracy_slash_commodity_power(1, 42, 900).unwrap();
    assert_eq!(kp.kp_commodity_power(1, 42), 0);
    assert!(kp.kp_account_power(1000) < account_before);
}

#[test]
fn replay_on_two_instances_is_bit_identical() {
    let mut a = prepared_engine();
    let mut b = prepared_engine();
    let pubd = KPProductPublishData { para_issue_rate: 50, self_issue_rate: 30 };
    let ident = KPProductIdentifyData {
        goods_price: 10,
        ident_rate: 31,
        ident_consistence: 77,
        cart_id: 42,
    };
    let tr = KPProductTryData { goods_price: 10, offset_rate: 11, true_rate: 93, cart_id: 42 };
    for kp in [&mut a, &mut b] {
        kp.create_product_publish_document(1, 200, 77, 300, pubd, 1000).unwrap();
        kp.create_product_identify_document(1, 600, 77, 300, ident, 1000).unwrap();
        kp.create_product_try_document(1, 700, 77, 300, tr, 1001).unwrap();
        kp.create_comment(1, 900, 600, 13, 0, 2000, true, false).unwrap();
        kp.create_comment(1, 901, 700, 29, 1, 2000, false, true).unwrap();
    }
    assert_eq!(a.kp_total_power(), b.kp_total_power());
    for account in [1000u64, 1001, 2000] {
        assert_eq!(a.kp_account_power(account), b.kp_account_power(account));
    }
    for doc in [200u64, 600, 700] {
        let (pa, pb) = (a.kp_document_power(1, doc), b.kp_document_power(1, doc));
        assert_eq!((pa.attend, pa.content, pa.judge), (pb.attend, pb.content, pb.judge));
    }
    assert_eq!(a.kp_commodity_power(1, 42), b.kp_commodity_power(1, 42));
}

#[test]
fn publish_power_joins_the_cart_through_the_product_index() {
    let mut kp = prepared_engine();
    let pubd = KPProductPublishData { para_issue_rate: 50, self_issue_rate: 50 };
    kp.create_product_publish_document(1, 200, 77, 300, pubd, 1000).unwrap();
    let publish_total = kp.kp_document_power(1, 200).total();
    assert_eq!(publish_total, 759);
    // an identify document for the same product pulls the publish power in
    let ident = KPProductIdentifyData {
        goods_price: 10,
        ident_rate: 50,
        ident_consistence: 50,
        cart_id: 42,
    };
    kp.create_product_identify_document(1, 600, 77, 300, ident, 1000).unwrap();
    assert_eq!(kp.kp_commodity_power(1, 42), 1265 + 759);
}

#[test]
fn owner_attend_power_joins_the_cart() {
    let mut kp = prepared_engine();
    let pubd = KPProductPublishData { para_issue_rate: 50, self_issue_rate: 50 };
    kp.create_product_publish_document(1, 200, 77, 300, pubd, 1000).unwrap();
    // the future identify owner comments first and earns attend power
    kp.create_comment(1, 900, 200, 10, 0, 1000, false, false).unwrap();
    assert_eq!(kp.kp_account_attend_power(1, 1000), 500);
    let ident = KPProductIdentifyData {
        goods_price: 10,
        ident_rate: 50,
        ident_consistence: 50,
        cart_id: 43,
    };
    // product 999 has no publish document, so the sum is the identify
    // document itself plus the owner's attend power
    kp.create_product_identify_document(1, 600, 77, 999, ident, 1000).unwrap();
    assert_eq!(kp.kp_commodity_power(1, 43), 1265 + 500);
}

#[test]
fn document_power_total_sums_components() {
    let p = DocumentPower { attend: 1, content: 2, judge: 3 };
    assert_eq!(p.total(), 6);
}

#[test]
fn two_comment_fees_average_in_the_document_record() {
    let mut kp = prepared_engine();
    let data = KPProductPublishData { para_issue_rate: 50, self_issue_rate: 50 };
    kp.create_product_publish_document(1, 200, 77, 300, data, 1000).unwrap();
    kp.create_comment(1, 900, 200, 10, 0, 2000, false, false).unwrap();
    kp.create_comment(1, 901, 200, 30, 0, 2001, false, false).unwrap();
    let d = kp.kp_document_data_by_idhash(1, 200).unwrap();
    assert_eq!(d.comment_count, 2);
    assert_eq!(d.comment_total_fee, 40);
    // unit fee at document scope: 40 / 2 = 20, recorded as the new maximum
    assert_eq!(kp.comment_max_info_per_doc_map(1).max_unit_fee, 20);
    // per-account statistics stay per account
    let a = kp.kp_comment_account_record_map(1, 2000);
    assert_eq!((a.count, a.fees, a.positive_count), (1, 10, 1));
}

#[test]
fn trend_slots_persist_on_the_document_record() {
    let mut kp = prepared_engine();
    let data = KPProductPublishData { para_issue_rate: 50, self_issue_rate: 50 };
    kp.create_product_publish_document(1, 200, 77, 300, data, 1000).unwrap();
    kp.create_comment(1, 900, 200, 10, 0, 2000, true, false).unwrap();
    kp.create_comment(1, 901, 200, 10, 1, 2001, false, true).unwrap();
    let d = kp.kp_document_data_by_idhash(1, 200).unwrap();
    assert_eq!(d.expert_trend, kp::types::CommentTrend::Positive);
    assert_eq!(d.platform_trend, kp::types::CommentTrend::Negative);
}

#[test]
fn content_processing_is_callable_on_its_own() {
    let mut kp = prepared_engine();
    let doc = kp::types::KPDocumentData {
        app_id: 1,
        document_id: 201,
        model_id: 77,
        product_id: 301,
        owner: 1000,
        document_type: kp::types::DocumentType::ProductPublish,
        document_data: kp::types::DocumentSpecificData::ProductPublish(KPProductPublishData {
            para_issue_rate: 50,
            self_issue_rate: 50,
        }),
        comment_count: 0,
        comment_total_fee: 0,
        comment_positive_count: 0,
        expert_trend: kp::types::CommentTrend::Empty,
        platform_trend: kp::types::CommentTrend::Empty,
    };
    kp.process_document_content_power(&doc);
    let p = kp.kp_document_power(1, 201);
    // at full rates the closed form applies: (40 + 60) * 45 * 15 / 100 = 675
    assert_eq!(p.content, 675);
    assert_eq!(p.judge, 84);
}
