use rpay::canonical::build_canonical_request;
use rpay::common::HttpMethod;
use rpay::numfmt::{i64_to_dec_string, u128_to_hex32, u64_to_dec_string};
use rpay::model::{Amount, Detail, GoodsDetailItem, Payer, SceneInfo, SettleInfo, StoreInfo};
use rpay::pay::jsapi::JsApiPay;
use rpay::utils::{base64_decode, base64_encode, format_auth_header, get_nonce_str, random_trade_no};

#[test]
fn canonical_request_is_five_newline_terminated_lines() {
    let s = build_canonical_request(
        &HttpMethod::POST,
        "/v3/pay/transactions/jsapi",
        1554208460,
        "NONCE",
        "{\"total\":100}",
    );
    assert_eq!(
        s,
        "POST\n/v3/pay/transactions/jsapi\n1554208460\nNONCE\n{\"total\":100}\n"
    );
    assert_eq!(s.matches('\n').count(), 5);
    assert!(s.ends_with('\n'));
}

#[test]
fn canonical_request_changes_with_each_field() {
    let base = build_canonical_request(&HttpMethod::GET, "/p", 1, "N", "B");
    assert_ne!(base, build_canonical_request(&HttpMethod::POST, "/p", 1, "N", "B"));
    assert_ne!(base, build_canonical_request(&HttpMethod::GET, "/q", 1, "N", "B"));
    assert_ne!(base, build_canonical_request(&HttpMethod::GET, "/p", 2, "N", "B"));
    assert_ne!(base, build_canonical_request(&HttpMethod::GET, "/p", 1, "M", "B"));
    assert_ne!(base, build_canonical_request(&HttpMethod::GET, "/p", 1, "N", "C"));
}

#[test]
fn empty_body_still_ends_with_a_newline() {
    let s = build_canonical_request(&HttpMethod::GET, "/v3/certificates", 0, "N", "");
    assert_eq!(s, "GET\n/v3/certificates\n0\nN\n\n");
}

#[test]
fn auth_header_has_the_fixed_attribute_layout() {
    let h = format_auth_header("1234567890", "NONCE", "SIG==", 1554208460, "SERIAL");
    assert_eq!(
        h,
        "WECHATPAY2-SHA256-RSA2048 mchid=\"1234567890\",nonce_str=\"NONCE\",signature=\"SIG==\",timestamp=\"1554208460\",serial_no=\"SERIAL\""
    );
}

#[test]
fn decimal_rendering_is_exact() {
    assert_eq!(u64_to_dec_string(0), "0");
    assert_eq!(u64_to_dec_string(1554208460), "1554208460");
    assert_eq!(u64_to_dec_string(u64::MAX), "18446744073709551615");
    assert_eq!(i64_to_dec_string(-42), "-42");
    assert_eq!(i64_to_dec_string(i64::MIN), "-9223372036854775808");
    assert_eq!(i64_to_dec_string(7), "7");
}

#[test]
fn hex_rendering_is_exact_and_padded() {
    assert_eq!(
        u128_to_hex32(0x0123456789abcdef0123456789abcdefu128, false),
        "0123456789abcdef0123456789abcdef"
    );
    assert_eq!(
        u128_to_hex32(0xau128, true),
        "0000000000000000000000000000000A"
    );
}

#[test]
fn nonces_are_32_hex_digits_and_fresh() {
    let a = get_nonce_str();
    let b = get_nonce_str();
    assert_eq!(a.len(), 32);
    assert!(a.chars().all(|c| c.is_ascii_hexdigit()));
    assert_ne!(a, b);
    let t = random_trade_no();
    assert_eq!(t.len(), 32);
}

#[test]
fn base64_round_trip_and_rejection() {
    let data = vec![0u8, 1, 2, 250, 251, 252];
    let text = base64_encode(&data);
    assert_eq!(text, "AAEC+vv8");
    assert_eq!(base64_decode(&text).unwrap(), data);
    assert!(base64_decode("!!!").is_err());
}

#[test]
fn json_escaping_in_wire_bodies() {
    let req = JsApiPay {
        app_id: "a".to_string(),
        mch_id: "m".to_string(),
        description: "say \"hi\"\\\n".to_string(),
        out_trade_no: "O1".to_string(),
        time_expire: None,
        attach: Some("tab\there".to_string()),
        notify_url: "https://merchant.example/notify".to_string(),
        goods_tag: None,
        support_fapiao: Some(true),
        amount: Amount::cny(5),
        payer: Some(Payer::new("X".to_string())),
        detail: None,
        scene_info: None,
        settle_info: None,
    };
    let body = req.to_wire_body();
    assert!(body.contains("\"description\":\"say \\\"hi\\\"\\\\\\n\""));
    assert!(body.contains("\"attach\":\"tab\\there\""));
    assert!(body.contains("\"support_fapiao\":true"));
}

#[test]
fn http_method_text_is_fixed() {
    assert_eq!(HttpMethod::GET.as_str(), "GET");
    assert_eq!(HttpMethod::POST.as_str(), "POST");
    assert_eq!(HttpMethod::PUT.as_str(), "PUT");
    assert_eq!(HttpMethod::DELETE.as_str(), "DELETE");
    assert_eq!(HttpMethod::PATCH.as_str(), "PATCH");
    assert_eq!(HttpMethod::default(), HttpMethod::GET);
}

#[test]
fn error_messages_are_carried() {
    let e = rpay::RPayError::TransportError("the gateway did not answer".to_string());
    assert_eq!(e.message(), "the gateway did not answer");
}

#[test]
fn detail_and_scene_blocks_serialize_fully() {
    let req = JsApiPay {
        app_id: "a".to_string(),
        mch_id: "m".to_string(),
        description: "d".to_string(),
        out_trade_no: "O1".to_string(),
        time_expire: Some("2025-05-20T13:29:35+08:00".to_string()),
        attach: None,
        notify_url: "https://merchant.example/notify".to_string(),
        goods_tag: None,
        support_fapiao: None,
        amount: Amount::cny(150),
        payer: Some(Payer::new("X".to_string())),
        detail: Some(Detail {
            cost_price: 200,
            invoice_id: None,
            goods_detail: vec![
                GoodsDetailItem {
                    merchant_goods_id: Some("G1".to_string()),
                    wechatpay_goods_id: None,
                    goods_name: "tea".to_string(),
                    quantity: 2,
                    unit_price: 75,
                },
                GoodsDetailItem {
                    merchant_goods_id: None,
                    wechatpay_goods_id: Some("W2".to_string()),
                    goods_name: "cup".to_string(),
                    quantity: 1,
                    unit_price: 50,
                },
            ],
        }),
        scene_info: Some(SceneInfo {
            payer_client_ip: "203.0.113.7".to_string(),
            device_id: "013467007045764".to_string(),
            store_info: StoreInfo {
                id: "0001".to_string(),
                name: Some("front gate".to_string()),
                area_code: None,
                address: "1 main street".to_string(),
            },
        }),
        settle_info: Some(SettleInfo { profit_sharing: true }),
    };
    let body = req.to_wire_body();
    assert!(body.contains("\"time_expire\":\"2025-05-20T13:29:35+08:00\""));
    assert!(body.contains(
        "\"detail\":{\"cost_price\":200,\"invoice_id\":null,\"goods_detail\":[{\"merchant_goods_id\":\"G1\",\"wechatpay_goods_id\":null,\"goods_name\":\"tea\",\"quantity\":2,\"unit_price\":75},{\"merchant_goods_id\":null,\"wechatpay_goods_id\":\"W2\",\"goods_name\":\"cup\",\"quantity\":1,\"unit_price\":50}]}"
    ));
    assert!(body.contains(
        "\"scene_info\":{\"payer_client_ip\":\"203.0.113.7\",\"device_id\":\"013467007045764\",\"store_info\":{\"id\":\"0001\",\"name\":\"front gate\",\"area_code\":null,\"address\":\"1 main street\"}}"
    ));
    assert!(body.contains("\"settle_info\":{\"profit_sharing\":true}"));
    assert!(body.ends_with("}"));
    assert!(body.starts_with("{\"appid\":\"a\",\"mchid\":\"m\",\"description\":\"d\""));
}
