use auto_api_client::{
    decode_change_id, decode_changes, decode_json, decode_offers, format_int, message_from, parse_i64,
    take_chars, trim_trailing_slashes, Client, Error, Json, Method, OfferData, OfferItem,
    OffersParams, DEFAULT_API_VERSION, DEFAULT_BASE_URL, DEFAULT_TIMEOUT_SECS,
};

fn keys(pairs: &[(String, String)]) -> Vec<&str> {
    pairs.iter().map(|(k, _)| k.as_str()).collect()
}

#[test]
fn new_client_defaults() {
    let client = Client::new("k");
    assert_eq!(client.api_key(), "k");
    assert_eq!(client.base_url(), DEFAULT_BASE_URL);
    assert_eq!(client.api_version(), DEFAULT_API_VERSION);
    assert_eq!(client.timeout_secs(), DEFAULT_TIMEOUT_SECS);
    assert_eq!(
        client.get_filters("encar").url,
        "https://api1.auto-api.com/api/v2/encar/filters"
    );
}

#[test]
fn offers_query_all_filters_in_order() {
    let params = OffersParams {
        page: 3,
        brand: Some("Hyundai".into()),
        model: Some("Sonata".into()),
        configuration: Some("c".into()),
        complectation: Some("t".into()),
        transmission: Some("auto".into()),
        color: Some("white".into()),
        body_type: Some("sedan".into()),
        engine_type: Some("petrol".into()),
        year_from: Some(2020),
        year_to: Some(2024),
        mileage_from: Some(0),
        mileage_to: Some(150000),
        price_from: Some(-5),
        price_to: Some(50000),
    };
    let req = Client::new("key").get_offers("encar", &params);
    assert_eq!(
        keys(&req.query),
        vec![
            "page", "brand", "model", "configuration", "complectation", "transmission", "color",
            "body_type", "engine_type", "year_from", "year_to", "mileage_from", "mileage_to",
            "price_from", "price_to", "api_key"
        ]
    );
    assert_eq!(req.query[0].1, "3");
    assert_eq!(req.query[1].1, "Hyundai");
    assert_eq!(req.query[9].1, "2020");
    assert_eq!(req.query[11].1, "0");
    assert_eq!(req.query[13].1, "-5");
    assert_eq!(req.query[15].1, "key");
}

#[test]
fn offers_query_omits_unset_filters() {
    let params = OffersParams {
        page: 1,
        color: Some("red".into()),
        price_to: Some(9000),
        ..Default::default()
    };
    let pairs = params.to_query_pairs();
    assert_eq!(keys(&pairs), vec!["page", "color", "price_to"]);
    let req = Client::new("key").get_offers("encar", &OffersParams::default());
    assert_eq!(keys(&req.query), vec!["page", "api_key"]);
    assert_eq!(req.query[0].1, "0");
}

#[test]
fn trailing_slash_gives_same_urls() {
    let mut a = Client::new("k");
    a.set_base_url("http://x/");
    let mut b = Client::new("k");
    b.set_base_url("http://x");
    let mut c = Client::new("k");
    c.set_base_url("http://x///");
    assert_eq!(a.base_url(), "http://x");
    assert_eq!(a.get_filters("encar").url, "http://x/api/v2/encar/filters");
    assert_eq!(a.get_filters("encar").url, b.get_filters("encar").url);
    assert_eq!(c.get_changes("encar", 1).url, b.get_changes("encar", 1).url);
    assert_eq!(a.get_offer_by_url("u").url, "http://x/api/v1/offer/info");
    assert_eq!(a.get_offer_by_url("u").url, b.get_offer_by_url("u").url);
}

#[test]
fn offer_by_url_is_post_with_header_and_escaped_body() {
    let mut client = Client::new("secret");
    client.set_api_version("v9");
    let req = client.get_offer_by_url(r#"https://e.com/a"b\c"#);
    assert_eq!(req.method, Method::Post);
    assert_eq!(req.url, "https://api1.auto-api.com/api/v1/offer/info");
    assert!(req.query.is_empty());
    assert_eq!(req.headers.len(), 2);
    assert_eq!(req.headers[0], ("x-api-key".to_string(), "secret".to_string()));
    assert_eq!(
        req.headers[1],
        ("content-type".to_string(), "application/json".to_string())
    );
    assert_eq!(req.body.as_deref(), Some(r#"{"url":"https://e.com/a\"b\\c"}"#));
}

#[test]
fn filters_scenario_returns_document_and_sends_key() {
    let mut client = Client::new("cred");
    client.set_base_url("http://mock");
    let req = client.get_filters("encar");
    assert_eq!(req.url, "http://mock/api/v2/encar/filters");
    assert_eq!(req.query, vec![("api_key".to_string(), "cred".to_string())]);
    let doc = decode_json(200, r#"{"brands":["Toyota","Honda"]}"#.to_string()).unwrap();
    let brands = doc.get("brands").unwrap();
    assert_eq!(brands.at(0).and_then(|b| b.as_str()), Some("Toyota"));
    assert_eq!(brands.at(1).and_then(|b| b.as_str()), Some("Honda"));
    assert!(brands.at(2).is_none());
    assert!(doc.get("models").is_none());
}

#[test]
fn server_error_scenario() {
    match decode_json(500, r#"{"message":"Internal server error"}"#.to_string()).unwrap_err() {
        Error::Api { status_code, message, body } => {
            assert_eq!(status_code, 500);
            assert_eq!(message, "Internal server error");
            assert_eq!(body, r#"{"message":"Internal server error"}"#);
        }
        other => panic!("expected Error::Api, got {:?}", other),
    }
}

#[test]
fn auth_error_whatever_the_body() {
    match decode_offers(403, "<html>denied</html>".to_string()).unwrap_err() {
        Error::Auth { status_code, message } => {
            assert_eq!(status_code, 403);
            assert_eq!(message, "API error: 403");
        }
        other => panic!("expected Error::Auth, got {:?}", other),
    }
    assert!(matches!(
        decode_change_id(401, "{}".to_string()).unwrap_err(),
        Error::Auth { status_code: 401, .. }
    ));
}

#[test]
fn api_error_fallback_when_message_is_not_a_string() {
    match decode_changes(404, r#"{"message":17}"#.to_string()).unwrap_err() {
        Error::Api { status_code, message, .. } => {
            assert_eq!(status_code, 404);
            assert_eq!(message, "API error: 404");
        }
        other => panic!("expected Error::Api, got {:?}", other),
    }
    match decode_json(302, "moved".to_string()).unwrap_err() {
        Error::Api { status_code, message, .. } => {
            assert_eq!(status_code, 302);
            assert_eq!(message, "API error: 302");
        }
        other => panic!("expected Error::Api, got {:?}", other),
    }
}

#[test]
fn malformed_success_body_snippet_is_at_most_two_hundred_chars() {
    let body = "é".repeat(250);
    match decode_json(200, body.clone()).unwrap_err() {
        Error::Api { status_code, message, body: kept } => {
            assert_eq!(status_code, 200);
            assert_eq!(message, format!("Invalid JSON response: {}", "é".repeat(200)));
            assert_eq!(kept, body);
        }
        other => panic!("expected Error::Api, got {:?}", other),
    }
    match decode_json(204, "oops".to_string()).unwrap_err() {
        Error::Api { message, .. } => assert_eq!(message, "Invalid JSON response: oops"),
        other => panic!("expected Error::Api, got {:?}", other),
    }
}

#[test]
fn success_body_of_wrong_shape_is_api_error() {
    let wrong = [
        r#"{"result":[],"meta":{"page":1,"next_page":0}}"#,
        r#"{"result":[],"meta":{"page":1.5,"next_page":0,"limit":20}}"#,
        r#"{"result":[],"meta":{"page":3000000000,"next_page":0,"limit":20}}"#,
        r#"{"result":[{"id":"1","inner_id":"a","change_type":"","created_at":""}],"meta":{"page":1,"next_page":0,"limit":20}}"#,
        r#"{"meta":{"page":1,"next_page":0,"limit":20}}"#,
        r#"[1,2]"#,
    ];
    for body in wrong {
        match decode_offers(200, body.to_string()).unwrap_err() {
            Error::Api { status_code, message, .. } => {
                assert_eq!(status_code, 200);
                assert!(message.starts_with("Invalid JSON response: "));
            }
            other => panic!("expected Error::Api, got {:?}", other),
        }
    }
    assert!(decode_change_id(200, r#"{"change":1}"#.to_string()).is_err());
}

#[test]
fn offers_page_fields_and_missing_data() {
    let body = r#"{"result":[{"id":7,"inner_id":"x","change_type":"changed","created_at":"2024-02-01","extra":1},{"id":-2,"inner_id":"y","change_type":"removed","created_at":"","data":{"mark":"Kia"}}],"meta":{"page":4,"next_page":0,"limit":2}}"#;
    let page = decode_offers(200, body.to_string()).unwrap();
    assert_eq!(page.result.len(), 2);
    let first: &OfferItem = &page.result[0];
    assert_eq!(first.id, 7);
    assert_eq!(first.inner_id, "x");
    assert_eq!(first.change_type, "changed");
    assert_eq!(first.created_at, "2024-02-01");
    assert!(matches!(first.data, Json::Null));
    assert_eq!(page.result[1].id, -2);
    assert_eq!(page.result[1].data.get("mark").and_then(|m| m.as_str()), Some("Kia"));
    assert_eq!(page.meta.page, 4);
    assert_eq!(page.meta.next_page, 0);
    assert_eq!(page.meta.limit, 2);
}

#[test]
fn changes_feed_meta() {
    let body = r#"{"result":[],"meta":{"cur_change_id":9223372036854775807,"next_change_id":0,"limit":500}}"#;
    let feed = decode_changes(200, body.to_string()).unwrap();
    assert!(feed.result.is_empty());
    assert_eq!(feed.meta.cur_change_id, i64::MAX);
    assert_eq!(feed.meta.next_change_id, 0);
    assert_eq!(feed.meta.limit, 500);
    let req = Client::new("k").get_changes("encar", -3);
    assert_eq!(req.query[0], ("change_id".to_string(), "-3".to_string()));
}

#[test]
fn change_id_values() {
    assert_eq!(decode_change_id(200, r#"{"change_id":0}"#.to_string()).unwrap(), 0);
    assert_eq!(decode_change_id(200, r#"{"change_id":-12}"#.to_string()).unwrap(), -12);
    assert!(decode_change_id(200, r#"{"change_id":"5"}"#.to_string()).is_err());
}

#[test]
fn offer_data_projection() {
    let body = r#"{"inner_id":"1","url":"u","mark":"BMW","model":"X5","generation":"g","configuration":"c","complectation":"t","year":"2020","color":"black","price":"100","km_age":"5","engine_type":"diesel","transmission_type":"auto","body_type":"suv","address":"Seoul","seller_type":"dealer","is_dealer":true,"displacement":"3.0","offer_created":"2024","images":["a.jpg","b.jpg"]}"#;
    let doc = decode_json(200, body.to_string()).unwrap();
    let data = OfferData::from_json(&doc).unwrap();
    assert_eq!(data.mark, "BMW");
    assert_eq!(data.model, "X5");
    assert!(data.is_dealer);
    assert_eq!(data.images, vec!["a.jpg".to_string(), "b.jpg".to_string()]);
    let partial = decode_json(200, r#"{"mark":"BMW"}"#.to_string()).unwrap();
    assert!(OfferData::from_json(&partial).is_none());
    let bad_images = body.replace(r#"["a.jpg","b.jpg"]"#, r#"["a.jpg",1]"#);
    let doc = decode_json(200, bad_images).unwrap();
    assert!(OfferData::from_json(&doc).is_none());
}

#[test]
fn error_display_network() {
    let err = Error::Network("connection refused".to_string());
    assert_eq!(err.to_display_string(), "network error: connection refused");
}

#[test]
fn integer_text() {
    assert_eq!(format_int(0), "0");
    assert_eq!(format_int(42567), "42567");
    assert_eq!(format_int(-7), "-7");
    assert_eq!(format_int(i64::MIN), "-9223372036854775808");
    assert_eq!(format_int(i64::MAX), "9223372036854775807");
}

#[test]
fn integer_parsing() {
    assert_eq!(parse_i64("0"), Some(0));
    assert_eq!(parse_i64("007"), Some(7));
    assert_eq!(parse_i64("-42"), Some(-42));
    assert_eq!(parse_i64("9223372036854775807"), Some(i64::MAX));
    assert_eq!(parse_i64("9223372036854775808"), None);
    assert_eq!(parse_i64("-9223372036854775808"), Some(i64::MIN));
    assert_eq!(parse_i64("-9223372036854775809"), None);
    assert_eq!(parse_i64("123456789012345678901234567890"), None);
    assert_eq!(parse_i64("1.5"), None);
    assert_eq!(parse_i64("1e3"), None);
    assert_eq!(parse_i64("-"), None);
    assert_eq!(parse_i64(""), None);
}

#[test]
fn text_helpers() {
    assert_eq!(trim_trailing_slashes("http://x///"), "http://x");
    assert_eq!(trim_trailing_slashes("///"), "");
    assert_eq!(trim_trailing_slashes("http://x"), "http://x");
    assert_eq!(take_chars("héllo", 2), "hé");
    assert_eq!(take_chars("abc", 10), "abc");
}

#[test]
fn json_members() {
    let doc = decode_json(200, r#"{"a":{"b":[true,null,"s",12]}}"#.to_string()).unwrap();
    let b = doc.get("a").and_then(|a| a.get("b")).unwrap();
    assert!(matches!(b.at(0), Some(Json::Bool(true))));
    assert!(matches!(b.at(1), Some(Json::Null)));
    assert_eq!(b.at(2).and_then(|s| s.as_str()), Some("s"));
    assert_eq!(b.at(3).and_then(|n| n.as_i64()), Some(12));
    assert_eq!(b.at(3).and_then(|n| n.as_i32()), Some(12));
    assert!(b.get("a").is_none());
    assert!(doc.at(0).is_none());
}

#[test]
fn error_message_from_document() {
    let doc = decode_json(200, r#"{"message":"Bad key"}"#.to_string()).ok();
    assert_eq!(message_from(401, &doc), "Bad key");
    let doc = decode_json(200, r#"{"error":"Bad key"}"#.to_string()).ok();
    assert_eq!(message_from(422, &doc), "API error: 422");
    assert_eq!(message_from(500, &None), "API error: 500");
}
