use mexc::dec::Dec;
use mexc::envelope::{decode_frame, DecodeError, MessageFamily, RawChannelMessageData};
use mexc::rest::{ApiResponse, DepthParams, depth_query_pairs, TradesParams, trades_query_pairs};
use mexc::session::{DeliveredMessage, SessionError, SessionState, StreamingSession};
use mexc::sign::{sign_request, SignRequestParams, SignRequestParamsKind};
use mexc::topic::{DealsTopic, KlineIntervalTopic, KlineTopic, OrderbookTopic, Topic};
use mexc::translate::{
    channel_message_to_account_deals_message, channel_message_to_orderbook_depth_message,
    ChannelMessageToAccountDealsMessageError, ChannelMessageToSpotDealsMessageError, OrderSide,
};
use hmac::Mac;

fn pairs(ps: &[(&str, &str)]) -> Vec<(String, String)> {
    ps.iter().map(|(k, v)| (k.to_string(), v.to_string())).collect()
}

fn sign_params(
    kind: SignRequestParamsKind,
    ps: &[(&str, &str)],
    t: u64,
    key: &str,
    secret: &str,
) -> SignRequestParams {
    SignRequestParams {
        timestamp_millis: t,
        api_key: key.to_string(),
        secret_key: secret.to_string(),
        params_kind: kind,
        params: pairs(ps),
    }
}

#[test]
fn sign_is_deterministic() {
    let ps = [("symbol", "BTCUSDT"), ("limit", "1000")];
    let a = sign_request(&sign_params(SignRequestParamsKind::Query, &ps, 1700000000000, "k", "s"))
        .unwrap();
    let b = sign_request(&sign_params(SignRequestParamsKind::Query, &ps, 1700000000000, "k", "s"))
        .unwrap();
    assert_eq!(a.signature, b.signature);
}

#[test]
fn sign_changes_with_each_input() {
    let ps = [("symbol", "BTCUSDT")];
    let base = sign_request(&sign_params(SignRequestParamsKind::Query, &ps, 1700000000000, "k", "s"))
        .unwrap()
        .signature;
    let other_time =
        sign_request(&sign_params(SignRequestParamsKind::Query, &ps, 1700000000001, "k", "s"))
            .unwrap()
            .signature;
    let other_key =
        sign_request(&sign_params(SignRequestParamsKind::Query, &ps, 1700000000000, "k2", "s"))
            .unwrap()
            .signature;
    let other_secret =
        sign_request(&sign_params(SignRequestParamsKind::Query, &ps, 1700000000000, "k", "s2"))
            .unwrap()
            .signature;
    let other_param = sign_request(&sign_params(
        SignRequestParamsKind::Query,
        &[("symbol", "ETHUSDT")],
        1700000000000,
        "k",
        "s",
    ))
    .unwrap()
    .signature;
    let other_kind =
        sign_request(&sign_params(SignRequestParamsKind::Body, &ps, 1700000000000, "k", "s"))
            .unwrap()
            .signature;
    assert_ne!(base, other_time);
    assert_ne!(base, other_key);
    assert_ne!(base, other_secret);
    assert_ne!(base, other_param);
    assert_ne!(base, other_kind);
}

#[test]
fn sign_format_is_64_lower_hex() {
    for kind in [SignRequestParamsKind::Query, SignRequestParamsKind::Body] {
        let out = sign_request(&sign_params(kind, &[("a", "1"), ("b", "x y")], 42, "k", "s"))
            .unwrap()
            .signature;
        assert_eq!(out.len(), 64);
        assert!(out.chars().all(|c| c.is_ascii_hexdigit() && !c.is_ascii_uppercase()));
    }
}

#[test]
fn sign_matches_direct_hmac_query() {
    let ps = [("symbol", "BTCUSDT"), ("limit", "1000")];
    let got = sign_request(&sign_params(SignRequestParamsKind::Query, &ps, 1700000000000, "key", "secret"))
        .unwrap()
        .signature;
    let qs = serde_urlencoded::to_string(pairs(&ps)).unwrap();
    let string_to_sign = format!("{}{}{}", "key", 1700000000000u64, qs);
    let mut mac =
        <hmac::Hmac<sha2::Sha256> as hmac::KeyInit>::new_from_slice(b"secret").unwrap();
    mac.update(string_to_sign.as_bytes());
    let expected = hex::encode(mac.finalize().into_bytes());
    assert_eq!(got, expected);
}

#[test]
fn sign_matches_direct_hmac_body() {
    let ps = [("symbol", "BTCUSDT")];
    let got = sign_request(&sign_params(SignRequestParamsKind::Body, &ps, 7, "key", "secret"))
        .unwrap()
        .signature;
    let mut map = serde_json::Map::new();
    map.insert("symbol".to_string(), serde_json::Value::String("BTCUSDT".to_string()));
    let body = serde_json::to_string(&serde_json::Value::Object(map)).unwrap();
    let string_to_sign = format!("{}{}{}", "key", 7u64, body);
    let mut mac =
        <hmac::Hmac<sha2::Sha256> as hmac::KeyInit>::new_from_slice(b"secret").unwrap();
    mac.update(string_to_sign.as_bytes());
    let expected = hex::encode(mac.finalize().into_bytes());
    assert_eq!(got, expected);
}

#[test]
fn topic_strings_are_canonical() {
    assert_eq!(
        Topic::AccountDeals.to_topic_subscription_string(),
        "spot@private.deals.v3.api"
    );
    assert_eq!(
        Topic::AccountOrders.to_topic_subscription_string(),
        "spot@private.orders.v3.api"
    );
    assert_eq!(
        Topic::AccountUpdate.to_topic_subscription_string(),
        "spot@private.account.v3.api"
    );
    assert_eq!(
        Topic::Deals(DealsTopic::new("BTCUSDT".to_string())).to_topic_subscription_string(),
        "spot@public.deals.v3.api@BTCUSDT"
    );
    assert_eq!(
        Topic::Kline(KlineTopic::new("BTCUSDT".to_string(), KlineIntervalTopic::Min1))
            .to_topic_subscription_string(),
        "spot@public.kline.v3.api@BTCUSDT@Min1"
    );
    assert_eq!(
        Topic::OrderBook(OrderbookTopic::new("BTCUSDT".to_string(), 20))
            .to_topic_subscription_string(),
        "spot@public.limit.depth.v3.api@BTCUSDT@20"
    );
}

#[test]
fn topic_strings_are_injective_on_representatives() {
    let topics = vec![
        Topic::AccountDeals,
        Topic::AccountOrders,
        Topic::AccountUpdate,
        Topic::Deals(DealsTopic::new("BTCUSDT".to_string())),
        Topic::Deals(DealsTopic::new("ETHUSDT".to_string())),
        Topic::Kline(KlineTopic::new("BTCUSDT".to_string(), KlineIntervalTopic::Min1)),
        Topic::Kline(KlineTopic::new("BTCUSDT".to_string(), KlineIntervalTopic::Min15)),
        Topic::OrderBook(OrderbookTopic::new("BTCUSDT".to_string(), 20)),
        Topic::OrderBook(OrderbookTopic::new("BTCUSDT".to_string(), 5)),
    ];
    let strings: Vec<String> = topics.iter().map(|t| t.to_topic_subscription_string()).collect();
    for i in 0..strings.len() {
        for j in 0..strings.len() {
            if i != j {
                assert_ne!(strings[i], strings[j]);
            }
        }
    }
}

#[test]
fn requires_auth_exactly_on_account_topics() {
    assert!(Topic::AccountDeals.requires_auth());
    assert!(Topic::AccountOrders.requires_auth());
    assert!(Topic::AccountUpdate.requires_auth());
    assert!(!Topic::Deals(DealsTopic::new("BTCUSDT".to_string())).requires_auth());
    assert!(!Topic::Kline(KlineTopic::new("BTCUSDT".to_string(), KlineIntervalTopic::Min5))
        .requires_auth());
    assert!(!Topic::OrderBook(OrderbookTopic::new("BTCUSDT".to_string(), 10)).requires_auth());
}

const DEALS_FRAME: &str = "{\"c\":\"spot@private.deals.v3.api\",\"s\":\"BTCUSDT\",\"t\":1700000000000,\"d\":{\"S\":1,\"T\":1700000000000,\"c\":\"cid1\",\"i\":\"oid1\",\"m\":1,\"p\":\"100.5\",\"st\":0,\"t\":\"tid1\",\"v\":\"2\",\"a\":\"201.0\",\"n\":\"0.01\",\"N\":\"USDT\"}}";

#[test]
fn account_deals_round_trip() {
    let env = decode_frame(DEALS_FRAME).unwrap();
    let msg = channel_message_to_account_deals_message(&env).unwrap();
    assert_eq!(msg.asset, "BTCUSDT");
    assert_eq!(msg.trade_type, OrderSide::Buy);
    assert!(msg.is_maker);
    assert!(!msg.is_self_trade);
    assert_eq!(msg.price, Dec { mantissa: 1005, scale: 1 });
    assert_eq!(msg.quantity, Dec { mantissa: 2, scale: 0 });
    assert_eq!(msg.deals_amount, Dec { mantissa: 2010, scale: 1 });
    assert_eq!(msg.commission_fee, Dec { mantissa: 1, scale: 2 });
    assert_eq!(msg.commission_asset, "USDT");
    assert_eq!(msg.client_order_id, "cid1");
    assert_eq!(msg.order_id, "oid1");
    assert_eq!(msg.trade_id, "tid1");
    assert_eq!(msg.trade_time_millis, 1700000000000);
    assert_eq!(msg.event_time_millis, 1700000000000);
}

const BOOK_FRAME: &str = "{\"c\":\"spot@public.limit.depth.v3.api@BTCUSDT@20\",\"s\":\"BTCUSDT\",\"t\":1700000000001,\"d\":{\"asks\":[{\"p\":\"100.5\",\"v\":\"2\"}],\"bids\":[{\"p\":\"99.5\",\"v\":\"3\"}]}}";

#[test]
fn orderbook_frame_decodes_and_translates() {
    let env = decode_frame(BOOK_FRAME).unwrap();
    let msg = channel_message_to_orderbook_depth_message(&env).unwrap();
    assert_eq!(msg.symbol, "BTCUSDT");
    assert_eq!(msg.timestamp_millis, 1700000000001);
    assert_eq!(msg.orderbook.asks.len(), 1);
    assert_eq!(msg.orderbook.asks[0].p, Dec { mantissa: 1005, scale: 1 });
    assert_eq!(msg.orderbook.asks[0].v, Dec { mantissa: 2, scale: 0 });
    assert_eq!(msg.orderbook.bids[0].p, Dec { mantissa: 995, scale: 1 });
}

#[test]
fn mismatched_family_is_rejected() {
    let env = decode_frame(BOOK_FRAME).unwrap();
    let r = channel_message_to_account_deals_message(&env);
    assert_eq!(
        r.unwrap_err(),
        ChannelMessageToAccountDealsMessageError::InvalidChannelMessage
    );
    let deals_env = decode_frame(DEALS_FRAME).unwrap();
    let r2 = channel_message_to_orderbook_depth_message(&deals_env);
    assert_eq!(
        r2.unwrap_err(),
        ChannelMessageToSpotDealsMessageError::NoDepthOrderbookMessage
    );
}

#[test]
fn unknown_channel_tag_is_unrecognized_not_error() {
    let env = decode_frame(
        "{\"c\":\"spot@public.mystery.v9\",\"t\":5,\"d\":{\"x\":1}}",
    )
    .unwrap();
    assert!(matches!(env.data, RawChannelMessageData::Unrecognized(_)));
}

#[test]
fn decode_errors_are_precise() {
    assert_eq!(decode_frame("not json").unwrap_err(), DecodeError::InvalidJson);
    assert_eq!(decode_frame("[1,2]").unwrap_err(), DecodeError::NotAnObject);
    assert_eq!(
        decode_frame("{\"t\":5}").unwrap_err(),
        DecodeError::MissingChannel
    );
    assert_eq!(
        decode_frame("{\"c\":\"spot@public.mystery\"}").unwrap_err(),
        DecodeError::MissingTimestamp
    );
    assert_eq!(
        decode_frame("{\"c\":\"spot@private.deals.v3.api\",\"t\":5,\"d\":{\"S\":1}}").unwrap_err(),
        DecodeError::MalformedPayload(MessageFamily::AccountDeals)
    );
    assert_eq!(
        decode_frame("{\"c\":\"spot@public.limit.depth.v3.api@X@5\",\"t\":5,\"d\":{\"asks\":[]}}")
            .unwrap_err(),
        DecodeError::MalformedPayload(MessageFamily::OrderBook)
    );
}

#[test]
fn bad_side_code_is_rejected() {
    let frame = "{\"c\":\"spot@private.deals.v3.api\",\"s\":\"BTCUSDT\",\"t\":1,\"d\":{\"S\":3,\"T\":1,\"c\":\"\",\"i\":\"\",\"m\":0,\"p\":\"1\",\"st\":0,\"t\":\"\",\"v\":\"1\",\"a\":\"1\",\"n\":\"0\",\"N\":\"X\"}}";
    let env = decode_frame(frame).unwrap();
    assert_eq!(
        channel_message_to_account_deals_message(&env).unwrap_err(),
        ChannelMessageToAccountDealsMessageError::InvalidChannelMessage
    );
}

#[test]
fn dec_parse_exact_values() {
    assert_eq!(Dec::parse("100.5"), Some(Dec { mantissa: 1005, scale: 1 }));
    assert_eq!(Dec::parse("2"), Some(Dec { mantissa: 2, scale: 0 }));
    assert_eq!(Dec::parse("-0.01"), Some(Dec { mantissa: -1, scale: 2 }));
    assert_eq!(Dec::parse("0"), Some(Dec { mantissa: 0, scale: 0 }));
    assert_eq!(Dec::parse("201.0"), Some(Dec { mantissa: 2010, scale: 1 }));
}

#[test]
fn dec_parse_rejects_malformed() {
    assert_eq!(Dec::parse(""), None);
    assert_eq!(Dec::parse("-"), None);
    assert_eq!(Dec::parse("1."), None);
    assert_eq!(Dec::parse(".5"), None);
    assert_eq!(Dec::parse("1.2.3"), None);
    assert_eq!(Dec::parse("abc"), None);
    assert_eq!(Dec::parse("1e5"), None);
    // past the 96-bit mantissa capacity
    assert_eq!(Dec::parse("99999999999999999999999999999"), None);
    // past the largest scale
    assert_eq!(Dec::parse("0.00000000000000000000000000001"), None);
}

#[test]
fn subscribe_requires_credentials_for_account_topics() {
    let mut session = StreamingSession::new(false);
    session.mark_connected();
    assert_eq!(session.subscribe(Topic::AccountDeals).unwrap_err(), SessionError::AuthRequired);
    assert_eq!(session.subscriptions.len(), 0);
    let mut with_creds = StreamingSession::new(true);
    with_creds.mark_connected();
    assert_eq!(
        with_creds.subscribe(Topic::AccountDeals).unwrap(),
        "{\"method\":\"SUBSCRIPTION\",\"params\":[\"spot@private.deals.v3.api\"]}"
    );
    assert_eq!(with_creds.subscriptions.len(), 1);
}

#[test]
fn subscribe_needs_a_connection() {
    let mut session = StreamingSession::new(true);
    assert_eq!(
        session.subscribe(Topic::Deals(DealsTopic::new("BTCUSDT".to_string()))).unwrap_err(),
        SessionError::NotConnected
    );
    assert_eq!(session.state, SessionState::Disconnected);
}

#[test]
fn unsubscribe_removes_only_after_acknowledgement() {
    let mut session = StreamingSession::new(false);
    session.mark_connected();
    let topic = Topic::Deals(DealsTopic::new("BTCUSDT".to_string()));
    session.subscribe(topic.clone()).unwrap();
    let frame = session.unsubscribe(&topic).unwrap();
    assert_eq!(
        frame,
        "{\"method\":\"UNSUBSCRIPTION\",\"params\":[\"spot@public.deals.v3.api@BTCUSDT\"]}"
    );
    assert_eq!(session.subscriptions.len(), 1);
    session.remove_subscription(&topic.to_topic_subscription_string());
    assert_eq!(session.subscriptions.len(), 0);
}

fn deals_tick_frame(symbol: &str, price: &str) -> String {
    format!(
        "{{\"c\":\"spot@public.deals.v3.api@{}\",\"s\":\"{}\",\"t\":7,\"d\":{{\"deals\":[{{\"p\":\"{}\"}}]}}}}",
        symbol, symbol, price
    )
}

#[test]
fn interleaved_topics_keep_arrival_order() {
    let mut session = StreamingSession::new(false);
    session.mark_connected();
    session.subscribe(Topic::Deals(DealsTopic::new("BTCUSDT".to_string()))).unwrap();
    session.subscribe(Topic::Deals(DealsTopic::new("ETHUSDT".to_string()))).unwrap();
    let wire = vec![
        deals_tick_frame("BTCUSDT", "1"),
        deals_tick_frame("ETHUSDT", "10"),
        deals_tick_frame("BTCUSDT", "2"),
        deals_tick_frame("ETHUSDT", "20"),
        deals_tick_frame("BTCUSDT", "3"),
    ];
    let mut btc_channels: Vec<String> = Vec::new();
    let mut eth_channels: Vec<String> = Vec::new();
    let mut order: Vec<String> = Vec::new();
    for text in &wire {
        let env = decode_frame(text).unwrap();
        if let Some(delivery) = session.route_frame(env) {
            order.push(delivery.channel.clone());
            if delivery.channel.ends_with("BTCUSDT") {
                btc_channels.push(delivery.channel);
            } else {
                eth_channels.push(delivery.channel);
            }
        }
    }
    assert_eq!(order.len(), 5);
    assert_eq!(btc_channels.len(), 3);
    assert_eq!(eth_channels.len(), 2);
    // per-topic order equals arrival order: positions 0,2,4 and 1,3
    assert_eq!(order[0], btc_channels[0]);
    assert_eq!(order[2], btc_channels[1]);
    assert_eq!(order[4], btc_channels[2]);
    assert_eq!(order[1], eth_channels[0]);
    assert_eq!(order[3], eth_channels[1]);
}

#[test]
fn no_delivery_after_close() {
    let mut session = StreamingSession::new(false);
    session.mark_connected();
    session.subscribe(Topic::Deals(DealsTopic::new("BTCUSDT".to_string()))).unwrap();
    let env = decode_frame(&deals_tick_frame("BTCUSDT", "1")).unwrap();
    assert!(session.route_frame(env).is_some());
    session.close();
    let buffered = decode_frame(&deals_tick_frame("BTCUSDT", "2")).unwrap();
    assert!(session.route_frame(buffered).is_none());
    assert_eq!(session.state, SessionState::Disconnected);
}

#[test]
fn unsubscribed_topics_get_nothing() {
    let mut session = StreamingSession::new(false);
    session.mark_connected();
    session.subscribe(Topic::Deals(DealsTopic::new("BTCUSDT".to_string()))).unwrap();
    let env = decode_frame(&deals_tick_frame("ETHUSDT", "1")).unwrap();
    assert!(session.route_frame(env).is_none());
}

#[test]
fn account_deals_frames_route_to_translated_delivery() {
    let mut session = StreamingSession::new(true);
    session.mark_connected();
    session.subscribe(Topic::AccountDeals).unwrap();
    let env = decode_frame(DEALS_FRAME).unwrap();
    match session.route_frame(env) {
        Some(d) => match d.message {
            DeliveredMessage::AccountDeals(m) => {
                assert_eq!(m.trade_type, OrderSide::Buy);
                assert_eq!(m.price, Dec { mantissa: 1005, scale: 1 });
            }
            _ => panic!("wrong delivery kind"),
        },
        None => panic!("expected a delivery"),
    }
}

#[test]
fn api_response_into_result() {
    let ok: ApiResponse<u32> = ApiResponse { code: None, msg: None, data: Some(5) };
    assert_eq!(ok.into_api_result().unwrap(), 5);
    let err: ApiResponse<u32> =
        ApiResponse { code: Some(700002), msg: Some("signature".to_string()), data: None };
    let e = err.into_api_result().unwrap_err();
    assert_eq!(e.code, 700002);
    assert_eq!(e.message, "signature");
}

#[test]
fn query_pairs_match_declared_order() {
    let d = depth_query_pairs(&DepthParams { symbol: "BTCUSDT".to_string(), limit: None });
    assert_eq!(d, pairs(&[("symbol", "BTCUSDT")]));
    let t = trades_query_pairs(&TradesParams { symbol: "KASUSDT".to_string(), limit: Some(1000) });
    assert_eq!(t, pairs(&[("symbol", "KASUSDT"), ("limit", "1000")]));
}
