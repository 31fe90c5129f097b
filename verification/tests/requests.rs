use qdengine::webctp::market_data::MarketDataClient;
use qdengine::webctp::request::{ClientError, FieldValue, OpRequest};
use qdengine::webctp::trade::TradeClient;

fn s(x: &str) -> String {
    x.to_string()
}

fn entry(k: &str, v: &str) -> (String, FieldValue) {
    (s(k), FieldValue::Str(s(v)))
}

fn md_connected() -> MarketDataClient {
    let mut c = MarketDataClient::new(s("9999"), s("user1"));
    c.mark_connected();
    c
}

fn trade_connected() -> TradeClient {
    let mut c = TradeClient::new(s("9999"), s("inv1"));
    c.mark_connected();
    c
}

#[test]
fn md_requests_refused_when_not_connected() {
    let c = MarketDataClient::new(s("9999"), s("user1"));
    assert!(!c.is_connected());
    assert_eq!(c.login("pw"), Err(ClientError::NotConnected));
    assert_eq!(c.get_trading_day(), Err(ClientError::NotConnected));
    assert_eq!(c.connect_front("tcp://h", 1), Err(ClientError::NotConnected));
}

#[test]
fn md_connect_front_writes_port_in_decimal() {
    let c = md_connected();
    let r = c.connect_front("tcp://180.168.146.187", 10131).unwrap();
    assert_eq!(
        r,
        OpRequest { op: s("connect"), data: vec![entry("addr", "tcp://180.168.146.187"), entry("port", "10131")] }
    );
}

#[test]
fn md_login_carries_account() {
    let c = md_connected();
    let r = c.login("secret").unwrap();
    assert_eq!(
        r,
        OpRequest {
            op: s("login"),
            data: vec![entry("broker_id", "9999"), entry("user_id", "user1"), entry("password", "secret")],
        }
    );
}

#[test]
fn md_subscribe_and_unsubscribe_list_instruments() {
    let c = md_connected();
    let list = vec![s("rb2410"), s("au2412")];
    let r = c.subscribe(&list).unwrap();
    assert_eq!(r.op, "subscribe");
    assert_eq!(r.data, vec![(s("instruments"), FieldValue::StrList(list.clone()))]);
    let r = c.unsubscribe(&list).unwrap();
    assert_eq!(r.op, "unsubscribe");
    assert_eq!(r.data, vec![(s("instruments"), FieldValue::StrList(list))]);
}

#[test]
fn md_trading_day_has_empty_data() {
    let c = md_connected();
    assert_eq!(c.get_trading_day().unwrap(), OpRequest { op: s("get_trading_day"), data: vec![] });
}

#[test]
fn md_disconnect_owes_close_only_when_open() {
    let mut c = md_connected();
    assert!(c.disconnect());
    assert!(!c.is_connected());
    assert!(!c.disconnect());
    assert_eq!(c.login("pw"), Err(ClientError::NotConnected));
}

#[test]
fn trade_set_updates_ids_and_sends_given_ones() {
    let mut c = trade_connected();
    let r = c.set("r1", Some(s("8888")), None).unwrap();
    assert_eq!(r, OpRequest { op: s("set"), data: vec![entry("op_ref", "r1"), entry("broker_id", "8888")] });
    assert_eq!(c.broker_id(), "8888");
    assert_eq!(c.investor_id(), "inv1");
}

#[test]
fn trade_set_updates_ids_even_when_not_connected() {
    let mut c = TradeClient::new(s("9999"), s("inv1"));
    assert_eq!(c.set("r1", Some(s("7")), Some(s("8"))), Err(ClientError::NotConnected));
    assert_eq!(c.broker_id(), "7");
    assert_eq!(c.investor_id(), "8");
}

#[test]
fn trade_insert_order_fields() {
    let c = trade_connected();
    let price = 3521.5f64;
    let r = c.insert_order("r2", "rb2410", "SHFE", "ord-1", price.to_bits(), 0, 1, 3, 2, 3).unwrap();
    assert_eq!(r.op, "insert_order");
    assert_eq!(
        r.data,
        vec![
            entry("op_ref", "r2"),
            entry("instrument", "rb2410"),
            entry("exchange", "SHFE"),
            entry("ref", "ord-1"),
            (s("price"), FieldValue::Float(price.to_bits())),
            (s("direction"), FieldValue::Int(0)),
            (s("offset"), FieldValue::Int(1)),
            (s("volume"), FieldValue::Int(3)),
            (s("price_type"), FieldValue::Int(2)),
            (s("time_condition"), FieldValue::Int(3)),
        ]
    );
}

#[test]
fn trade_query_order_sends_only_given_filters() {
    let c = trade_connected();
    let r = c.query_order("r3", None, Some(s("SHFE")), None, Some(s("10:00:00"))).unwrap();
    assert_eq!(r.op, "query_order");
    assert_eq!(r.data, vec![entry("op_ref", "r3"), entry("exchange_id", "SHFE"), entry("to", "10:00:00")]);
}

#[test]
fn trade_query_instrument_sends_only_given_filters() {
    let c = trade_connected();
    let r = c.query_instrument("r4", None, None, None, None).unwrap();
    assert_eq!(r, OpRequest { op: s("query_instrument"), data: vec![entry("op_ref", "r4")] });
    let r = c.query_instrument("r5", Some(s("DCE")), Some(s("m2501")), Some(s("x")), Some(s("m"))).unwrap();
    assert_eq!(
        r.data,
        vec![
            entry("op_ref", "r5"),
            entry("exchange", "DCE"),
            entry("instrument", "m2501"),
            entry("exchange_inst_id", "x"),
            entry("product_id", "m"),
        ]
    );
}

#[test]
fn trade_other_requests() {
    let c = trade_connected();
    assert_eq!(
        c.connect_front("a", "tcp://h", 80).unwrap().data,
        vec![entry("op_ref", "a"), entry("addr", "tcp://h"), entry("port", "80")]
    );
    assert_eq!(
        c.auth("a", "u", "app", "code").unwrap(),
        OpRequest {
            op: s("auth"),
            data: vec![entry("op_ref", "a"), entry("user_id", "u"), entry("app_id", "app"), entry("auth_code", "code")],
        }
    );
    assert_eq!(c.login("a", "u", "p").unwrap().op, "login");
    assert_eq!(c.logout("a", "u").unwrap().data, vec![entry("op_ref", "a"), entry("user_id", "u")]);
    assert_eq!(
        c.query_settlement_info("a", "20240101").unwrap().data,
        vec![entry("op_ref", "a"), entry("trading_day", "20240101")]
    );
    assert_eq!(c.confirm_settlement_info("a").unwrap().op, "confirm_settlement_info");
    assert_eq!(c.query_trading_account("a").unwrap().op, "query_trading_account");
    assert_eq!(c.get_trading_day("a").unwrap().op, "get_trading_day");
    assert_eq!(
        c.delete_order("a", "SHFE", "rb", 12, "sys1").unwrap().data,
        vec![
            entry("op_ref", "a"),
            entry("exchange", "SHFE"),
            entry("instrument", "rb"),
            (s("delete_ref"), FieldValue::Int(12)),
            entry("order_sys_id", "sys1"),
        ]
    );
}

#[test]
fn trade_requests_refused_when_not_connected() {
    let mut c = TradeClient::new(s("b"), s("i"));
    assert_eq!(c.query_trading_account("a"), Err(ClientError::NotConnected));
    c.mark_connected();
    assert!(c.disconnect());
    assert_eq!(c.logout("a", "u"), Err(ClientError::NotConnected));
}

#[test]
fn failed_close_keeps_clients_connected() {
    let mut c = md_connected();
    assert!(c.disconnect());
    c.close_failed();
    assert!(c.is_connected());
    assert_eq!(c.login("pw").unwrap().op, "login");
    let mut t = trade_connected();
    assert!(t.disconnect());
    t.close_failed();
    assert!(t.is_connected());
    assert_eq!(t.broker_id(), "9999");
}
