use qdengine::webctp::market_data::{parse_market_data, MarketDataEventKind, MsgClass, MsgTag};
use qdengine::webctp::request::ClientError;
use qdengine::webctp::trade::{parse_trade, TradeEventKind};
use qdengine::server::message::report::ReportCode;
use qdengine::server::service::instructions::{
    event_loop_error, listener_keeps_running, market_data_event_header, market_data_payload_source,
    trade_event_header, trade_payload_source, GatewaySide, ListenerInput, PayloadSource,
};
use qdengine::server::message::report::ReportData;

#[test]
fn md_text_tags() {
    assert_eq!(parse_market_data(MsgTag::Text("ready".to_string())), Ok(MsgClass::Known(MarketDataEventKind::Ready)));
    for t in ["parse_error", "processing_error", "error"] {
        assert_eq!(parse_market_data(MsgTag::Text(t.to_string())), Ok(MsgClass::Known(MarketDataEventKind::Error)));
    }
    assert_eq!(
        parse_market_data(MsgTag::Text("hello".to_string())),
        Ok(MsgClass::UnknownText("hello".to_string()))
    );
}

#[test]
fn md_numeric_tags() {
    assert_eq!(parse_market_data(MsgTag::Integer(0)), Ok(MsgClass::Known(MarketDataEventKind::Performed)));
    assert_eq!(parse_market_data(MsgTag::Integer(1)), Ok(MsgClass::Known(MarketDataEventKind::Error)));
    assert_eq!(parse_market_data(MsgTag::Integer(2)), Ok(MsgClass::Known(MarketDataEventKind::FrontConnected)));
    assert_eq!(parse_market_data(MsgTag::Integer(3)), Ok(MsgClass::Known(MarketDataEventKind::FrontDisconnected)));
    assert_eq!(parse_market_data(MsgTag::Integer(10)), Ok(MsgClass::Known(MarketDataEventKind::MarketData)));
    assert_eq!(parse_market_data(MsgTag::Integer(11)), Ok(MsgClass::UnknownCode(11)));
    assert_eq!(parse_market_data(MsgTag::Other), Ok(MsgClass::UnknownOther));
    assert_eq!(
        parse_market_data(MsgTag::NonInteger),
        Err(ClientError::Protocol("non-integer msg code".to_string()))
    );
}

#[test]
fn trade_tags() {
    assert_eq!(parse_trade(MsgTag::Text("ready".to_string())), Ok(MsgClass::Known(TradeEventKind::Ready)));
    assert_eq!(parse_trade(MsgTag::Text("error".to_string())), Ok(MsgClass::Known(TradeEventKind::Error)));
    assert_eq!(parse_trade(MsgTag::Integer(4)), Ok(MsgClass::Known(TradeEventKind::FrontConnected)));
    assert_eq!(parse_trade(MsgTag::Integer(6)), Ok(MsgClass::Known(TradeEventKind::FrontDisconnected)));
    assert_eq!(parse_trade(MsgTag::Integer(13)), Ok(MsgClass::Known(TradeEventKind::OrderInsertError)));
    assert_eq!(parse_trade(MsgTag::Integer(21)), Ok(MsgClass::Known(TradeEventKind::QueryInstrument)));
    assert_eq!(parse_trade(MsgTag::Integer(22)), Ok(MsgClass::UnknownCode(22)));
    assert_eq!(parse_trade(MsgTag::Integer(-1)), Ok(MsgClass::UnknownCode(-1)));
    assert_eq!(parse_trade(MsgTag::NonInteger), Err(ClientError::Protocol("non-integer msg code".to_string())));
}

#[test]
fn event_names() {
    assert_eq!(MarketDataEventKind::FrontConnected.event_name(), "front_connected");
    assert_eq!(MarketDataEventKind::HeartbeatTimeout.event_name(), "heartbeat_timeout");
    assert_eq!(MarketDataEventKind::MarketData.event_name(), "market_data");
    assert_eq!(TradeEventKind::OrderInsertReturnError.event_name(), "order_insert_return_error");
    assert_eq!(TradeEventKind::SettlementInfoConfirm.event_name(), "settlement_info_confirm");
    assert_eq!(TradeEventKind::Unknown.event_name(), "unknown");
}

#[test]
fn event_headers() {
    let h = market_data_event_header(MarketDataEventKind::Login);
    assert_eq!(h.code, ReportCode::WebCtpMarketDataEvent);
    assert_eq!(h.message, "webctp market data event");
    assert_eq!(h.source, "market_data");
    assert_eq!(h.event, "login");
    let h = trade_event_header(TradeEventKind::OrderTraded);
    assert_eq!(h.code, ReportCode::WebCtpTradeEvent);
    assert_eq!(h.message, "webctp trade event");
    assert_eq!(h.source, "trade");
    assert_eq!(h.event, "order_traded");
}

#[test]
fn event_loop_errors() {
    let r = event_loop_error(GatewaySide::MarketData, "boom".to_string());
    assert_eq!(r.code, ReportCode::GeneralError);
    assert_eq!(r.message, "market data event loop error");
    assert_eq!(r.data, ReportData::Text("boom".to_string()));
    let r = event_loop_error(GatewaySide::Trade, "x".to_string());
    assert_eq!(r.message, "trade event loop error");
}

#[test]
fn payload_sources() {
    assert_eq!(market_data_payload_source(MarketDataEventKind::Ready), PayloadSource::Empty);
    assert_eq!(market_data_payload_source(MarketDataEventKind::Error), PayloadSource::ErrField);
    assert_eq!(market_data_payload_source(MarketDataEventKind::Login), PayloadSource::InfoField);
    assert_eq!(market_data_payload_source(MarketDataEventKind::MarketData), PayloadSource::Debug);
    assert_eq!(market_data_payload_source(MarketDataEventKind::Unknown), PayloadSource::Raw);
    assert_eq!(trade_payload_source(TradeEventKind::ErrorNull), PayloadSource::ErrField);
    assert_eq!(trade_payload_source(TradeEventKind::Authenticate), PayloadSource::InfoField);
    assert_eq!(trade_payload_source(TradeEventKind::QueryOrder), PayloadSource::Debug);
    assert_eq!(trade_payload_source(TradeEventKind::TradingAccount), PayloadSource::Debug);
    assert_eq!(trade_payload_source(TradeEventKind::Ready), PayloadSource::Empty);
    assert_eq!(trade_payload_source(TradeEventKind::Unknown), PayloadSource::Raw);
}

#[test]
fn listener_steps() {
    assert!(listener_keeps_running(ListenerInput::Event));
    assert!(listener_keeps_running(ListenerInput::Command(false)));
    assert!(!listener_keeps_running(ListenerInput::Command(true)));
    assert!(!listener_keeps_running(ListenerInput::StreamEnded));
    assert!(!listener_keeps_running(ListenerInput::ReadFailed));
    assert!(!listener_keeps_running(ListenerInput::CommandsClosed));
}
