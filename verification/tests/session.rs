use qdengine::server::message::instruction::{
    BacktestCancelInstruction, HandshakeInstruction, WebCtpMarketDataConnectInstruction,
    WebCtpMarketDataDisconnectInstruction, WebCtpMarketDataLoginInstruction,
    WebCtpTradeConnectInstruction, WebCtpTradeDisconnectInstruction, WebCtpTradeLogoutInstruction,
};
use qdengine::server::message::report::{OperationAck, Report, ReportCode, ReportData};
use qdengine::server::message::Instruction;
use qdengine::server::service::instructions::{
    complete_connect, complete_market_data, complete_trade, execute_market_data, execute_trade,
    handle_instruction, GatewaySide, GatewayWrite, MarketDataCommand, MarketDataOp, OpOutcome,
    Session, SessionAction, TradeCommand, TradeOp,
};
use qdengine::webctp::market_data::MarketDataClient;
use qdengine::webctp::request::{ClientError, FieldValue};
use qdengine::webctp::trade::TradeClient;

fn report(code: ReportCode, message: &str, data: ReportData) -> Report<ReportData> {
    Report { code, message: message.to_string(), data }
}

fn md_login() -> Instruction {
    Instruction::WebCtpMarketDataLogin(WebCtpMarketDataLoginInstruction { op_ref: "1".to_string(), password: "pw".to_string() })
}

fn connected_session() -> Session {
    let mut s = Session::new();
    complete_connect(&mut s, GatewaySide::MarketData, Ok(()));
    complete_connect(&mut s, GatewaySide::Trade, Ok(()));
    s
}

#[test]
fn second_handshake_is_refused() {
    let mut s = Session::new();
    let a = handle_instruction(&mut s, Instruction::Handshake(HandshakeInstruction { token: "t".to_string() }));
    assert_eq!(a, SessionAction::Reply(report(ReportCode::GeneralError, "handshake already received", ReportData::Empty)));
}

#[test]
fn backtest_instructions_are_ignored() {
    let mut s = Session::new();
    let a = handle_instruction(&mut s, Instruction::TestCancel(BacktestCancelInstruction { reference: "x".to_string() }));
    assert_eq!(a, SessionAction::Ignore);
}

#[test]
fn commands_on_closed_connections_are_refused() {
    let mut s = Session::new();
    let a = handle_instruction(&mut s, md_login());
    assert_eq!(a, SessionAction::Reply(report(ReportCode::GeneralError, "market data client not connected", ReportData::Empty)));
    let a = handle_instruction(
        &mut s,
        Instruction::WebCtpTradeLogout(WebCtpTradeLogoutInstruction { op_ref: "2".to_string(), user_id: "u".to_string() }),
    );
    assert_eq!(a, SessionAction::Reply(report(ReportCode::GeneralError, "trade client not connected", ReportData::Empty)));
    assert!(!s.market_data_connected());
    assert!(!s.trade_connected());
}

#[test]
fn connect_instructions_start_attempts() {
    let mut s = Session::new();
    let i = WebCtpMarketDataConnectInstruction { url: "ws://gw".to_string(), broker_id: "b".to_string(), user_id: "u".to_string() };
    assert_eq!(handle_instruction(&mut s, Instruction::WebCtpMarketDataConnect(i.clone())), SessionAction::ConnectMarketData(i));
    let t = WebCtpTradeConnectInstruction { url: "ws://gw".to_string(), broker_id: "b".to_string(), investor_id: "i".to_string() };
    assert_eq!(handle_instruction(&mut s, Instruction::WebCtpTradeConnect(t.clone())), SessionAction::ConnectTrade(t));
    assert!(!s.market_data_connected());
}

#[test]
fn connect_completion_opens_and_acknowledges() {
    let mut s = Session::new();
    let r = complete_connect(&mut s, GatewaySide::MarketData, Ok(()));
    assert_eq!(r, report(ReportCode::WebCtpOperationAck, "webctp market data connected", ReportData::Ack(OperationAck { ok: true })));
    assert!(s.market_data_connected());
    assert!(!s.trade_connected());
    let r = complete_connect(&mut s, GatewaySide::Trade, Err("refused".to_string()));
    assert_eq!(r, report(ReportCode::GeneralError, "failed to connect webctp trade", ReportData::Text("refused".to_string())));
    assert!(!s.trade_connected());
}

#[test]
fn commands_are_forwarded_when_open() {
    let mut s = connected_session();
    match handle_instruction(&mut s, md_login()) {
        SessionAction::ForwardMarketData(MarketDataCommand::Login(l)) => assert_eq!(l.password, "pw"),
        _ => panic!("login not forwarded"),
    }
    assert!(s.market_data_connected());
}

#[test]
fn disconnect_closes_at_once() {
    let mut s = connected_session();
    let a = handle_instruction(&mut s, Instruction::WebCtpMarketDataDisconnect(WebCtpMarketDataDisconnectInstruction {}));
    assert_eq!(a, SessionAction::ForwardMarketData(MarketDataCommand::Disconnect(WebCtpMarketDataDisconnectInstruction {})));
    assert!(!s.market_data_connected());
    assert!(s.trade_connected());
    let a = handle_instruction(&mut s, Instruction::WebCtpTradeDisconnect(WebCtpTradeDisconnectInstruction {}));
    assert_eq!(a, SessionAction::ForwardTrade(TradeCommand::Disconnect(WebCtpTradeDisconnectInstruction {})));
    assert!(!s.trade_connected());
}

#[test]
fn completions_of_forwarded_commands() {
    let mut s = connected_session();
    assert_eq!(
        complete_market_data(&mut s, MarketDataOp::TradingDay, OpOutcome::Done),
        report(ReportCode::WebCtpOperationAck, "webctp market data get_trading_day sent", ReportData::Ack(OperationAck { ok: true }))
    );
    assert_eq!(
        complete_market_data(&mut s, MarketDataOp::Disconnect, OpOutcome::Done),
        report(ReportCode::WebCtpOperationAck, "webctp market data disconnected", ReportData::Ack(OperationAck { ok: true }))
    );
    assert_eq!(
        complete_trade(&mut s, TradeOp::InsertOrder, OpOutcome::Failed("NotConnected".to_string())),
        report(ReportCode::GeneralError, "trade insert_order failed", ReportData::Text("NotConnected".to_string()))
    );
    assert_eq!(
        complete_trade(&mut s, TradeOp::SetIds, OpOutcome::Done),
        report(ReportCode::WebCtpOperationAck, "webctp trade set sent", ReportData::Ack(OperationAck { ok: true }))
    );
    assert!(s.market_data_connected() && s.trade_connected());
}

#[test]
fn task_stopped_closes_connection() {
    let mut s = connected_session();
    let r = complete_trade(&mut s, TradeOp::Login, OpOutcome::TaskStopped);
    assert_eq!(r, report(ReportCode::GeneralError, "trade task stopped", ReportData::Empty));
    assert!(!s.trade_connected());
    assert!(s.market_data_connected());
    let r = complete_market_data(&mut s, MarketDataOp::Subscribe, OpOutcome::TaskStopped);
    assert_eq!(r, report(ReportCode::GeneralError, "market data task stopped", ReportData::Empty));
    assert!(!s.market_data_connected());
}

#[test]
fn executing_commands_on_clients() {
    let mut md = MarketDataClient::new("b".to_string(), "u".to_string());
    let cmd = MarketDataCommand::Login(WebCtpMarketDataLoginInstruction { op_ref: "1".to_string(), password: "pw".to_string() });
    assert_eq!(execute_market_data(&mut md, &cmd), GatewayWrite::Request(Err(ClientError::NotConnected)));
    md.mark_connected();
    match execute_market_data(&mut md, &cmd) {
        GatewayWrite::Request(Ok(r)) => {
            assert_eq!(r.op, "login");
            assert_eq!(r.data[2], ("password".to_string(), FieldValue::Str("pw".to_string())));
        },
        _ => panic!("no login request"),
    }
    let d = MarketDataCommand::Disconnect(WebCtpMarketDataDisconnectInstruction {});
    assert_eq!(execute_market_data(&mut md, &d), GatewayWrite::Close(true));
    assert_eq!(execute_market_data(&mut md, &d), GatewayWrite::Close(false));

    let mut tr = TradeClient::new("b".to_string(), "i".to_string());
    tr.mark_connected();
    let lo = TradeCommand::Logout(WebCtpTradeLogoutInstruction { op_ref: "9".to_string(), user_id: "u".to_string() });
    match execute_trade(&mut tr, &lo) {
        GatewayWrite::Request(Ok(r)) => assert_eq!(r.op, "logout"),
        _ => panic!("no logout request"),
    }
    assert_eq!(execute_trade(&mut tr, &TradeCommand::Disconnect(WebCtpTradeDisconnectInstruction {})), GatewayWrite::Close(true));
    assert!(!tr.is_connected());
}
