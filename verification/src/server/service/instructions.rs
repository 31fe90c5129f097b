//! The handling of client instructions.
//!
//! A session tracks whether the client's market-data and trade connections to
//! the WebCTP gateway are open. Each instruction is decided in one step
//! ([`handle_instruction`]): it is answered at once, ignored, or becomes a
//! connection attempt or a command for the task that owns a gateway
//! connection. When the attempt or the command completes, the matching
//! `complete_*` function gives the report the client receives.
use vstd::prelude::*;

use crate::server::message::instruction::{
    WebCtpMarketDataConnectFrontInstruction, WebCtpMarketDataConnectInstruction,
    WebCtpMarketDataDisconnectInstruction, WebCtpMarketDataLoginInstruction,
    WebCtpMarketDataSubscribeInstruction, WebCtpMarketDataTradingDayInstruction,
    WebCtpMarketDataUnsubscribeInstruction, WebCtpTradeAuthInstruction,
    WebCtpTradeConfirmSettlementInfoInstruction, WebCtpTradeConnectFrontInstruction,
    WebCtpTradeConnectInstruction, WebCtpTradeDeleteOrderInstruction,
    WebCtpTradeDisconnectInstruction, WebCtpTradeInsertOrderInstruction,
    WebCtpTradeLoginInstruction, WebCtpTradeLogoutInstruction,
    WebCtpTradeQueryInstrumentInstruction, WebCtpTradeQueryOrderInstruction,
    WebCtpTradeQuerySettlementInfoInstruction, WebCtpTradeQueryTradingAccountInstruction,
    WebCtpTradeSetInstruction, WebCtpTradeTradingDayInstruction,
};
use crate::server::message::report::{
    is_error_code, OperationAck, Report, ReportCode, ReportData, ReportDataView, ReportView, report, report_of,
};
use crate::server::message::Instruction;
use crate::text::decimal;
use crate::webctp::market_data::{
    MarketDataClient, MarketDataClientView, MarketDataEventKind, md_connect_front_request, md_event_name,
    md_login_request, md_subscribe_request, md_trading_day_request, md_unsubscribe_request,
};
use crate::webctp::request::{ClientError, FieldView, OpRequest, OpRequestView, opt_view, push_opt_spec, result_view, send_result};
use crate::webctp::trade::{
    TradeClient, TradeClientView, TradeEventKind, replaced, trade_auth_request,
    trade_connect_front_request, trade_delete_order_request, trade_event_name,
    trade_insert_order_request, trade_login_request, trade_logout_request, trade_op_ref_request,
    trade_query_instrument_request, trade_query_order_request, trade_query_settlement_info_request,
    trade_set_request,
};

verus! {

/// The two gateway connections a client may hold.
#[derive(Debug, Clone, Copy, PartialEq, Eq, Structural)]
pub enum GatewaySide {
    MarketData,
    Trade,
}

/// How a gateway connection is named in reports.
pub open spec fn side_label(side: GatewaySide) -> Seq<char> {
    match side {
        GatewaySide::MarketData => "market data"@,
        GatewaySide::Trade => "trade"@,
    }
}

/// How a gateway connection is named in reports.
pub fn label(side: GatewaySide) -> (res: &'static str)
    ensures
        res@ == side_label(side),
{
    match side {
        GatewaySide::MarketData => "market data",
        GatewaySide::Trade => "trade",
    }
}

/// The concatenation of two texts.
pub fn join2(a: &str, b: &str) -> (res: String)
    ensures
        res@ == a@ + b@,
{
    let mut s = String::from_str(a);
    s.append(b);
    s
}

/// The concatenation of three texts.
pub fn join3(a: &str, b: &str, c: &str) -> (res: String)
    ensures
        res@ == a@ + b@ + c@,
{
    let mut s = String::from_str(a);
    s.append(b);
    s.append(c);
    s
}

/// The concatenation of four texts.
pub fn join4(a: &str, b: &str, c: &str, d: &str) -> (res: String)
    ensures
        res@ == a@ + b@ + c@ + d@,
{
    let mut s = join3(a, b, c);
    s.append(d);
    s
}

/// A command for the task that owns the market-data connection.
#[derive(Debug, Clone, PartialEq, Eq)]
pub enum MarketDataCommand {
    ConnectFront(WebCtpMarketDataConnectFrontInstruction),
    Login(WebCtpMarketDataLoginInstruction),
    Subscribe(WebCtpMarketDataSubscribeInstruction),
    Unsubscribe(WebCtpMarketDataUnsubscribeInstruction),
    TradingDay(WebCtpMarketDataTradingDayInstruction),
    Disconnect(WebCtpMarketDataDisconnectInstruction),
}

/// The operation of a market-data command.
#[derive(Debug, Clone, Copy, PartialEq, Eq, Structural)]
pub enum MarketDataOp {
    ConnectFront,
    Login,
    Subscribe,
    Unsubscribe,
    TradingDay,
    Disconnect,
}

/// The operation of a market-data command.
pub open spec fn md_command_op(c: MarketDataCommand) -> MarketDataOp {
    match c {
        MarketDataCommand::ConnectFront(_) => MarketDataOp::ConnectFront,
        MarketDataCommand::Login(_) => MarketDataOp::Login,
        MarketDataCommand::Subscribe(_) => MarketDataOp::Subscribe,
        MarketDataCommand::Unsubscribe(_) => MarketDataOp::Unsubscribe,
        MarketDataCommand::TradingDay(_) => MarketDataOp::TradingDay,
        MarketDataCommand::Disconnect(_) => MarketDataOp::Disconnect,
    }
}

/// How a market-data operation is named in reports.
pub open spec fn md_op_name(op: MarketDataOp) -> Seq<char> {
    match op {
        MarketDataOp::ConnectFront => "connect_front"@,
        MarketDataOp::Login => "login"@,
        MarketDataOp::Subscribe => "subscribe"@,
        MarketDataOp::Unsubscribe => "unsubscribe"@,
        MarketDataOp::TradingDay => "get_trading_day"@,
        MarketDataOp::Disconnect => "disconnect"@,
    }
}

impl MarketDataCommand {
    /// The operation of this command.
    pub fn op(&self) -> (res: MarketDataOp)
        ensures
            res == md_command_op(*self),
    {
        match self {
            MarketDataCommand::ConnectFront(_) => MarketDataOp::ConnectFront,
            MarketDataCommand::Login(_) => MarketDataOp::Login,
            MarketDataCommand::Subscribe(_) => MarketDataOp::Subscribe,
            MarketDataCommand::Unsubscribe(_) => MarketDataOp::Unsubscribe,
            MarketDataCommand::TradingDay(_) => MarketDataOp::TradingDay,
            MarketDataCommand::Disconnect(_) => MarketDataOp::Disconnect,
        }
    }
}

impl MarketDataOp {
    /// How this operation is named in reports.
    pub fn name(&self) -> (res: &'static str)
        ensures
            res@ == md_op_name(*self),
    {
        match self {
            MarketDataOp::ConnectFront => "connect_front",
            MarketDataOp::Login => "login",
            MarketDataOp::Subscribe => "subscribe",
            MarketDataOp::Unsubscribe => "unsubscribe",
            MarketDataOp::TradingDay => "get_trading_day",
            MarketDataOp::Disconnect => "disconnect",
        }
    }
}

/// A command for the task that owns the trade connection.
#[derive(Debug, Clone, PartialEq, Eq)]
pub enum TradeCommand {
    ConnectFront(WebCtpTradeConnectFrontInstruction),
    SetIds(WebCtpTradeSetInstruction),
    TradingDay(WebCtpTradeTradingDayInstruction),
    Auth(WebCtpTradeAuthInstruction),
    Login(WebCtpTradeLoginInstruction),
    Logout(WebCtpTradeLogoutInstruction),
    QuerySettlementInfo(WebCtpTradeQuerySettlementInfoInstruction),
    ConfirmSettlementInfo(WebCtpTradeConfirmSettlementInfoInstruction),
    QueryTradingAccount(WebCtpTradeQueryTradingAccountInstruction),
    InsertOrder(WebCtpTradeInsertOrderInstruction),
    QueryOrder(WebCtpTradeQueryOrderInstruction),
    DeleteOrder(WebCtpTradeDeleteOrderInstruction),
    QueryInstrument(WebCtpTradeQueryInstrumentInstruction),
    Disconnect(WebCtpTradeDisconnectInstruction),
}

/// The operation of a trade command.
#[derive(Debug, Clone, Copy, PartialEq, Eq, Structural)]
pub enum TradeOp {
    ConnectFront,
    SetIds,
    TradingDay,
    Auth,
    Login,
    Logout,
    QuerySettlementInfo,
    ConfirmSettlementInfo,
    QueryTradingAccount,
    InsertOrder,
    QueryOrder,
    DeleteOrder,
    QueryInstrument,
    Disconnect,
}

/// The operation of a trade command.
pub open spec fn trade_command_op(c: TradeCommand) -> TradeOp {
    match c {
        TradeCommand::ConnectFront(_) => TradeOp::ConnectFront,
        TradeCommand::SetIds(_) => TradeOp::SetIds,
        TradeCommand::TradingDay(_) => TradeOp::TradingDay,
        TradeCommand::Auth(_) => TradeOp::Auth,
        TradeCommand::Login(_) => TradeOp::Login,
        TradeCommand::Logout(_) => TradeOp::Logout,
        TradeCommand::QuerySettlementInfo(_) => TradeOp::QuerySettlementInfo,
        TradeCommand::ConfirmSettlementInfo(_) => TradeOp::ConfirmSettlementInfo,
        TradeCommand::QueryTradingAccount(_) => TradeOp::QueryTradingAccount,
        TradeCommand::InsertOrder(_) => TradeOp::InsertOrder,
        TradeCommand::QueryOrder(_) => TradeOp::QueryOrder,
        TradeCommand::DeleteOrder(_) => TradeOp::DeleteOrder,
        TradeCommand::QueryInstrument(_) => TradeOp::QueryInstrument,
        TradeCommand::Disconnect(_) => TradeOp::Disconnect,
    }
}

/// How a trade operation is named in reports.
pub open spec fn trade_op_name(op: TradeOp) -> Seq<char> {
    match op {
        TradeOp::ConnectFront => "connect_front"@,
        TradeOp::SetIds => "set"@,
        TradeOp::TradingDay => "get_trading_day"@,
        TradeOp::Auth => "auth"@,
        TradeOp::Login => "login"@,
        TradeOp::Logout => "logout"@,
        TradeOp::QuerySettlementInfo => "query_settlement_info"@,
        TradeOp::ConfirmSettlementInfo => "confirm_settlement_info"@,
        TradeOp::QueryTradingAccount => "query_trading_account"@,
        TradeOp::InsertOrder => "insert_order"@,
        TradeOp::QueryOrder => "query_order"@,
        TradeOp::DeleteOrder => "delete_order"@,
        TradeOp::QueryInstrument => "query_instrument"@,
        TradeOp::Disconnect => "disconnect"@,
    }
}

impl TradeCommand {
    /// The operation of this command.
    pub fn op(&self) -> (res: TradeOp)
        ensures
            res == trade_command_op(*self),
    {
        match self {
            TradeCommand::ConnectFront(_) => TradeOp::ConnectFront,
            TradeCommand::SetIds(_) => TradeOp::SetIds,
            TradeCommand::TradingDay(_) => TradeOp::TradingDay,
            TradeCommand::Auth(_) => TradeOp::Auth,
            TradeCommand::Login(_) => TradeOp::Login,
            TradeCommand::Logout(_) => TradeOp::Logout,
            TradeCommand::QuerySettlementInfo(_) => TradeOp::QuerySettlementInfo,
            TradeCommand::ConfirmSettlementInfo(_) => TradeOp::ConfirmSettlementInfo,
            TradeCommand::QueryTradingAccount(_) => TradeOp::QueryTradingAccount,
            TradeCommand::InsertOrder(_) => TradeOp::InsertOrder,
            TradeCommand::QueryOrder(_) => TradeOp::QueryOrder,
            TradeCommand::DeleteOrder(_) => TradeOp::DeleteOrder,
            TradeCommand::QueryInstrument(_) => TradeOp::QueryInstrument,
            TradeCommand::Disconnect(_) => TradeOp::Disconnect,
        }
    }
}

impl TradeOp {
    /// How this operation is named in reports.
    pub fn name(&self) -> (res: &'static str)
        ensures
            res@ == trade_op_name(*self),
    {
        match self {
            TradeOp::ConnectFront => "connect_front",
            TradeOp::SetIds => "set",
            TradeOp::TradingDay => "get_trading_day",
            TradeOp::Auth => "auth",
            TradeOp::Login => "login",
            TradeOp::Logout => "logout",
            TradeOp::QuerySettlementInfo => "query_settlement_info",
            TradeOp::ConfirmSettlementInfo => "confirm_settlement_info",
            TradeOp::QueryTradingAccount => "query_trading_account",
            TradeOp::InsertOrder => "insert_order",
            TradeOp::QueryOrder => "query_order",
            TradeOp::DeleteOrder => "delete_order",
            TradeOp::QueryInstrument => "query_instrument",
            TradeOp::Disconnect => "disconnect",
        }
    }
}

/// Which gateway connections of a client are open.
pub struct Session {
    market_data: bool,
    trade: bool,
}

/// The mathematical value of a [`Session`].
pub struct SessionView {
    pub market_data: bool,
    pub trade: bool,
}

impl View for Session {
    type V = SessionView;

    closed spec fn view(&self) -> SessionView {
        SessionView { market_data: self.market_data, trade: self.trade }
    }
}

impl Session {
    /// A session with no gateway connection.
    pub fn new() -> (res: Session)
        ensures
            res@ == (SessionView { market_data: false, trade: false }),
    {
        Session { market_data: false, trade: false }
    }

    /// Whether the market-data connection is open.
    pub fn market_data_connected(&self) -> (res: bool)
        ensures
            res == self@.market_data,
    {
        self.market_data
    }

    /// Whether the trade connection is open.
    pub fn trade_connected(&self) -> (res: bool)
        ensures
            res == self@.trade,
    {
        self.trade
    }
}

/// Whether a connection is open in a session.
pub open spec fn side_open(s: SessionView, side: GatewaySide) -> bool {
    match side {
        GatewaySide::MarketData => s.market_data,
        GatewaySide::Trade => s.trade,
    }
}

/// The session with the connection of `side` open or closed.
pub open spec fn with_side(s: SessionView, side: GatewaySide, open: bool) -> SessionView {
    match side {
        GatewaySide::MarketData => SessionView { market_data: open, ..s },
        GatewaySide::Trade => SessionView { trade: open, ..s },
    }
}

/// What the service does with an instruction.
#[derive(Debug, Clone, PartialEq, Eq)]
pub enum SessionAction {
    /// Answer the client with a report.
    Reply(Report<ReportData>),
    /// Do nothing.
    Ignore,
    /// Open a market-data connection, then report with
    /// [`complete_connect`].
    ConnectMarketData(WebCtpMarketDataConnectInstruction),
    /// Open a trade connection, then report with [`complete_connect`].
    ConnectTrade(WebCtpTradeConnectInstruction),
    /// Hand the command to the market-data task, then report with
    /// [`complete_market_data`].
    ForwardMarketData(MarketDataCommand),
    /// Hand the command to the trade task, then report with
    /// [`complete_trade`].
    ForwardTrade(TradeCommand),
}

/// The mathematical value of a [`SessionAction`].
pub enum SessionActionView {
    Reply(ReportView<ReportDataView>),
    Ignore,
    ConnectMarketData(WebCtpMarketDataConnectInstruction),
    ConnectTrade(WebCtpTradeConnectInstruction),
    ForwardMarketData(MarketDataCommand),
    ForwardTrade(TradeCommand),
}

impl View for SessionAction {
    type V = SessionActionView;

    open spec fn view(&self) -> SessionActionView {
        match self {
            SessionAction::Reply(r) => SessionActionView::Reply(r@),
            SessionAction::Ignore => SessionActionView::Ignore,
            SessionAction::ConnectMarketData(i) => SessionActionView::ConnectMarketData(*i),
            SessionAction::ConnectTrade(i) => SessionActionView::ConnectTrade(*i),
            SessionAction::ForwardMarketData(c) => SessionActionView::ForwardMarketData(*c),
            SessionAction::ForwardTrade(c) => SessionActionView::ForwardTrade(*c),
        }
    }
}

/// The report refusing a command for a connection that is not open.
pub open spec fn not_connected_report(side: GatewaySide) -> ReportView<ReportDataView> {
    report_of(ReportCode::GeneralError, side_label(side) + " client not connected"@, ReportDataView::Empty)
}

/// The market-data command an instruction asks for, if it asks for one.
pub open spec fn md_command_of(i: Instruction) -> Option<MarketDataCommand> {
    match i {
        Instruction::WebCtpMarketDataConnectFront(x) => Some(MarketDataCommand::ConnectFront(x)),
        Instruction::WebCtpMarketDataLogin(x) => Some(MarketDataCommand::Login(x)),
        Instruction::WebCtpMarketDataSubscribe(x) => Some(MarketDataCommand::Subscribe(x)),
        Instruction::WebCtpMarketDataUnsubscribe(x) => Some(MarketDataCommand::Unsubscribe(x)),
        Instruction::WebCtpMarketDataTradingDay(x) => Some(MarketDataCommand::TradingDay(x)),
        Instruction::WebCtpMarketDataDisconnect(x) => Some(MarketDataCommand::Disconnect(x)),
        _ => None,
    }
}

/// The trade command an instruction asks for, if it asks for one.
pub open spec fn trade_command_of(i: Instruction) -> Option<TradeCommand> {
    match i {
        Instruction::WebCtpTradeConnectFront(x) => Some(TradeCommand::ConnectFront(x)),
        Instruction::WebCtpTradeSet(x) => Some(TradeCommand::SetIds(x)),
        Instruction::WebCtpTradeTradingDay(x) => Some(TradeCommand::TradingDay(x)),
        Instruction::WebCtpTradeAuth(x) => Some(TradeCommand::Auth(x)),
        Instruction::WebCtpTradeLogin(x) => Some(TradeCommand::Login(x)),
        Instruction::WebCtpTradeLogout(x) => Some(TradeCommand::Logout(x)),
        Instruction::WebCtpTradeQuerySettlementInfo(x) => Some(TradeCommand::QuerySettlementInfo(x)),
        Instruction::WebCtpTradeConfirmSettlementInfo(x) => Some(TradeCommand::ConfirmSettlementInfo(x)),
        Instruction::WebCtpTradeQueryTradingAccount(x) => Some(TradeCommand::QueryTradingAccount(x)),
        Instruction::WebCtpTradeInsertOrder(x) => Some(TradeCommand::InsertOrder(x)),
        Instruction::WebCtpTradeQueryOrder(x) => Some(TradeCommand::QueryOrder(x)),
        Instruction::WebCtpTradeDeleteOrder(x) => Some(TradeCommand::DeleteOrder(x)),
        Instruction::WebCtpTradeQueryInstrument(x) => Some(TradeCommand::QueryInstrument(x)),
        Instruction::WebCtpTradeDisconnect(x) => Some(TradeCommand::Disconnect(x)),
        _ => None,
    }
}

/// How a session handles an instruction: its next state and the action.
///
/// A second handshake is refused; backtest instructions are ignored; connect
/// instructions start a connection attempt; a gateway command is forwarded
/// when its connection is open (a disconnect closes the connection at once)
/// and refused with "not connected" otherwise.
pub open spec fn session_step(s: SessionView, i: Instruction) -> (SessionView, SessionActionView) {
    match i {
        Instruction::Handshake(_) => (
            s,
            SessionActionView::Reply(
                report_of(ReportCode::GeneralError, "handshake already received"@, ReportDataView::Empty),
            ),
        ),
        Instruction::TestRequest(_) => (s, SessionActionView::Ignore),
        Instruction::TestCancel(_) => (s, SessionActionView::Ignore),
        Instruction::TestQuery(_) => (s, SessionActionView::Ignore),
        Instruction::WebCtpMarketDataConnect(x) => (s, SessionActionView::ConnectMarketData(x)),
        Instruction::WebCtpTradeConnect(x) => (s, SessionActionView::ConnectTrade(x)),
        _ => match md_command_of(i) {
            Some(c) => if s.market_data {
                (
                    SessionView { market_data: md_command_op(c) != MarketDataOp::Disconnect, ..s },
                    SessionActionView::ForwardMarketData(c),
                )
            } else {
                (s, SessionActionView::Reply(not_connected_report(GatewaySide::MarketData)))
            },
            None => match trade_command_of(i) {
                Some(c) => if s.trade {
                    (
                        SessionView { trade: trade_command_op(c) != TradeOp::Disconnect, ..s },
                        SessionActionView::ForwardTrade(c),
                    )
                } else {
                    (s, SessionActionView::Reply(not_connected_report(GatewaySide::Trade)))
                },
                None => (s, SessionActionView::Ignore),
            },
        },
    }
}

fn not_connected(side: GatewaySide) -> (res: Report<ReportData>)
    ensures
        res@ == not_connected_report(side),
{
    Report {
        code: ReportCode::GeneralError,
        message: join2(label(side), " client not connected"),
        data: ReportData::Empty,
    }
}

fn forward_market_data(session: &mut Session, c: MarketDataCommand) -> (res: SessionAction)
    ensures
        old(session)@.market_data ==> final(session)@ == (SessionView {
            market_data: md_command_op(c) != MarketDataOp::Disconnect,
            ..old(session)@
        }) && res@ == SessionActionView::ForwardMarketData(c),
        !old(session)@.market_data ==> final(session)@ == old(session)@ && res@
            == SessionActionView::Reply(not_connected_report(GatewaySide::MarketData)),
{
    if !session.market_data {
        return SessionAction::Reply(not_connected(GatewaySide::MarketData));
    }
    match c {
        MarketDataCommand::Disconnect(_) => {
            session.market_data = false;
        },
        _ => {},
    }
    SessionAction::ForwardMarketData(c)
}

fn forward_trade(session: &mut Session, c: TradeCommand) -> (res: SessionAction)
    ensures
        old(session)@.trade ==> final(session)@ == (SessionView {
            trade: trade_command_op(c) != TradeOp::Disconnect,
            ..old(session)@
        }) && res@ == SessionActionView::ForwardTrade(c),
        !old(session)@.trade ==> final(session)@ == old(session)@ && res@
            == SessionActionView::Reply(not_connected_report(GatewaySide::Trade)),
{
    if !session.trade {
        return SessionAction::Reply(not_connected(GatewaySide::Trade));
    }
    match c {
        TradeCommand::Disconnect(_) => {
            session.trade = false;
        },
        _ => {},
    }
    SessionAction::ForwardTrade(c)
}

/// Decides what to do with a client instruction, as [`session_step`] states.
pub fn handle_instruction(session: &mut Session, instruction: Instruction) -> (res: SessionAction)
    ensures
        (final(session)@, res@) == session_step(old(session)@, instruction),
{
    match instruction {
        Instruction::Handshake(_) => SessionAction::Reply(
            report(ReportCode::GeneralError, "handshake already received", ReportData::Empty),
        ),
        Instruction::TestRequest(_) => SessionAction::Ignore,
        Instruction::TestCancel(_) => SessionAction::Ignore,
        Instruction::TestQuery(_) => SessionAction::Ignore,
        Instruction::WebCtpMarketDataConnect(x) => SessionAction::ConnectMarketData(x),
        Instruction::WebCtpTradeConnect(x) => SessionAction::ConnectTrade(x),
        Instruction::WebCtpMarketDataConnectFront(x) => forward_market_data(session, MarketDataCommand::ConnectFront(x)),
        Instruction::WebCtpMarketDataLogin(x) => forward_market_data(session, MarketDataCommand::Login(x)),
        Instruction::WebCtpMarketDataSubscribe(x) => forward_market_data(session, MarketDataCommand::Subscribe(x)),
        Instruction::WebCtpMarketDataUnsubscribe(x) => forward_market_data(session, MarketDataCommand::Unsubscribe(x)),
        Instruction::WebCtpMarketDataTradingDay(x) => forward_market_data(session, MarketDataCommand::TradingDay(x)),
        Instruction::WebCtpMarketDataDisconnect(x) => forward_market_data(session, MarketDataCommand::Disconnect(x)),
        Instruction::WebCtpTradeConnectFront(x) => forward_trade(session, TradeCommand::ConnectFront(x)),
        Instruction::WebCtpTradeSet(x) => forward_trade(session, TradeCommand::SetIds(x)),
        Instruction::WebCtpTradeTradingDay(x) => forward_trade(session, TradeCommand::TradingDay(x)),
        Instruction::WebCtpTradeAuth(x) => forward_trade(session, TradeCommand::Auth(x)),
        Instruction::WebCtpTradeLogin(x) => forward_trade(session, TradeCommand::Login(x)),
        Instruction::WebCtpTradeLogout(x) => forward_trade(session, TradeCommand::Logout(x)),
        Instruction::WebCtpTradeQuerySettlementInfo(x) => forward_trade(session, TradeCommand::QuerySettlementInfo(x)),
        Instruction::WebCtpTradeConfirmSettlementInfo(x) => forward_trade(session, TradeCommand::ConfirmSettlementInfo(x)),
        Instruction::WebCtpTradeQueryTradingAccount(x) => forward_trade(session, TradeCommand::QueryTradingAccount(x)),
        Instruction::WebCtpTradeInsertOrder(x) => forward_trade(session, TradeCommand::InsertOrder(x)),
        Instruction::WebCtpTradeQueryOrder(x) => forward_trade(session, TradeCommand::QueryOrder(x)),
        Instruction::WebCtpTradeDeleteOrder(x) => forward_trade(session, TradeCommand::DeleteOrder(x)),
        Instruction::WebCtpTradeQueryInstrument(x) => forward_trade(session, TradeCommand::QueryInstrument(x)),
        Instruction::WebCtpTradeDisconnect(x) => forward_trade(session, TradeCommand::Disconnect(x)),
    }
}

/// How a forwarded command or a connection attempt ended.
#[derive(Debug, Clone, PartialEq, Eq)]
pub enum OpOutcome {
    /// The gateway accepted the request.
    Done,
    /// The request failed; the description of the error.
    Failed(String),
    /// The task owning the connection is gone.
    TaskStopped,
}

/// The mathematical value of an [`OpOutcome`].
pub enum OpOutcomeView {
    Done,
    Failed(Seq<char>),
    TaskStopped,
}

impl View for OpOutcome {
    type V = OpOutcomeView;

    open spec fn view(&self) -> OpOutcomeView {
        match self {
            OpOutcome::Done => OpOutcomeView::Done,
            OpOutcome::Failed(e) => OpOutcomeView::Failed(e@),
            OpOutcome::TaskStopped => OpOutcomeView::TaskStopped,
        }
    }
}

/// The acknowledgement of an operation: code `WebCtpOperationAck`, payload
/// `{"ok": true}`.
pub open spec fn ack_report(message: Seq<char>) -> ReportView<ReportDataView> {
    report_of(ReportCode::WebCtpOperationAck, message, ReportDataView::Ack(true))
}

/// The report of a failed operation: code `GeneralError`, the error's
/// description as payload.
pub open spec fn failure_report(message: Seq<char>, error: Seq<char>) -> ReportView<ReportDataView> {
    report_of(ReportCode::GeneralError, message, ReportDataView::Text(error))
}

/// The report that the task owning a connection is gone.
pub open spec fn task_stopped_report(side: GatewaySide) -> ReportView<ReportDataView> {
    report_of(ReportCode::GeneralError, side_label(side) + " task stopped"@, ReportDataView::Empty)
}

/// The message acknowledging a forwarded operation.
pub open spec fn ack_message(side: GatewaySide, op_name: Seq<char>, is_disconnect: bool) -> Seq<char> {
    if is_disconnect {
        "webctp "@ + side_label(side) + " disconnected"@
    } else {
        "webctp "@ + side_label(side) + " "@ + op_name + " sent"@
    }
}

/// The session and the report after a forwarded operation ended: an
/// acknowledgement, a failure with the error, or "task stopped", which
/// closes the connection.
pub open spec fn op_completion(
    s: SessionView,
    side: GatewaySide,
    op_name: Seq<char>,
    is_disconnect: bool,
    outcome: OpOutcomeView,
) -> (SessionView, ReportView<ReportDataView>) {
    match outcome {
        OpOutcomeView::Done => (s, ack_report(ack_message(side, op_name, is_disconnect))),
        OpOutcomeView::Failed(e) => (s, failure_report(side_label(side) + " "@ + op_name + " failed"@, e)),
        OpOutcomeView::TaskStopped => (with_side(s, side, false), task_stopped_report(side)),
    }
}

/// The session and the report after a connection attempt ended: a success
/// opens the connection.
pub open spec fn connect_completion(s: SessionView, side: GatewaySide, outcome: Result<(), Seq<char>>) -> (SessionView, ReportView<ReportDataView>) {
    match outcome {
        Ok(_) => (with_side(s, side, true), ack_report("webctp "@ + side_label(side) + " connected"@)),
        Err(e) => (s, failure_report("failed to connect webctp "@ + side_label(side), e)),
    }
}

/// The view of a connection attempt's outcome.
pub open spec fn connect_outcome_view(r: Result<(), String>) -> Result<(), Seq<char>> {
    match r {
        Ok(_) => Ok(()),
        Err(e) => Err(e@),
    }
}

fn set_side(session: &mut Session, side: GatewaySide, open: bool)
    ensures
        final(session)@ == with_side(old(session)@, side, open),
{
    match side {
        GatewaySide::MarketData => session.market_data = open,
        GatewaySide::Trade => session.trade = open,
    }
}

fn complete_op(session: &mut Session, side: GatewaySide, op_name: &str, is_disconnect: bool, outcome: OpOutcome) -> (res: Report<ReportData>)
    ensures
        (final(session)@, res@) == op_completion(old(session)@, side, op_name@, is_disconnect, outcome@),
{
    match outcome {
        OpOutcome::Done => {
            let message = if is_disconnect {
                join3("webctp ", label(side), " disconnected")
            } else {
                let mut m = join4("webctp ", label(side), " ", op_name);
                m.append(" sent");
                m
            };
            Report { code: ReportCode::WebCtpOperationAck, message, data: ReportData::Ack(OperationAck { ok: true }) }
        },
        OpOutcome::Failed(e) => {
            let message = join4(label(side), " ", op_name, " failed");
            Report { code: ReportCode::GeneralError, message, data: ReportData::Text(e) }
        },
        OpOutcome::TaskStopped => {
            set_side(session, side, false);
            Report { code: ReportCode::GeneralError, message: join2(label(side), " task stopped"), data: ReportData::Empty }
        },
    }
}

/// The report for a forwarded market-data command that ended with
/// `outcome`, as [`op_completion`] states.
pub fn complete_market_data(session: &mut Session, op: MarketDataOp, outcome: OpOutcome) -> (res: Report<ReportData>)
    ensures
        (final(session)@, res@) == op_completion(
            old(session)@,
            GatewaySide::MarketData,
            md_op_name(op),
            op == MarketDataOp::Disconnect,
            outcome@,
        ),
{
    let is_disconnect = match op {
        MarketDataOp::Disconnect => true,
        _ => false,
    };
    complete_op(session, GatewaySide::MarketData, op.name(), is_disconnect, outcome)
}

/// The report for a forwarded trade command that ended with `outcome`, as
/// [`op_completion`] states.
pub fn complete_trade(session: &mut Session, op: TradeOp, outcome: OpOutcome) -> (res: Report<ReportData>)
    ensures
        (final(session)@, res@) == op_completion(
            old(session)@,
            GatewaySide::Trade,
            trade_op_name(op),
            op == TradeOp::Disconnect,
            outcome@,
        ),
{
    let is_disconnect = match op {
        TradeOp::Disconnect => true,
        _ => false,
    };
    complete_op(session, GatewaySide::Trade, op.name(), is_disconnect, outcome)
}

/// The report for a connection attempt that ended with `outcome` (the
/// error's description on failure), as [`connect_completion`] states.
pub fn complete_connect(session: &mut Session, side: GatewaySide, outcome: Result<(), String>) -> (res: Report<ReportData>)
    ensures
        (final(session)@, res@) == connect_completion(old(session)@, side, connect_outcome_view(outcome)),
{
    match outcome {
        Ok(_) => {
            set_side(session, side, true);
            Report {
                code: ReportCode::WebCtpOperationAck,
                message: join3("webctp ", label(side), " connected"),
                data: ReportData::Ack(OperationAck { ok: true }),
            }
        },
        Err(e) => Report {
            code: ReportCode::GeneralError,
            message: join2("failed to connect webctp ", label(side)),
            data: ReportData::Text(e),
        },
    }
}

/// What the task owning a gateway connection writes for a command.
#[derive(Debug, PartialEq, Eq)]
pub enum GatewayWrite {
    /// The request, or why none can be sent.
    Request(Result<OpRequest, ClientError>),
    /// Close the connection; a close frame is owed when it was open.
    Close(bool),
}

/// The mathematical value of a [`GatewayWrite`].
pub enum GatewayWriteView {
    Request(Result<OpRequestView, ClientError>),
    Close(bool),
}

impl View for GatewayWrite {
    type V = GatewayWriteView;

    open spec fn view(&self) -> GatewayWriteView {
        match self {
            GatewayWrite::Request(r) => GatewayWriteView::Request(result_view(*r)),
            GatewayWrite::Close(b) => GatewayWriteView::Close(*b),
        }
    }
}

/// The request a market-data command becomes, and the client afterwards.
pub open spec fn md_command_effect(c: MarketDataClientView, cmd: MarketDataCommand) -> (MarketDataClientView, GatewayWriteView) {
    match cmd {
        MarketDataCommand::ConnectFront(x) => (c, GatewayWriteView::Request(send_result(
            c.connected,
            "connect"@,
            seq![("addr"@, FieldView::Str(x.addr@)), ("port"@, FieldView::Str(decimal(x.port as nat)))],
        ))),
        MarketDataCommand::Login(x) => (c, GatewayWriteView::Request(send_result(
            c.connected,
            "login"@,
            seq![
                ("broker_id"@, FieldView::Str(c.broker_id)),
                ("user_id"@, FieldView::Str(c.user_id)),
                ("password"@, FieldView::Str(x.password@)),
            ],
        ))),
        MarketDataCommand::Subscribe(x) => (c, GatewayWriteView::Request(send_result(
            c.connected,
            "subscribe"@,
            seq![("instruments"@, FieldView::StrList(x.instruments@.map_values(|s: String| s@)))],
        ))),
        MarketDataCommand::Unsubscribe(x) => (c, GatewayWriteView::Request(send_result(
            c.connected,
            "unsubscribe"@,
            seq![("instruments"@, FieldView::StrList(x.instruments@.map_values(|s: String| s@)))],
        ))),
        MarketDataCommand::TradingDay(_) => (c, GatewayWriteView::Request(send_result(c.connected, "get_trading_day"@, seq![]))),
        MarketDataCommand::Disconnect(_) => (
            MarketDataClientView { connected: false, ..c },
            GatewayWriteView::Close(c.connected),
        ),
    }
}

/// Runs a market-data command on the client, as [`md_command_effect`]
/// states.
pub fn execute_market_data(client: &mut MarketDataClient, cmd: &MarketDataCommand) -> (res: GatewayWrite)
    ensures
        (final(client)@, res@) == md_command_effect(old(client)@, *cmd),
{
    match cmd {
        MarketDataCommand::ConnectFront(x) => GatewayWrite::Request(client.connect_front(x.addr.as_str(), x.port)),
        MarketDataCommand::Login(x) => GatewayWrite::Request(client.login(x.password.as_str())),
        MarketDataCommand::Subscribe(x) => GatewayWrite::Request(client.subscribe(x.instruments.as_slice())),
        MarketDataCommand::Unsubscribe(x) => GatewayWrite::Request(client.unsubscribe(x.instruments.as_slice())),
        MarketDataCommand::TradingDay(_) => GatewayWrite::Request(client.get_trading_day()),
        MarketDataCommand::Disconnect(_) => GatewayWrite::Close(client.disconnect()),
    }
}

/// A request with only an `op_ref` entry.
pub open spec fn op_ref_only(connected: bool, op: Seq<char>, op_ref: Seq<char>) -> Result<OpRequestView, ClientError> {
    send_result(connected, op, seq![("op_ref"@, FieldView::Str(op_ref))])
}

/// The request a trade command becomes, and the client afterwards.
pub open spec fn trade_command_effect(c: TradeClientView, cmd: TradeCommand) -> (TradeClientView, GatewayWriteView) {
    match cmd {
        TradeCommand::ConnectFront(x) => (c, GatewayWriteView::Request(send_result(
            c.connected,
            "connect"@,
            seq![
                ("op_ref"@, FieldView::Str(x.op_ref@)),
                ("addr"@, FieldView::Str(x.addr@)),
                ("port"@, FieldView::Str(decimal(x.port as nat))),
            ],
        ))),
        TradeCommand::SetIds(x) => (
            TradeClientView {
                broker_id: replaced(c.broker_id, opt_view(x.broker_id)),
                investor_id: replaced(c.investor_id, opt_view(x.investor_id)),
                connected: c.connected,
            },
            GatewayWriteView::Request(send_result(
                c.connected,
                "set"@,
                push_opt_spec(
                    push_opt_spec(seq![("op_ref"@, FieldView::Str(x.op_ref@))], "broker_id"@, opt_view(x.broker_id)),
                    "investor_id"@,
                    opt_view(x.investor_id),
                ),
            )),
        ),
        TradeCommand::TradingDay(x) => (c, GatewayWriteView::Request(op_ref_only(c.connected, "get_trading_day"@, x.op_ref@))),
        TradeCommand::Auth(x) => (c, GatewayWriteView::Request(send_result(
            c.connected,
            "auth"@,
            seq![
                ("op_ref"@, FieldView::Str(x.op_ref@)),
                ("user_id"@, FieldView::Str(x.user_id@)),
                ("app_id"@, FieldView::Str(x.app_id@)),
                ("auth_code"@, FieldView::Str(x.auth_code@)),
            ],
        ))),
        TradeCommand::Login(x) => (c, GatewayWriteView::Request(send_result(
            c.connected,
            "login"@,
            seq![
                ("op_ref"@, FieldView::Str(x.op_ref@)),
                ("user_id"@, FieldView::Str(x.user_id@)),
                ("password"@, FieldView::Str(x.password@)),
            ],
        ))),
        TradeCommand::Logout(x) => (c, GatewayWriteView::Request(send_result(
            c.connected,
            "logout"@,
            seq![("op_ref"@, FieldView::Str(x.op_ref@)), ("user_id"@, FieldView::Str(x.user_id@))],
        ))),
        TradeCommand::QuerySettlementInfo(x) => (c, GatewayWriteView::Request(send_result(
            c.connected,
            "query_settlement_info"@,
            seq![("op_ref"@, FieldView::Str(x.op_ref@)), ("trading_day"@, FieldView::Str(x.trading_day@))],
        ))),
        TradeCommand::ConfirmSettlementInfo(x) => (c, GatewayWriteView::Request(op_ref_only(c.connected, "confirm_settlement_info"@, x.op_ref@))),
        TradeCommand::QueryTradingAccount(x) => (c, GatewayWriteView::Request(op_ref_only(c.connected, "query_trading_account"@, x.op_ref@))),
        TradeCommand::InsertOrder(x) => (c, GatewayWriteView::Request(send_result(
            c.connected,
            "insert_order"@,
            seq![
                ("op_ref"@, FieldView::Str(x.op_ref@)),
                ("instrument"@, FieldView::Str(x.instrument@)),
                ("exchange"@, FieldView::Str(x.exchange@)),
                ("ref"@, FieldView::Str(x.reference@)),
                ("price"@, FieldView::Float(x.price_bits)),
                ("direction"@, FieldView::Int(x.direction as int)),
                ("offset"@, FieldView::Int(x.offset as int)),
                ("volume"@, FieldView::Int(x.volume as int)),
                ("price_type"@, FieldView::Int(x.price_type as int)),
                ("time_condition"@, FieldView::Int(x.time_condition as int)),
            ],
        ))),
        TradeCommand::QueryOrder(x) => (c, GatewayWriteView::Request(send_result(
            c.connected,
            "query_order"@,
            push_opt_spec(
                push_opt_spec(
                    push_opt_spec(
                        push_opt_spec(seq![("op_ref"@, FieldView::Str(x.op_ref@))], "order_sys_id"@, opt_view(x.order_sys_id)),
                        "exchange_id"@,
                        opt_view(x.exchange_id),
                    ),
                    "from"@,
                    opt_view(x.from),
                ),
                "to"@,
                opt_view(x.to),
            ),
        ))),
        TradeCommand::DeleteOrder(x) => (c, GatewayWriteView::Request(send_result(
            c.connected,
            "delete_order"@,
            seq![
                ("op_ref"@, FieldView::Str(x.op_ref@)),
                ("exchange"@, FieldView::Str(x.exchange@)),
                ("instrument"@, FieldView::Str(x.instrument@)),
                ("delete_ref"@, FieldView::Int(x.delete_ref as int)),
                ("order_sys_id"@, FieldView::Str(x.order_sys_id@)),
            ],
        ))),
        TradeCommand::QueryInstrument(x) => (c, GatewayWriteView::Request(send_result(
            c.connected,
            "query_instrument"@,
            push_opt_spec(
                push_opt_spec(
                    push_opt_spec(
                        push_opt_spec(seq![("op_ref"@, FieldView::Str(x.op_ref@))], "exchange"@, opt_view(x.exchange)),
                        "instrument"@,
                        opt_view(x.instrument),
                    ),
                    "exchange_inst_id"@,
                    opt_view(x.exchange_inst_id),
                ),
                "product_id"@,
                opt_view(x.product_id),
            ),
        ))),
        TradeCommand::Disconnect(_) => (
            TradeClientView { connected: false, ..c },
            GatewayWriteView::Close(c.connected),
        ),
    }
}

fn clone_opt(o: &Option<String>) -> (res: Option<String>)
    ensures
        res == *o,
{
    match o {
        Some(s) => Some(s.clone()),
        None => None,
    }
}

/// Runs a trade command on the client, as [`trade_command_effect`] states.
pub fn execute_trade(client: &mut TradeClient, cmd: &TradeCommand) -> (res: GatewayWrite)
    ensures
        (final(client)@, res@) == trade_command_effect(old(client)@, *cmd),
{
    match cmd {
        TradeCommand::ConnectFront(x) => GatewayWrite::Request(client.connect_front(x.op_ref.as_str(), x.addr.as_str(), x.port)),
        TradeCommand::SetIds(x) => GatewayWrite::Request(client.set(x.op_ref.as_str(), clone_opt(&x.broker_id), clone_opt(&x.investor_id))),
        TradeCommand::TradingDay(x) => GatewayWrite::Request(client.get_trading_day(x.op_ref.as_str())),
        TradeCommand::Auth(x) => GatewayWrite::Request(client.auth(x.op_ref.as_str(), x.user_id.as_str(), x.app_id.as_str(), x.auth_code.as_str())),
        TradeCommand::Login(x) => GatewayWrite::Request(client.login(x.op_ref.as_str(), x.user_id.as_str(), x.password.as_str())),
        TradeCommand::Logout(x) => GatewayWrite::Request(client.logout(x.op_ref.as_str(), x.user_id.as_str())),
        TradeCommand::QuerySettlementInfo(x) => GatewayWrite::Request(client.query_settlement_info(x.op_ref.as_str(), x.trading_day.as_str())),
        TradeCommand::ConfirmSettlementInfo(x) => GatewayWrite::Request(client.confirm_settlement_info(x.op_ref.as_str())),
        TradeCommand::QueryTradingAccount(x) => GatewayWrite::Request(client.query_trading_account(x.op_ref.as_str())),
        TradeCommand::InsertOrder(x) => GatewayWrite::Request(client.insert_order(
            x.op_ref.as_str(),
            x.instrument.as_str(),
            x.exchange.as_str(),
            x.reference.as_str(),
            x.price_bits,
            x.direction,
            x.offset,
            x.volume,
            x.price_type,
            x.time_condition,
        )),
        TradeCommand::QueryOrder(x) => GatewayWrite::Request(client.query_order(
            x.op_ref.as_str(),
            clone_opt(&x.order_sys_id),
            clone_opt(&x.exchange_id),
            clone_opt(&x.from),
            clone_opt(&x.to),
        )),
        TradeCommand::DeleteOrder(x) => GatewayWrite::Request(client.delete_order(
            x.op_ref.as_str(),
            x.exchange.as_str(),
            x.instrument.as_str(),
            x.delete_ref,
            x.order_sys_id.as_str(),
        )),
        TradeCommand::QueryInstrument(x) => GatewayWrite::Request(client.query_instrument(
            x.op_ref.as_str(),
            clone_opt(&x.exchange),
            clone_opt(&x.instrument),
            clone_opt(&x.exchange_inst_id),
            clone_opt(&x.product_id),
        )),
        TradeCommand::Disconnect(_) => GatewayWrite::Close(client.disconnect()),
    }
}

/// The parts of an event report other than its payload.
#[derive(Debug, Clone, PartialEq, Eq)]
pub struct EventReportHeader {
    pub code: ReportCode,
    pub message: String,
    pub source: String,
    pub event: String,
}

/// The mathematical value of an [`EventReportHeader`].
pub struct EventReportHeaderView {
    pub code: ReportCode,
    pub message: Seq<char>,
    pub source: Seq<char>,
    pub event: Seq<char>,
}

impl View for EventReportHeader {
    type V = EventReportHeaderView;

    open spec fn view(&self) -> EventReportHeaderView {
        EventReportHeaderView { code: self.code, message: self.message@, source: self.source@, event: self.event@ }
    }
}

/// The header of the report relaying a market-data event.
pub fn market_data_event_header(kind: MarketDataEventKind) -> (res: EventReportHeader)
    ensures
        res@ == (EventReportHeaderView {
            code: ReportCode::WebCtpMarketDataEvent,
            message: "webctp market data event"@,
            source: "market_data"@,
            event: md_event_name(kind),
        }),
{
    EventReportHeader {
        code: ReportCode::WebCtpMarketDataEvent,
        message: String::from_str("webctp market data event"),
        source: String::from_str("market_data"),
        event: String::from_str(kind.event_name()),
    }
}

/// The header of the report relaying a trade event.
pub fn trade_event_header(kind: TradeEventKind) -> (res: EventReportHeader)
    ensures
        res@ == (EventReportHeaderView {
            code: ReportCode::WebCtpTradeEvent,
            message: "webctp trade event"@,
            source: "trade"@,
            event: trade_event_name(kind),
        }),
{
    EventReportHeader {
        code: ReportCode::WebCtpTradeEvent,
        message: String::from_str("webctp trade event"),
        source: String::from_str("trade"),
        event: String::from_str(kind.event_name()),
    }
}

/// Which part of a gateway message a relayed event carries as its payload.
#[derive(Debug, Clone, Copy, PartialEq, Eq, Structural)]
pub enum PayloadSource {
    /// An empty object.
    Empty,
    /// The message's `err` field.
    ErrField,
    /// The message's `info` field.
    InfoField,
    /// `{"debug": <the decoded record's debug text>}`.
    Debug,
    /// The unrecognised tag (or `{"msg_code": <code>}`).
    Raw,
}

/// The payload a relayed market-data event carries.
pub open spec fn md_payload_source_of(k: MarketDataEventKind) -> PayloadSource {
    match k {
        MarketDataEventKind::Ready => PayloadSource::Empty,
        MarketDataEventKind::Error => PayloadSource::ErrField,
        MarketDataEventKind::MarketData => PayloadSource::Debug,
        MarketDataEventKind::Unknown => PayloadSource::Raw,
        _ => PayloadSource::InfoField,
    }
}

/// The payload a relayed market-data event carries, as
/// [`md_payload_source_of`] states.
pub fn market_data_payload_source(kind: MarketDataEventKind) -> (res: PayloadSource)
    ensures
        res == md_payload_source_of(kind),
{
    match kind {
        MarketDataEventKind::Ready => PayloadSource::Empty,
        MarketDataEventKind::Error => PayloadSource::ErrField,
        MarketDataEventKind::MarketData => PayloadSource::Debug,
        MarketDataEventKind::Unknown => PayloadSource::Raw,
        _ => PayloadSource::InfoField,
    }
}

/// The payload a relayed trade event carries: its `info` as the gateway
/// sent it for the plain notifications, the debug text of the decoded record
/// for settlement, account, order and instrument records.
pub open spec fn trade_payload_source_of(k: TradeEventKind) -> PayloadSource {
    match k {
        TradeEventKind::Ready => PayloadSource::Empty,
        TradeEventKind::Error => PayloadSource::ErrField,
        TradeEventKind::ErrorNull => PayloadSource::ErrField,
        TradeEventKind::Performed => PayloadSource::InfoField,
        TradeEventKind::ErrorUnknownValue => PayloadSource::InfoField,
        TradeEventKind::FrontConnected => PayloadSource::InfoField,
        TradeEventKind::TradingDay => PayloadSource::InfoField,
        TradeEventKind::FrontDisconnected => PayloadSource::InfoField,
        TradeEventKind::Authenticate => PayloadSource::InfoField,
        TradeEventKind::Login => PayloadSource::InfoField,
        TradeEventKind::Logout => PayloadSource::InfoField,
        TradeEventKind::Unknown => PayloadSource::Raw,
        _ => PayloadSource::Debug,
    }
}

/// The payload a relayed trade event carries, as
/// [`trade_payload_source_of`] states.
pub fn trade_payload_source(kind: TradeEventKind) -> (res: PayloadSource)
    ensures
        res == trade_payload_source_of(kind),
{
    match kind {
        TradeEventKind::Ready => PayloadSource::Empty,
        TradeEventKind::Error => PayloadSource::ErrField,
        TradeEventKind::ErrorNull => PayloadSource::ErrField,
        TradeEventKind::Performed => PayloadSource::InfoField,
        TradeEventKind::ErrorUnknownValue => PayloadSource::InfoField,
        TradeEventKind::FrontConnected => PayloadSource::InfoField,
        TradeEventKind::TradingDay => PayloadSource::InfoField,
        TradeEventKind::FrontDisconnected => PayloadSource::InfoField,
        TradeEventKind::Authenticate => PayloadSource::InfoField,
        TradeEventKind::Login => PayloadSource::InfoField,
        TradeEventKind::Logout => PayloadSource::InfoField,
        TradeEventKind::Unknown => PayloadSource::Raw,
        _ => PayloadSource::Debug,
    }
}

/// What the task owning a gateway connection has just seen.
#[derive(Debug, Clone, Copy, PartialEq, Eq, Structural)]
pub enum ListenerInput {
    /// A gateway message, which is relayed.
    Event,
    /// The gateway connection ended.
    StreamEnded,
    /// Reading the gateway connection failed (reported with
    /// [`event_loop_error`]).
    ReadFailed,
    /// A command was run; whether it was a disconnect.
    Command(bool),
    /// No more commands can come (the session dropped the task's handle).
    CommandsClosed,
}

/// Whether the task goes on: after a relayed event or a command other than a
/// disconnect, and on nothing else.
pub open spec fn listener_continues(input: ListenerInput) -> bool {
    match input {
        ListenerInput::Event => true,
        ListenerInput::Command(is_disconnect) => !is_disconnect,
        _ => false,
    }
}

/// Whether the task owning a gateway connection goes on, as
/// [`listener_continues`] states.
pub fn listener_keeps_running(input: ListenerInput) -> (res: bool)
    ensures
        res == listener_continues(input),
{
    match input {
        ListenerInput::Event => true,
        ListenerInput::Command(is_disconnect) => !is_disconnect,
        _ => false,
    }
}

/// The report sent when reading a gateway connection fails; the task then
/// stops.
pub fn event_loop_error(side: GatewaySide, error: String) -> (res: Report<ReportData>)
    ensures
        res@ == failure_report(side_label(side) + " event loop error"@, error@),
{
    Report { code: ReportCode::GeneralError, message: join2(label(side), " event loop error"), data: ReportData::Text(error) }
}

/// A command reaches a gateway task only while that connection is open.
pub proof fn lemma_forward_only_when_open(s: SessionView, i: Instruction)
    ensures
        session_step(s, i).1 is ForwardMarketData ==> s.market_data,
        session_step(s, i).1 is ForwardTrade ==> s.trade,
{
}

/// No instruction opens a connection; only a successful connection attempt
/// does (see [`lemma_connect_completion`]).
pub proof fn lemma_step_never_opens(s: SessionView, i: Instruction)
    ensures
        session_step(s, i).0.market_data ==> s.market_data,
        session_step(s, i).0.trade ==> s.trade,
{
}

/// A gateway command on a closed connection is answered "not connected" and
/// changes nothing.
pub proof fn lemma_closed_refuses(s: SessionView, i: Instruction)
    ensures
        md_command_of(i) is Some && !s.market_data ==> session_step(s, i) == (
            s,
            SessionActionView::Reply(not_connected_report(GatewaySide::MarketData)),
        ),
        trade_command_of(i) is Some && !s.trade ==> session_step(s, i) == (
            s,
            SessionActionView::Reply(not_connected_report(GatewaySide::Trade)),
        ),
{
    assert(md_command_of(i) is Some ==> trade_command_of(i) is None);
}

/// A forwarded disconnect closes its connection at once, and a command for
/// one connection leaves the other as it was.
pub proof fn lemma_disconnect_closes(s: SessionView, i: Instruction)
    ensures
        md_command_of(i) matches Some(c) ==> {
            &&& md_command_op(c) == MarketDataOp::Disconnect ==> !session_step(s, i).0.market_data
            &&& session_step(s, i).0.trade == s.trade
        },
        trade_command_of(i) matches Some(c) ==> {
            &&& trade_command_op(c) == TradeOp::Disconnect ==> !session_step(s, i).0.trade
            &&& session_step(s, i).0.market_data == s.market_data
        },
{
    assert(md_command_of(i) is Some ==> trade_command_of(i) is None);
}

/// The end of a forwarded operation never opens a connection; "task stopped"
/// closes it; the other connection is left as it was. An operation that was
/// done is acknowledged with code `WebCtpOperationAck` and `{"ok": true}`;
/// the others are reported with an error code.
pub proof fn lemma_op_completion(
    s: SessionView,
    side: GatewaySide,
    op_name: Seq<char>,
    is_disconnect: bool,
    outcome: OpOutcomeView,
)
    ensures
        ({
            let (t, r) = op_completion(s, side, op_name, is_disconnect, outcome);
            &&& side_open(t, side) ==> side_open(s, side)
            &&& outcome is TaskStopped ==> !side_open(t, side)
            &&& !(outcome is TaskStopped) ==> t == s
            &&& side == GatewaySide::MarketData ==> t.trade == s.trade
            &&& side == GatewaySide::Trade ==> t.market_data == s.market_data
            &&& outcome is Done ==> r.code == ReportCode::WebCtpOperationAck && r.data == ReportDataView::Ack(true)
            &&& !(outcome is Done) ==> is_error_code(r.code)
        }),
{
}

/// A successful connection attempt opens its connection and is acknowledged;
/// a failed one changes nothing and is reported with an error code.
pub proof fn lemma_connect_completion(s: SessionView, side: GatewaySide, outcome: Result<(), Seq<char>>)
    ensures
        ({
            let (t, r) = connect_completion(s, side, outcome);
            &&& outcome is Ok ==> side_open(t, side) && r.code == ReportCode::WebCtpOperationAck
                && r.data == ReportDataView::Ack(true)
            &&& outcome is Err ==> t == s && is_error_code(r.code)
            &&& side == GatewaySide::MarketData ==> t.trade == s.trade
            &&& side == GatewaySide::Trade ==> t.market_data == s.market_data
        }),
{
}

/// Every gateway instruction on an open connection is forwarded as the
/// command of the same operation, carrying the instruction's own payload;
/// connect instructions become connection attempts with their own payload.
pub proof fn lemma_instructions_forward_their_own_command(s: SessionView, i: Instruction)
    ensures
        i matches Instruction::WebCtpMarketDataConnect(x) ==> session_step(s, i).1 == SessionActionView::ConnectMarketData(x),
        i matches Instruction::WebCtpTradeConnect(x) ==> session_step(s, i).1 == SessionActionView::ConnectTrade(x),
        s.market_data ==> (i matches Instruction::WebCtpMarketDataConnectFront(x) ==> session_step(s, i).1
            == SessionActionView::ForwardMarketData(MarketDataCommand::ConnectFront(x))),
        s.market_data ==> (i matches Instruction::WebCtpMarketDataLogin(x) ==> session_step(s, i).1
            == SessionActionView::ForwardMarketData(MarketDataCommand::Login(x))),
        s.market_data ==> (i matches Instruction::WebCtpMarketDataSubscribe(x) ==> session_step(s, i).1
            == SessionActionView::ForwardMarketData(MarketDataCommand::Subscribe(x))),
        s.market_data ==> (i matches Instruction::WebCtpMarketDataUnsubscribe(x) ==> session_step(s, i).1
            == SessionActionView::ForwardMarketData(MarketDataCommand::Unsubscribe(x))),
        s.market_data ==> (i matches Instruction::WebCtpMarketDataTradingDay(x) ==> session_step(s, i).1
            == SessionActionView::ForwardMarketData(MarketDataCommand::TradingDay(x))),
        s.market_data ==> (i matches Instruction::WebCtpMarketDataDisconnect(x) ==> session_step(s, i).1
            == SessionActionView::ForwardMarketData(MarketDataCommand::Disconnect(x))),
        s.trade ==> (i matches Instruction::WebCtpTradeConnectFront(x) ==> session_step(s, i).1
            == SessionActionView::ForwardTrade(TradeCommand::ConnectFront(x))),
        s.trade ==> (i matches Instruction::WebCtpTradeSet(x) ==> session_step(s, i).1
            == SessionActionView::ForwardTrade(TradeCommand::SetIds(x))),
        s.trade ==> (i matches Instruction::WebCtpTradeTradingDay(x) ==> session_step(s, i).1
            == SessionActionView::ForwardTrade(TradeCommand::TradingDay(x))),
        s.trade ==> (i matches Instruction::WebCtpTradeAuth(x) ==> session_step(s, i).1
            == SessionActionView::ForwardTrade(TradeCommand::Auth(x))),
        s.trade ==> (i matches Instruction::WebCtpTradeLogin(x) ==> session_step(s, i).1
            == SessionActionView::ForwardTrade(TradeCommand::Login(x))),
        s.trade ==> (i matches Instruction::WebCtpTradeLogout(x) ==> session_step(s, i).1
            == SessionActionView::ForwardTrade(TradeCommand::Logout(x))),
        s.trade ==> (i matches Instruction::WebCtpTradeQuerySettlementInfo(x) ==> session_step(s, i).1
            == SessionActionView::ForwardTrade(TradeCommand::QuerySettlementInfo(x))),
        s.trade ==> (i matches Instruction::WebCtpTradeConfirmSettlementInfo(x) ==> session_step(s, i).1
            == SessionActionView::ForwardTrade(TradeCommand::ConfirmSettlementInfo(x))),
        s.trade ==> (i matches Instruction::WebCtpTradeQueryTradingAccount(x) ==> session_step(s, i).1
            == SessionActionView::ForwardTrade(TradeCommand::QueryTradingAccount(x))),
        s.trade ==> (i matches Instruction::WebCtpTradeInsertOrder(x) ==> session_step(s, i).1
            == SessionActionView::ForwardTrade(TradeCommand::InsertOrder(x))),
        s.trade ==> (i matches Instruction::WebCtpTradeQueryOrder(x) ==> session_step(s, i).1
            == SessionActionView::ForwardTrade(TradeCommand::QueryOrder(x))),
        s.trade ==> (i matches Instruction::WebCtpTradeDeleteOrder(x) ==> session_step(s, i).1
            == SessionActionView::ForwardTrade(TradeCommand::DeleteOrder(x))),
        s.trade ==> (i matches Instruction::WebCtpTradeQueryInstrument(x) ==> session_step(s, i).1
            == SessionActionView::ForwardTrade(TradeCommand::QueryInstrument(x))),
        s.trade ==> (i matches Instruction::WebCtpTradeDisconnect(x) ==> session_step(s, i).1
            == SessionActionView::ForwardTrade(TradeCommand::Disconnect(x))),
{
}

/// The request op a command's operation is sent as: the operation's report
/// name, but `connect` for connecting to a front.
pub open spec fn md_wire_op(op: MarketDataOp) -> Seq<char> {
    if op == MarketDataOp::ConnectFront {
        "connect"@
    } else {
        md_op_name(op)
    }
}

/// The request op a command's operation is sent as: the operation's report
/// name, but `connect` for connecting to a front.
pub open spec fn trade_wire_op(op: TradeOp) -> Seq<char> {
    if op == TradeOp::ConnectFront {
        "connect"@
    } else {
        trade_op_name(op)
    }
}

/// A market-data command runs the client's method of the same operation on
/// the command's own fields; a connected client sends a request named after
/// the operation, and a disconnect closes the client.
pub proof fn lemma_md_commands_run_their_method(c: MarketDataClientView, cmd: MarketDataCommand)
    ensures
        cmd matches MarketDataCommand::ConnectFront(x) ==> md_command_effect(c, cmd) == (
            c,
            GatewayWriteView::Request(md_connect_front_request(c, x.addr@, x.port)),
        ),
        cmd matches MarketDataCommand::Login(x) ==> md_command_effect(c, cmd) == (
            c,
            GatewayWriteView::Request(md_login_request(c, x.password@)),
        ),
        cmd matches MarketDataCommand::Subscribe(x) ==> md_command_effect(c, cmd) == (
            c,
            GatewayWriteView::Request(md_subscribe_request(c, x.instruments@.map_values(|s: String| s@))),
        ),
        cmd matches MarketDataCommand::Unsubscribe(x) ==> md_command_effect(c, cmd) == (
            c,
            GatewayWriteView::Request(md_unsubscribe_request(c, x.instruments@.map_values(|s: String| s@))),
        ),
        cmd matches MarketDataCommand::TradingDay(_) ==> md_command_effect(c, cmd) == (
            c,
            GatewayWriteView::Request(md_trading_day_request(c)),
        ),
        cmd matches MarketDataCommand::Disconnect(_) ==> md_command_effect(c, cmd) == (
            MarketDataClientView { connected: false, ..c },
            GatewayWriteView::Close(c.connected),
        ),
        c.connected && md_command_op(cmd) != MarketDataOp::Disconnect ==> (md_command_effect(c, cmd).1 matches GatewayWriteView::Request(Ok(r))
            && r.op == md_wire_op(md_command_op(cmd))),
        !c.connected && md_command_op(cmd) != MarketDataOp::Disconnect ==> md_command_effect(c, cmd).1
            == GatewayWriteView::Request(Err(ClientError::NotConnected)),
{
}

/// A trade command runs the client's method of the same operation on the
/// command's own fields, in order; a connected client sends a request named
/// after the operation, and a disconnect closes the client.
pub proof fn lemma_trade_commands_run_their_method(c: TradeClientView, cmd: TradeCommand)
    ensures
        cmd matches TradeCommand::ConnectFront(x) ==> trade_command_effect(c, cmd).1
            == GatewayWriteView::Request(trade_connect_front_request(c, x.op_ref@, x.addr@, x.port)),
        cmd matches TradeCommand::SetIds(x) ==> trade_command_effect(c, cmd).1
            == GatewayWriteView::Request(trade_set_request(c, x.op_ref@, opt_view(x.broker_id), opt_view(x.investor_id))),
        cmd matches TradeCommand::TradingDay(x) ==> trade_command_effect(c, cmd).1
            == GatewayWriteView::Request(trade_op_ref_request(c, "get_trading_day"@, x.op_ref@)),
        cmd matches TradeCommand::Auth(x) ==> trade_command_effect(c, cmd).1
            == GatewayWriteView::Request(trade_auth_request(c, x.op_ref@, x.user_id@, x.app_id@, x.auth_code@)),
        cmd matches TradeCommand::Login(x) ==> trade_command_effect(c, cmd).1
            == GatewayWriteView::Request(trade_login_request(c, x.op_ref@, x.user_id@, x.password@)),
        cmd matches TradeCommand::Logout(x) ==> trade_command_effect(c, cmd).1
            == GatewayWriteView::Request(trade_logout_request(c, x.op_ref@, x.user_id@)),
        cmd matches TradeCommand::QuerySettlementInfo(x) ==> trade_command_effect(c, cmd).1
            == GatewayWriteView::Request(trade_query_settlement_info_request(c, x.op_ref@, x.trading_day@)),
        cmd matches TradeCommand::ConfirmSettlementInfo(x) ==> trade_command_effect(c, cmd).1
            == GatewayWriteView::Request(trade_op_ref_request(c, "confirm_settlement_info"@, x.op_ref@)),
        cmd matches TradeCommand::QueryTradingAccount(x) ==> trade_command_effect(c, cmd).1
            == GatewayWriteView::Request(trade_op_ref_request(c, "query_trading_account"@, x.op_ref@)),
        cmd matches TradeCommand::InsertOrder(x) ==> trade_command_effect(c, cmd).1 == GatewayWriteView::Request(
            trade_insert_order_request(
                c,
                x.op_ref@,
                x.instrument@,
                x.exchange@,
                x.reference@,
                x.price_bits,
                x.direction as int,
                x.offset as int,
                x.volume as int,
                x.price_type as int,
                x.time_condition as int,
            ),
        ),
        cmd matches TradeCommand::QueryOrder(x) ==> trade_command_effect(c, cmd).1 == GatewayWriteView::Request(
            trade_query_order_request(c, x.op_ref@, opt_view(x.order_sys_id), opt_view(x.exchange_id), opt_view(x.from), opt_view(x.to)),
        ),
        cmd matches TradeCommand::DeleteOrder(x) ==> trade_command_effect(c, cmd).1 == GatewayWriteView::Request(
            trade_delete_order_request(c, x.op_ref@, x.exchange@, x.instrument@, x.delete_ref as int, x.order_sys_id@),
        ),
        cmd matches TradeCommand::QueryInstrument(x) ==> trade_command_effect(c, cmd).1 == GatewayWriteView::Request(
            trade_query_instrument_request(
                c,
                x.op_ref@,
                opt_view(x.exchange),
                opt_view(x.instrument),
                opt_view(x.exchange_inst_id),
                opt_view(x.product_id),
            ),
        ),
        trade_command_op(cmd) != TradeOp::SetIds && trade_command_op(cmd) != TradeOp::Disconnect
            ==> trade_command_effect(c, cmd).0 == c,
        cmd matches TradeCommand::Disconnect(_) ==> trade_command_effect(c, cmd) == (
            TradeClientView { connected: false, ..c },
            GatewayWriteView::Close(c.connected),
        ),
        c.connected && trade_command_op(cmd) != TradeOp::Disconnect ==> (trade_command_effect(c, cmd).1 matches GatewayWriteView::Request(Ok(r))
            && r.op == trade_wire_op(trade_command_op(cmd))),
        !c.connected && trade_command_op(cmd) != TradeOp::Disconnect ==> trade_command_effect(c, cmd).1
            == GatewayWriteView::Request(Err(ClientError::NotConnected)),
{
}

/// An order is placed with each of its fields under its own key: the
/// direction under `direction`, the open/close flag under `offset`, and so on.
pub proof fn lemma_insert_order_fields(c: TradeClientView, x: WebCtpTradeInsertOrderInstruction)
    requires
        c.connected,
    ensures
        trade_command_effect(c, TradeCommand::InsertOrder(x)).1 matches GatewayWriteView::Request(Ok(r)) && {
            &&& r.op == "insert_order"@
            &&& r.data.len() == 10
            &&& r.data[0] == ("op_ref"@, FieldView::Str(x.op_ref@))
            &&& r.data[1] == ("instrument"@, FieldView::Str(x.instrument@))
            &&& r.data[2] == ("exchange"@, FieldView::Str(x.exchange@))
            &&& r.data[3] == ("ref"@, FieldView::Str(x.reference@))
            &&& r.data[4] == ("price"@, FieldView::Float(x.price_bits))
            &&& r.data[5] == ("direction"@, FieldView::Int(x.direction as int))
            &&& r.data[6] == ("offset"@, FieldView::Int(x.offset as int))
            &&& r.data[7] == ("volume"@, FieldView::Int(x.volume as int))
            &&& r.data[8] == ("price_type"@, FieldView::Int(x.price_type as int))
            &&& r.data[9] == ("time_condition"@, FieldView::Int(x.time_condition as int))
        },
{
}

} // verus!
