//! The payloads of the instructions that clients send,
//! `{"action": <name>, "data": <payload>}`.
use vstd::prelude::*;

verus! {

/// Answers the greeting with the token it carried.
#[derive(Debug, Clone, PartialEq, Eq)]
pub struct HandshakeInstruction {
    pub token: String,
}

/// The market a backtest runs on.
#[derive(Debug, Clone, Copy, PartialEq, Eq, Structural)]
pub enum MarketType {
    Futures,
    FuturesOptions,
    StockCN,
    StockHK,
    StockUS,
}

/// Asks for a backtest.
#[derive(Debug, Clone, PartialEq, Eq)]
pub struct BacktestRequestInstruction {
    pub market: MarketType,
    pub subject: String,
    pub time_begin: String,
    pub time_end: String,
}

/// Cancels a backtest.
#[derive(Debug, Clone, PartialEq, Eq)]
pub struct BacktestCancelInstruction {
    pub reference: String,
}

/// Queries a backtest.
#[derive(Debug, Clone, PartialEq, Eq)]
pub struct BacktestQueryInstruction {
    pub reference: String,
}

/// Opens a market-data connection to a WebCTP gateway.
#[derive(Debug, Clone, PartialEq, Eq)]
pub struct WebCtpMarketDataConnectInstruction {
    pub url: String,
    pub broker_id: String,
    pub user_id: String,
}

/// Connects the market-data gateway to a CTP front.
#[derive(Debug, Clone, PartialEq, Eq)]
pub struct WebCtpMarketDataConnectFrontInstruction {
    pub op_ref: String,
    pub addr: String,
    pub port: u16,
}

/// Logs in to the market-data front.
#[derive(Debug, Clone, PartialEq, Eq)]
pub struct WebCtpMarketDataLoginInstruction {
    pub op_ref: String,
    pub password: String,
}

/// Subscribes to instruments.
#[derive(Debug, Clone, PartialEq, Eq)]
pub struct WebCtpMarketDataSubscribeInstruction {
    pub op_ref: String,
    pub instruments: Vec<String>,
}

/// Unsubscribes from instruments.
#[derive(Debug, Clone, PartialEq, Eq)]
pub struct WebCtpMarketDataUnsubscribeInstruction {
    pub op_ref: String,
    pub instruments: Vec<String>,
}

/// Asks the market-data front for the trading day.
#[derive(Debug, Clone, PartialEq, Eq)]
pub struct WebCtpMarketDataTradingDayInstruction {
    pub op_ref: String,
}

/// Closes the market-data connection.
#[derive(Debug, Clone, PartialEq, Eq)]
pub struct WebCtpMarketDataDisconnectInstruction {}

/// Opens a trade connection to a WebCTP gateway.
#[derive(Debug, Clone, PartialEq, Eq)]
pub struct WebCtpTradeConnectInstruction {
    pub url: String,
    pub broker_id: String,
    pub investor_id: String,
}

/// Connects the trade gateway to a CTP front.
#[derive(Debug, Clone, PartialEq, Eq)]
pub struct WebCtpTradeConnectFrontInstruction {
    pub op_ref: String,
    pub addr: String,
    pub port: u16,
}

/// Replaces the broker and/or the investor of the trade connection.
#[derive(Debug, Clone, PartialEq, Eq)]
pub struct WebCtpTradeSetInstruction {
    pub op_ref: String,
    pub broker_id: Option<String>,
    pub investor_id: Option<String>,
}

/// Asks the trade front for the trading day.
#[derive(Debug, Clone, PartialEq, Eq)]
pub struct WebCtpTradeTradingDayInstruction {
    pub op_ref: String,
}

/// Authenticates the client application at the trade front.
#[derive(Debug, Clone, PartialEq, Eq)]
pub struct WebCtpTradeAuthInstruction {
    pub op_ref: String,
    pub user_id: String,
    pub app_id: String,
    pub auth_code: String,
}

/// Logs in to the trade front.
#[derive(Debug, Clone, PartialEq, Eq)]
pub struct WebCtpTradeLoginInstruction {
    pub op_ref: String,
    pub user_id: String,
    pub password: String,
}

/// Logs out of the trade front.
#[derive(Debug, Clone, PartialEq, Eq)]
pub struct WebCtpTradeLogoutInstruction {
    pub op_ref: String,
    pub user_id: String,
}

/// Queries the settlement information of a trading day.
#[derive(Debug, Clone, PartialEq, Eq)]
pub struct WebCtpTradeQuerySettlementInfoInstruction {
    pub op_ref: String,
    pub trading_day: String,
}

/// Confirms the settlement information.
#[derive(Debug, Clone, PartialEq, Eq)]
pub struct WebCtpTradeConfirmSettlementInfoInstruction {
    pub op_ref: String,
}

/// Queries the trading account.
#[derive(Debug, Clone, PartialEq, Eq)]
pub struct WebCtpTradeQueryTradingAccountInstruction {
    pub op_ref: String,
}

/// Places an order. The price is held by the IEEE-754 bit pattern of the
/// `f64` the client sent.
#[derive(Debug, Clone, PartialEq, Eq)]
pub struct WebCtpTradeInsertOrderInstruction {
    pub op_ref: String,
    pub instrument: String,
    pub exchange: String,
    pub reference: String,
    pub price_bits: u64,
    pub direction: i64,
    pub offset: i64,
    pub volume: i64,
    pub price_type: i64,
    pub time_condition: i64,
}

/// Queries orders.
#[derive(Debug, Clone, PartialEq, Eq)]
pub struct WebCtpTradeQueryOrderInstruction {
    pub op_ref: String,
    pub order_sys_id: Option<String>,
    pub exchange_id: Option<String>,
    pub from: Option<String>,
    pub to: Option<String>,
}

/// Cancels an order.
#[derive(Debug, Clone, PartialEq, Eq)]
pub struct WebCtpTradeDeleteOrderInstruction {
    pub op_ref: String,
    pub exchange: String,
    pub instrument: String,
    pub delete_ref: i64,
    pub order_sys_id: String,
}

/// Queries instruments.
#[derive(Debug, Clone, PartialEq, Eq)]
pub struct WebCtpTradeQueryInstrumentInstruction {
    pub op_ref: String,
    pub exchange: Option<String>,
    pub instrument: Option<String>,
    pub exchange_inst_id: Option<String>,
    pub product_id: Option<String>,
}

/// Closes the trade connection.
#[derive(Debug, Clone, PartialEq, Eq)]
pub struct WebCtpTradeDisconnectInstruction {}

} // verus!
