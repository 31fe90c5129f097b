//! The messages exchanged with clients: instructions in, reports out.
use vstd::prelude::*;

pub mod instruction;
pub mod report;

use self::instruction::{
    BacktestCancelInstruction, BacktestQueryInstruction, BacktestRequestInstruction,
    HandshakeInstruction, WebCtpMarketDataConnectFrontInstruction,
    WebCtpMarketDataConnectInstruction, WebCtpMarketDataDisconnectInstruction,
    WebCtpMarketDataLoginInstruction, WebCtpMarketDataSubscribeInstruction,
    WebCtpMarketDataTradingDayInstruction, WebCtpMarketDataUnsubscribeInstruction,
    WebCtpTradeAuthInstruction, WebCtpTradeConfirmSettlementInfoInstruction,
    WebCtpTradeConnectFrontInstruction, WebCtpTradeConnectInstruction,
    WebCtpTradeDeleteOrderInstruction, WebCtpTradeDisconnectInstruction,
    WebCtpTradeInsertOrderInstruction, WebCtpTradeLoginInstruction, WebCtpTradeLogoutInstruction,
    WebCtpTradeQueryInstrumentInstruction, WebCtpTradeQueryOrderInstruction,
    WebCtpTradeQuerySettlementInfoInstruction, WebCtpTradeQueryTradingAccountInstruction,
    WebCtpTradeSetInstruction, WebCtpTradeTradingDayInstruction,
};

verus! {

/// An instruction from a client; the variant is the `action` of the message.
#[derive(Debug, Clone, PartialEq, Eq)]
pub enum Instruction {
    Handshake(HandshakeInstruction),
    TestRequest(BacktestRequestInstruction),
    TestCancel(BacktestCancelInstruction),
    TestQuery(BacktestQueryInstruction),
    WebCtpMarketDataConnect(WebCtpMarketDataConnectInstruction),
    WebCtpMarketDataConnectFront(WebCtpMarketDataConnectFrontInstruction),
    WebCtpMarketDataLogin(WebCtpMarketDataLoginInstruction),
    WebCtpMarketDataSubscribe(WebCtpMarketDataSubscribeInstruction),
    WebCtpMarketDataUnsubscribe(WebCtpMarketDataUnsubscribeInstruction),
    WebCtpMarketDataTradingDay(WebCtpMarketDataTradingDayInstruction),
    WebCtpMarketDataDisconnect(WebCtpMarketDataDisconnectInstruction),
    WebCtpTradeConnect(WebCtpTradeConnectInstruction),
    WebCtpTradeConnectFront(WebCtpTradeConnectFrontInstruction),
    WebCtpTradeSet(WebCtpTradeSetInstruction),
    WebCtpTradeTradingDay(WebCtpTradeTradingDayInstruction),
    WebCtpTradeAuth(WebCtpTradeAuthInstruction),
    WebCtpTradeLogin(WebCtpTradeLoginInstruction),
    WebCtpTradeLogout(WebCtpTradeLogoutInstruction),
    WebCtpTradeQuerySettlementInfo(WebCtpTradeQuerySettlementInfoInstruction),
    WebCtpTradeConfirmSettlementInfo(WebCtpTradeConfirmSettlementInfoInstruction),
    WebCtpTradeQueryTradingAccount(WebCtpTradeQueryTradingAccountInstruction),
    WebCtpTradeInsertOrder(WebCtpTradeInsertOrderInstruction),
    WebCtpTradeQueryOrder(WebCtpTradeQueryOrderInstruction),
    WebCtpTradeDeleteOrder(WebCtpTradeDeleteOrderInstruction),
    WebCtpTradeQueryInstrument(WebCtpTradeQueryInstrumentInstruction),
    WebCtpTradeDisconnect(WebCtpTradeDisconnectInstruction),
}

} // verus!
