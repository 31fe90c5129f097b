//! Message codes of the WebCTP gateway (market data and trade fronts).
use vstd::prelude::*;

verus! {

/// Codes of the messages that the market-data front of a WebCTP gateway sends.
#[derive(Debug, Clone, Copy, PartialEq, Eq, Structural)]
pub enum MdMsgCode {
    Performed,
    Error,
    Connected,
    Disconnected,
    HeartbeatTimeout,
    Login,
    Logout,
    TradingDay,
    Subscribe,
    Unsubscribe,
    MarketData,
}

/// The wire value of a market-data message code.
pub open spec fn md_code_value(c: MdMsgCode) -> int {
    match c {
        MdMsgCode::Performed => 0,
        MdMsgCode::Error => 1,
        MdMsgCode::Connected => 2,
        MdMsgCode::Disconnected => 3,
        MdMsgCode::HeartbeatTimeout => 4,
        MdMsgCode::Login => 5,
        MdMsgCode::Logout => 6,
        MdMsgCode::TradingDay => 7,
        MdMsgCode::Subscribe => 8,
        MdMsgCode::Unsubscribe => 9,
        MdMsgCode::MarketData => 10,
    }
}

/// The market-data message code with wire value `v`, if there is one.
pub open spec fn md_code_from_value(v: int) -> Option<MdMsgCode> {
    if v == 0 {
        Some(MdMsgCode::Performed)
    } else if v == 1 {
        Some(MdMsgCode::Error)
    } else if v == 2 {
        Some(MdMsgCode::Connected)
    } else if v == 3 {
        Some(MdMsgCode::Disconnected)
    } else if v == 4 {
        Some(MdMsgCode::HeartbeatTimeout)
    } else if v == 5 {
        Some(MdMsgCode::Login)
    } else if v == 6 {
        Some(MdMsgCode::Logout)
    } else if v == 7 {
        Some(MdMsgCode::TradingDay)
    } else if v == 8 {
        Some(MdMsgCode::Subscribe)
    } else if v == 9 {
        Some(MdMsgCode::Unsubscribe)
    } else if v == 10 {
        Some(MdMsgCode::MarketData)
    } else {
        None
    }
}

impl MdMsgCode {
    /// Decodes a wire value; every value outside `0..=10` is refused.
    pub fn try_from(value: i64) -> (res: Result<MdMsgCode, ()>)
        ensures
            match md_code_from_value(value as int) {
                Some(c) => res == Ok::<MdMsgCode, ()>(c),
                None => res == Err::<MdMsgCode, ()>(()),
            },
    {
        match value {
            0 => Ok(MdMsgCode::Performed),
            1 => Ok(MdMsgCode::Error),
            2 => Ok(MdMsgCode::Connected),
            3 => Ok(MdMsgCode::Disconnected),
            4 => Ok(MdMsgCode::HeartbeatTimeout),
            5 => Ok(MdMsgCode::Login),
            6 => Ok(MdMsgCode::Logout),
            7 => Ok(MdMsgCode::TradingDay),
            8 => Ok(MdMsgCode::Subscribe),
            9 => Ok(MdMsgCode::Unsubscribe),
            10 => Ok(MdMsgCode::MarketData),
            _ => Err(()),
        }
    }

    /// The wire value of this code.
    pub fn value(&self) -> (res: i64)
        ensures
            res == md_code_value(*self),
    {
        match self {
            MdMsgCode::Performed => 0,
            MdMsgCode::Error => 1,
            MdMsgCode::Connected => 2,
            MdMsgCode::Disconnected => 3,
            MdMsgCode::HeartbeatTimeout => 4,
            MdMsgCode::Login => 5,
            MdMsgCode::Logout => 6,
            MdMsgCode::TradingDay => 7,
            MdMsgCode::Subscribe => 8,
            MdMsgCode::Unsubscribe => 9,
            MdMsgCode::MarketData => 10,
        }
    }
}

/// Codes of the messages that the trade front of a WebCTP gateway sends.
#[derive(Debug, Clone, Copy, PartialEq, Eq, Structural)]
pub enum TradeMsgCode {
    Performed,
    Error,
    ErrorNull,
    ErrorUnknownValue,
    Connected,
    TradingDay,
    Disconnected,
    Authenticate,
    Login,
    Logout,
    SettlementInfo,
    SettlementInfoConfirm,
    TradingAccount,
    OrderInsertError,
    OrderInsertReturnError,
    OrderInserted,
    OrderTraded,
    QueryOrder,
    OrderDeleteError,
    OrderDeleteReturnError,
    OrderDeleted,
    QueryInstrument,
}

/// The wire value of a trade message code.
pub open spec fn trade_code_value(c: TradeMsgCode) -> int {
    match c {
        TradeMsgCode::Performed => 0,
        TradeMsgCode::Error => 1,
        TradeMsgCode::ErrorNull => 2,
        TradeMsgCode::ErrorUnknownValue => 3,
        TradeMsgCode::Connected => 4,
        TradeMsgCode::TradingDay => 5,
        TradeMsgCode::Disconnected => 6,
        TradeMsgCode::Authenticate => 7,
        TradeMsgCode::Login => 8,
        TradeMsgCode::Logout => 9,
        TradeMsgCode::SettlementInfo => 10,
        TradeMsgCode::SettlementInfoConfirm => 11,
        TradeMsgCode::TradingAccount => 12,
        TradeMsgCode::OrderInsertError => 13,
        TradeMsgCode::OrderInsertReturnError => 14,
        TradeMsgCode::OrderInserted => 15,
        TradeMsgCode::OrderTraded => 16,
        TradeMsgCode::QueryOrder => 17,
        TradeMsgCode::OrderDeleteError => 18,
        TradeMsgCode::OrderDeleteReturnError => 19,
        TradeMsgCode::OrderDeleted => 20,
        TradeMsgCode::QueryInstrument => 21,
    }
}

/// The trade message code with wire value `v`, if there is one.
pub open spec fn trade_code_from_value(v: int) -> Option<TradeMsgCode> {
    if v == 0 {
        Some(TradeMsgCode::Performed)
    } else if v == 1 {
        Some(TradeMsgCode::Error)
    } else if v == 2 {
        Some(TradeMsgCode::ErrorNull)
    } else if v == 3 {
        Some(TradeMsgCode::ErrorUnknownValue)
    } else if v == 4 {
        Some(TradeMsgCode::Connected)
    } else if v == 5 {
        Some(TradeMsgCode::TradingDay)
    } else if v == 6 {
        Some(TradeMsgCode::Disconnected)
    } else if v == 7 {
        Some(TradeMsgCode::Authenticate)
    } else if v == 8 {
        Some(TradeMsgCode::Login)
    } else if v == 9 {
        Some(TradeMsgCode::Logout)
    } else if v == 10 {
        Some(TradeMsgCode::SettlementInfo)
    } else if v == 11 {
        Some(TradeMsgCode::SettlementInfoConfirm)
    } else if v == 12 {
        Some(TradeMsgCode::TradingAccount)
    } else if v == 13 {
        Some(TradeMsgCode::OrderInsertError)
    } else if v == 14 {
        Some(TradeMsgCode::OrderInsertReturnError)
    } else if v == 15 {
        Some(TradeMsgCode::OrderInserted)
    } else if v == 16 {
        Some(TradeMsgCode::OrderTraded)
    } else if v == 17 {
        Some(TradeMsgCode::QueryOrder)
    } else if v == 18 {
        Some(TradeMsgCode::OrderDeleteError)
    } else if v == 19 {
        Some(TradeMsgCode::OrderDeleteReturnError)
    } else if v == 20 {
        Some(TradeMsgCode::OrderDeleted)
    } else if v == 21 {
        Some(TradeMsgCode::QueryInstrument)
    } else {
        None
    }
}

impl TradeMsgCode {
    /// Decodes a wire value; every value outside `0..=21` is refused.
    pub fn try_from(value: i64) -> (res: Result<TradeMsgCode, ()>)
        ensures
            match trade_code_from_value(value as int) {
                Some(c) => res == Ok::<TradeMsgCode, ()>(c),
                None => res == Err::<TradeMsgCode, ()>(()),
            },
    {
        match value {
            0 => Ok(TradeMsgCode::Performed),
            1 => Ok(TradeMsgCode::Error),
            2 => Ok(TradeMsgCode::ErrorNull),
            3 => Ok(TradeMsgCode::ErrorUnknownValue),
            4 => Ok(TradeMsgCode::Connected),
            5 => Ok(TradeMsgCode::TradingDay),
            6 => Ok(TradeMsgCode::Disconnected),
            7 => Ok(TradeMsgCode::Authenticate),
            8 => Ok(TradeMsgCode::Login),
            9 => Ok(TradeMsgCode::Logout),
            10 => Ok(TradeMsgCode::SettlementInfo),
            11 => Ok(TradeMsgCode::SettlementInfoConfirm),
            12 => Ok(TradeMsgCode::TradingAccount),
            13 => Ok(TradeMsgCode::OrderInsertError),
            14 => Ok(TradeMsgCode::OrderInsertReturnError),
            15 => Ok(TradeMsgCode::OrderInserted),
            16 => Ok(TradeMsgCode::OrderTraded),
            17 => Ok(TradeMsgCode::QueryOrder),
            18 => Ok(TradeMsgCode::OrderDeleteError),
            19 => Ok(TradeMsgCode::OrderDeleteReturnError),
            20 => Ok(TradeMsgCode::OrderDeleted),
            21 => Ok(TradeMsgCode::QueryInstrument),
            _ => Err(()),
        }
    }

    /// The wire value of this code.
    pub fn value(&self) -> (res: i64)
        ensures
            res == trade_code_value(*self),
    {
        match self {
            TradeMsgCode::Performed => 0,
            TradeMsgCode::Error => 1,
            TradeMsgCode::ErrorNull => 2,
            TradeMsgCode::ErrorUnknownValue => 3,
            TradeMsgCode::Connected => 4,
            TradeMsgCode::TradingDay => 5,
            TradeMsgCode::Disconnected => 6,
            TradeMsgCode::Authenticate => 7,
            TradeMsgCode::Login => 8,
            TradeMsgCode::Logout => 9,
            TradeMsgCode::SettlementInfo => 10,
            TradeMsgCode::SettlementInfoConfirm => 11,
            TradeMsgCode::TradingAccount => 12,
            TradeMsgCode::OrderInsertError => 13,
            TradeMsgCode::OrderInsertReturnError => 14,
            TradeMsgCode::OrderInserted => 15,
            TradeMsgCode::OrderTraded => 16,
            TradeMsgCode::QueryOrder => 17,
            TradeMsgCode::OrderDeleteError => 18,
            TradeMsgCode::OrderDeleteReturnError => 19,
            TradeMsgCode::OrderDeleted => 20,
            TradeMsgCode::QueryInstrument => 21,
        }
    }
}

/// Decoding a market-data code's wire value gives the code back.
pub proof fn lemma_md_code_roundtrip(c: MdMsgCode)
    ensures
        md_code_from_value(md_code_value(c)) == Some(c),
{
}

/// A market-data wire value that decodes encodes back to itself, and exactly
/// the values `0..=10` decode.
pub proof fn lemma_md_value_roundtrip(v: int)
    ensures
        md_code_from_value(v) is Some <==> 0 <= v <= 10,
        md_code_from_value(v) matches Some(c) ==> md_code_value(c) == v,
{
}

/// Decoding a trade code's wire value gives the code back.
pub proof fn lemma_trade_code_roundtrip(c: TradeMsgCode)
    ensures
        trade_code_from_value(trade_code_value(c)) == Some(c),
{
}

/// A trade wire value that decodes encodes back to itself, and exactly the
/// values `0..=21` decode.
pub proof fn lemma_trade_value_roundtrip(v: int)
    ensures
        trade_code_from_value(v) is Some <==> 0 <= v <= 21,
        trade_code_from_value(v) matches Some(c) ==> trade_code_value(c) == v,
{
}

/// The name of a market-data message code, in snake case.
pub open spec fn md_code_name(c: MdMsgCode) -> Seq<char> {
    match c {
        MdMsgCode::Performed => "performed"@,
        MdMsgCode::Error => "error"@,
        MdMsgCode::Connected => "connected"@,
        MdMsgCode::Disconnected => "disconnected"@,
        MdMsgCode::HeartbeatTimeout => "heartbeat_timeout"@,
        MdMsgCode::Login => "login"@,
        MdMsgCode::Logout => "logout"@,
        MdMsgCode::TradingDay => "trading_day"@,
        MdMsgCode::Subscribe => "subscribe"@,
        MdMsgCode::Unsubscribe => "unsubscribe"@,
        MdMsgCode::MarketData => "market_data"@,
    }
}

/// The name of a trade message code, in snake case.
pub open spec fn trade_code_name(c: TradeMsgCode) -> Seq<char> {
    match c {
        TradeMsgCode::Performed => "performed"@,
        TradeMsgCode::Error => "error"@,
        TradeMsgCode::ErrorNull => "error_null"@,
        TradeMsgCode::ErrorUnknownValue => "error_unknown_value"@,
        TradeMsgCode::Connected => "connected"@,
        TradeMsgCode::TradingDay => "trading_day"@,
        TradeMsgCode::Disconnected => "disconnected"@,
        TradeMsgCode::Authenticate => "authenticate"@,
        TradeMsgCode::Login => "login"@,
        TradeMsgCode::Logout => "logout"@,
        TradeMsgCode::SettlementInfo => "settlement_info"@,
        TradeMsgCode::SettlementInfoConfirm => "settlement_info_confirm"@,
        TradeMsgCode::TradingAccount => "trading_account"@,
        TradeMsgCode::OrderInsertError => "order_insert_error"@,
        TradeMsgCode::OrderInsertReturnError => "order_insert_return_error"@,
        TradeMsgCode::OrderInserted => "order_inserted"@,
        TradeMsgCode::OrderTraded => "order_traded"@,
        TradeMsgCode::QueryOrder => "query_order"@,
        TradeMsgCode::OrderDeleteError => "order_delete_error"@,
        TradeMsgCode::OrderDeleteReturnError => "order_delete_return_error"@,
        TradeMsgCode::OrderDeleted => "order_deleted"@,
        TradeMsgCode::QueryInstrument => "query_instrument"@,
    }
}

} // verus!
