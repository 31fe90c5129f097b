//! The trade front of a WebCTP gateway: the requests a client sends and the
//! classification of the messages it receives.
use vstd::prelude::*;

use crate::text::{decimal, decimal_string};
use super::codes::{TradeMsgCode, trade_code_from_value, trade_code_name, trade_code_value};
use super::market_data::{MsgClass, MsgClassView, MsgTag, classify_view, is_error_tag, non_integer_code_msg, text_tag_kind};
use super::request::{
    ClientError, FieldValue, FieldView, Fields, OpRequest, OpRequestView, opt_view, push_opt_spec, result_view,
    send_op, send_result,
};

verus! {

/// A trade client: the broker and investor it trades for and whether its
/// socket to the gateway is open.
pub struct TradeClient {
    broker_id: String,
    investor_id: String,
    connected: bool,
}

/// The mathematical value of a [`TradeClient`].
pub struct TradeClientView {
    pub broker_id: Seq<char>,
    pub investor_id: Seq<char>,
    pub connected: bool,
}

impl View for TradeClient {
    type V = TradeClientView;

    closed spec fn view(&self) -> TradeClientView {
        TradeClientView { broker_id: self.broker_id@, investor_id: self.investor_id@, connected: self.connected }
    }
}

/// `old` with `new` in its place when `new` is present.
pub open spec fn replaced(old: Seq<char>, new: Option<Seq<char>>) -> Seq<char> {
    match new {
        Some(n) => n,
        None => old,
    }
}

/// The `connect` request of a trade client.
pub open spec fn trade_connect_front_request(c: TradeClientView, op_ref: Seq<char>, addr: Seq<char>, port: u16) -> Result<OpRequestView, ClientError> {
    send_result(
        c.connected,
        "connect"@,
        seq![
            ("op_ref"@, FieldView::Str(op_ref)),
            ("addr"@, FieldView::Str(addr)),
            ("port"@, FieldView::Str(decimal(port as nat))),
        ],
    )
}

/// The `set` request of a trade client: the ids that are given.
pub open spec fn trade_set_request(
    c: TradeClientView,
    op_ref: Seq<char>,
    broker_id: Option<Seq<char>>,
    investor_id: Option<Seq<char>>,
) -> Result<OpRequestView, ClientError> {
    send_result(
        c.connected,
        "set"@,
        push_opt_spec(
            push_opt_spec(seq![("op_ref"@, FieldView::Str(op_ref))], "broker_id"@, broker_id),
            "investor_id"@,
            investor_id,
        ),
    )
}

/// A trade request `op` whose data is only the `op_ref`.
pub open spec fn trade_op_ref_request(c: TradeClientView, op: Seq<char>, op_ref: Seq<char>) -> Result<OpRequestView, ClientError> {
    send_result(c.connected, op, seq![("op_ref"@, FieldView::Str(op_ref))])
}

/// The `auth` request of a trade client.
pub open spec fn trade_auth_request(
    c: TradeClientView,
    op_ref: Seq<char>,
    user_id: Seq<char>,
    app_id: Seq<char>,
    auth_code: Seq<char>,
) -> Result<OpRequestView, ClientError> {
    send_result(
        c.connected,
        "auth"@,
        seq![
            ("op_ref"@, FieldView::Str(op_ref)),
            ("user_id"@, FieldView::Str(user_id)),
            ("app_id"@, FieldView::Str(app_id)),
            ("auth_code"@, FieldView::Str(auth_code)),
        ],
    )
}

/// The `login` request of a trade client.
pub open spec fn trade_login_request(c: TradeClientView, op_ref: Seq<char>, user_id: Seq<char>, password: Seq<char>) -> Result<OpRequestView, ClientError> {
    send_result(
        c.connected,
        "login"@,
        seq![
            ("op_ref"@, FieldView::Str(op_ref)),
            ("user_id"@, FieldView::Str(user_id)),
            ("password"@, FieldView::Str(password)),
        ],
    )
}

/// The `logout` request of a trade client.
pub open spec fn trade_logout_request(c: TradeClientView, op_ref: Seq<char>, user_id: Seq<char>) -> Result<OpRequestView, ClientError> {
    send_result(c.connected, "logout"@, seq![("op_ref"@, FieldView::Str(op_ref)), ("user_id"@, FieldView::Str(user_id))])
}

/// The `query_settlement_info` request of a trade client.
pub open spec fn trade_query_settlement_info_request(c: TradeClientView, op_ref: Seq<char>, trading_day: Seq<char>) -> Result<OpRequestView, ClientError> {
    send_result(
        c.connected,
        "query_settlement_info"@,
        seq![("op_ref"@, FieldView::Str(op_ref)), ("trading_day"@, FieldView::Str(trading_day))],
    )
}

/// The `insert_order` request of a trade client: its fields in the order of
/// the parameters, the reference under `ref`.
pub open spec fn trade_insert_order_request(
    c: TradeClientView,
    op_ref: Seq<char>,
    instrument: Seq<char>,
    exchange: Seq<char>,
    reference: Seq<char>,
    price_bits: u64,
    direction: int,
    offset: int,
    volume: int,
    price_type: int,
    time_condition: int,
) -> Result<OpRequestView, ClientError> {
    send_result(
        c.connected,
        "insert_order"@,
        seq![
            ("op_ref"@, FieldView::Str(op_ref)),
            ("instrument"@, FieldView::Str(instrument)),
            ("exchange"@, FieldView::Str(exchange)),
            ("ref"@, FieldView::Str(reference)),
            ("price"@, FieldView::Float(price_bits)),
            ("direction"@, FieldView::Int(direction)),
            ("offset"@, FieldView::Int(offset)),
            ("volume"@, FieldView::Int(volume)),
            ("price_type"@, FieldView::Int(price_type)),
            ("time_condition"@, FieldView::Int(time_condition)),
        ],
    )
}

/// The `query_order` request of a trade client: the filters that are given.
pub open spec fn trade_query_order_request(
    c: TradeClientView,
    op_ref: Seq<char>,
    order_sys_id: Option<Seq<char>>,
    exchange_id: Option<Seq<char>>,
    from: Option<Seq<char>>,
    to: Option<Seq<char>>,
) -> Result<OpRequestView, ClientError> {
    send_result(
        c.connected,
        "query_order"@,
        push_opt_spec(
            push_opt_spec(
                push_opt_spec(push_opt_spec(seq![("op_ref"@, FieldView::Str(op_ref))], "order_sys_id"@, order_sys_id), "exchange_id"@, exchange_id),
                "from"@,
                from,
            ),
            "to"@,
            to,
        ),
    )
}

/// The `delete_order` request of a trade client.
pub open spec fn trade_delete_order_request(
    c: TradeClientView,
    op_ref: Seq<char>,
    exchange: Seq<char>,
    instrument: Seq<char>,
    delete_ref: int,
    order_sys_id: Seq<char>,
) -> Result<OpRequestView, ClientError> {
    send_result(
        c.connected,
        "delete_order"@,
        seq![
            ("op_ref"@, FieldView::Str(op_ref)),
            ("exchange"@, FieldView::Str(exchange)),
            ("instrument"@, FieldView::Str(instrument)),
            ("delete_ref"@, FieldView::Int(delete_ref)),
            ("order_sys_id"@, FieldView::Str(order_sys_id)),
        ],
    )
}

/// The `query_instrument` request of a trade client: the filters that are
/// given.
pub open spec fn trade_query_instrument_request(
    c: TradeClientView,
    op_ref: Seq<char>,
    exchange: Option<Seq<char>>,
    instrument: Option<Seq<char>>,
    exchange_inst_id: Option<Seq<char>>,
    product_id: Option<Seq<char>>,
) -> Result<OpRequestView, ClientError> {
    send_result(
        c.connected,
        "query_instrument"@,
        push_opt_spec(
            push_opt_spec(
                push_opt_spec(push_opt_spec(seq![("op_ref"@, FieldView::Str(op_ref))], "exchange"@, exchange), "instrument"@, instrument),
                "exchange_inst_id"@,
                exchange_inst_id,
            ),
            "product_id"@,
            product_id,
        ),
    )
}

impl TradeClient {
    /// A client for the given broker and investor, not yet connected.
    pub fn new(broker_id: String, investor_id: String) -> (res: TradeClient)
        ensures
            res@ == (TradeClientView { broker_id: broker_id@, investor_id: investor_id@, connected: false }),
    {
        TradeClient { broker_id, investor_id, connected: false }
    }

    /// Records that the socket to the gateway has been opened.
    pub fn mark_connected(&mut self)
        ensures
            final(self)@ == (TradeClientView { connected: true, ..old(self)@ }),
    {
        self.connected = true;
    }

    /// Whether the socket to the gateway is open.
    pub fn is_connected(&self) -> (res: bool)
        ensures
            res == self@.connected,
    {
        self.connected
    }

    /// The broker the client trades for.
    pub fn broker_id(&self) -> (res: &String)
        ensures
            res@ == self@.broker_id,
    {
        &self.broker_id
    }

    /// The investor the client trades for.
    pub fn investor_id(&self) -> (res: &String)
        ensures
            res@ == self@.investor_id,
    {
        &self.investor_id
    }

    /// Asks the gateway to connect to a CTP front.
    pub fn connect_front(&self, op_ref: &str, addr: &str, port: u16) -> (res: Result<OpRequest, ClientError>)
        ensures
            result_view(res) == trade_connect_front_request(self@, op_ref@, addr@, port),
    {
        let mut data = Fields::new();
        data.push_str("op_ref", op_ref);
        data.push_str("addr", addr);
        data.push("port", FieldValue::Str(decimal_string(port as u64)));
        assert(data@ =~= seq![
            ("op_ref"@, FieldView::Str(op_ref@)),
            ("addr"@, FieldView::Str(addr@)),
            ("port"@, FieldView::Str(decimal(port as nat))),
        ]);
        send_op(self.connected, "connect", data)
    }

    /// Replaces the broker and the investor that are given (also when no
    /// socket is open), and tells the gateway of them: `set` with the given
    /// ones only.
    pub fn set(&mut self, op_ref: &str, broker_id: Option<String>, investor_id: Option<String>) -> (res: Result<OpRequest, ClientError>)
        ensures
            final(self)@ == (TradeClientView {
                broker_id: replaced(old(self)@.broker_id, opt_view(broker_id)),
                investor_id: replaced(old(self)@.investor_id, opt_view(investor_id)),
                connected: old(self)@.connected,
            }),
            result_view(res) == trade_set_request(old(self)@, op_ref@, opt_view(broker_id), opt_view(investor_id)),
    {
        match &broker_id {
            Some(b) => {
                self.broker_id = b.clone();
            },
            None => {},
        }
        match &investor_id {
            Some(i) => {
                self.investor_id = i.clone();
            },
            None => {},
        }
        let mut data = Fields::new();
        data.push_str("op_ref", op_ref);
        data.push_opt("broker_id", broker_id);
        data.push_opt("investor_id", investor_id);
        send_op(self.connected, "set", data)
    }

    /// Asks for the current trading day.
    pub fn get_trading_day(&self, op_ref: &str) -> (res: Result<OpRequest, ClientError>)
        ensures
            result_view(res) == trade_op_ref_request(self@, "get_trading_day"@, op_ref@),
    {
        let mut data = Fields::new();
        data.push_str("op_ref", op_ref);
        send_op(self.connected, "get_trading_day", data)
    }

    /// Authenticates the client application.
    pub fn auth(&self, op_ref: &str, user_id: &str, app_id: &str, auth_code: &str) -> (res: Result<OpRequest, ClientError>)
        ensures
            result_view(res) == trade_auth_request(self@, op_ref@, user_id@, app_id@, auth_code@),
    {
        let mut data = Fields::new();
        data.push_str("op_ref", op_ref);
        data.push_str("user_id", user_id);
        data.push_str("app_id", app_id);
        data.push_str("auth_code", auth_code);
        assert(data@ =~= seq![
            ("op_ref"@, FieldView::Str(op_ref@)),
            ("user_id"@, FieldView::Str(user_id@)),
            ("app_id"@, FieldView::Str(app_id@)),
            ("auth_code"@, FieldView::Str(auth_code@)),
        ]);
        send_op(self.connected, "auth", data)
    }

    /// Logs a user in.
    pub fn login(&self, op_ref: &str, user_id: &str, password: &str) -> (res: Result<OpRequest, ClientError>)
        ensures
            result_view(res) == trade_login_request(self@, op_ref@, user_id@, password@),
    {
        let mut data = Fields::new();
        data.push_str("op_ref", op_ref);
        data.push_str("user_id", user_id);
        data.push_str("password", password);
        assert(data@ =~= seq![
            ("op_ref"@, FieldView::Str(op_ref@)),
            ("user_id"@, FieldView::Str(user_id@)),
            ("password"@, FieldView::Str(password@)),
        ]);
        send_op(self.connected, "login", data)
    }

    /// Logs a user out.
    pub fn logout(&self, op_ref: &str, user_id: &str) -> (res: Result<OpRequest, ClientError>)
        ensures
            result_view(res) == trade_logout_request(self@, op_ref@, user_id@),
    {
        let mut data = Fields::new();
        data.push_str("op_ref", op_ref);
        data.push_str("user_id", user_id);
        assert(data@ =~= seq![("op_ref"@, FieldView::Str(op_ref@)), ("user_id"@, FieldView::Str(user_id@))]);
        send_op(self.connected, "logout", data)
    }

    /// Asks for the settlement information of a trading day.
    pub fn query_settlement_info(&self, op_ref: &str, trading_day: &str) -> (res: Result<OpRequest, ClientError>)
        ensures
            result_view(res) == trade_query_settlement_info_request(self@, op_ref@, trading_day@),
    {
        let mut data = Fields::new();
        data.push_str("op_ref", op_ref);
        data.push_str("trading_day", trading_day);
        assert(data@ =~= seq![("op_ref"@, FieldView::Str(op_ref@)), ("trading_day"@, FieldView::Str(trading_day@))]);
        send_op(self.connected, "query_settlement_info", data)
    }

    /// Confirms the settlement information.
    pub fn confirm_settlement_info(&self, op_ref: &str) -> (res: Result<OpRequest, ClientError>)
        ensures
            result_view(res) == trade_op_ref_request(self@, "confirm_settlement_info"@, op_ref@),
    {
        let mut data = Fields::new();
        data.push_str("op_ref", op_ref);
        send_op(self.connected, "confirm_settlement_info", data)
    }

    /// Asks for the trading account.
    pub fn query_trading_account(&self, op_ref: &str) -> (res: Result<OpRequest, ClientError>)
        ensures
            result_view(res) == trade_op_ref_request(self@, "query_trading_account"@, op_ref@),
    {
        let mut data = Fields::new();
        data.push_str("op_ref", op_ref);
        send_op(self.connected, "query_trading_account", data)
    }

    /// Places an order. The price is passed through by its IEEE-754 bit
    /// pattern; the order reference is sent under the key `ref`.
    pub fn insert_order(
        &self,
        op_ref: &str,
        instrument: &str,
        exchange: &str,
        reference: &str,
        price_bits: u64,
        direction: i64,
        offset: i64,
        volume: i64,
        price_type: i64,
        time_condition: i64,
    ) -> (res: Result<OpRequest, ClientError>)
        ensures
            result_view(res) == trade_insert_order_request(self@, op_ref@, instrument@, exchange@, reference@, price_bits, direction as int, offset as int, volume as int, price_type as int, time_condition as int),
    {
        let mut data = Fields::new();
        data.push_str("op_ref", op_ref);
        data.push_str("instrument", instrument);
        data.push_str("exchange", exchange);
        data.push_str("ref", reference);
        data.push("price", FieldValue::Float(price_bits));
        data.push("direction", FieldValue::Int(direction));
        data.push("offset", FieldValue::Int(offset));
        data.push("volume", FieldValue::Int(volume));
        data.push("price_type", FieldValue::Int(price_type));
        data.push("time_condition", FieldValue::Int(time_condition));
        assert(data@ =~= seq![
            ("op_ref"@, FieldView::Str(op_ref@)),
            ("instrument"@, FieldView::Str(instrument@)),
            ("exchange"@, FieldView::Str(exchange@)),
            ("ref"@, FieldView::Str(reference@)),
            ("price"@, FieldView::Float(price_bits)),
            ("direction"@, FieldView::Int(direction as int)),
            ("offset"@, FieldView::Int(offset as int)),
            ("volume"@, FieldView::Int(volume as int)),
            ("price_type"@, FieldView::Int(price_type as int)),
            ("time_condition"@, FieldView::Int(time_condition as int)),
        ]);
        send_op(self.connected, "insert_order", data)
    }

    /// Queries orders, filtered by the criteria that are given.
    pub fn query_order(
        &self,
        op_ref: &str,
        order_sys_id: Option<String>,
        exchange_id: Option<String>,
        from: Option<String>,
        to: Option<String>,
    ) -> (res: Result<OpRequest, ClientError>)
        ensures
            result_view(res) == trade_query_order_request(self@, op_ref@, opt_view(order_sys_id), opt_view(exchange_id), opt_view(from), opt_view(to)),
    {
        let mut data = Fields::new();
        data.push_str("op_ref", op_ref);
        data.push_opt("order_sys_id", order_sys_id);
        data.push_opt("exchange_id", exchange_id);
        data.push_opt("from", from);
        data.push_opt("to", to);
        send_op(self.connected, "query_order", data)
    }

    /// Cancels an order.
    pub fn delete_order(&self, op_ref: &str, exchange: &str, instrument: &str, delete_ref: i64, order_sys_id: &str) -> (res: Result<OpRequest, ClientError>)
        ensures
            result_view(res) == trade_delete_order_request(self@, op_ref@, exchange@, instrument@, delete_ref as int, order_sys_id@),
    {
        let mut data = Fields::new();
        data.push_str("op_ref", op_ref);
        data.push_str("exchange", exchange);
        data.push_str("instrument", instrument);
        data.push("delete_ref", FieldValue::Int(delete_ref));
        data.push_str("order_sys_id", order_sys_id);
        assert(data@ =~= seq![
            ("op_ref"@, FieldView::Str(op_ref@)),
            ("exchange"@, FieldView::Str(exchange@)),
            ("instrument"@, FieldView::Str(instrument@)),
            ("delete_ref"@, FieldView::Int(delete_ref as int)),
            ("order_sys_id"@, FieldView::Str(order_sys_id@)),
        ]);
        send_op(self.connected, "delete_order", data)
    }

    /// Queries instruments, filtered by the criteria that are given.
    pub fn query_instrument(
        &self,
        op_ref: &str,
        exchange: Option<String>,
        instrument: Option<String>,
        exchange_inst_id: Option<String>,
        product_id: Option<String>,
    ) -> (res: Result<OpRequest, ClientError>)
        ensures
            result_view(res) == trade_query_instrument_request(self@, op_ref@, opt_view(exchange), opt_view(instrument), opt_view(exchange_inst_id), opt_view(product_id)),
    {
        let mut data = Fields::new();
        data.push_str("op_ref", op_ref);
        data.push_opt("exchange", exchange);
        data.push_opt("instrument", instrument);
        data.push_opt("exchange_inst_id", exchange_inst_id);
        data.push_opt("product_id", product_id);
        send_op(self.connected, "query_instrument", data)
    }

    /// Closes the client: afterwards it is not connected. The result says
    /// whether a socket was open, to which a close frame is then owed.
    pub fn disconnect(&mut self) -> (send_close: bool)
        ensures
            send_close == old(self)@.connected,
            final(self)@ == (TradeClientView { connected: false, ..old(self)@ }),
    {
        let was = self.connected;
        self.connected = false;
        was
    }

    /// Records that the close frame owed by [`Self::disconnect`] could not be
    /// written: the socket stays open, so the client is connected again.
    pub fn close_failed(&mut self)
        ensures
            final(self)@ == (TradeClientView { connected: true, ..old(self)@ }),
    {
        self.connected = true;
    }
}

/// The kinds of event that the trade front reports.
#[derive(Debug, Clone, Copy, PartialEq, Eq, Structural)]
pub enum TradeEventKind {
    Ready,
    Performed,
    Error,
    ErrorNull,
    ErrorUnknownValue,
    FrontConnected,
    TradingDay,
    FrontDisconnected,
    Authenticate,
    Login,
    Logout,
    SettlementInfo,
    SettlementInfoConfirm,
    TradingAccount,
    OrderInsertReturnError,
    OrderInsertError,
    OrderInserted,
    OrderTraded,
    QueryOrder,
    QueryInstrument,
    OrderDeleteReturnError,
    OrderDeleteError,
    OrderDeleted,
    Unknown,
}

/// The event kind of a trade message code.
pub open spec fn trade_kind_of_code(c: TradeMsgCode) -> TradeEventKind {
    match c {
        TradeMsgCode::Performed => TradeEventKind::Performed,
        TradeMsgCode::Error => TradeEventKind::Error,
        TradeMsgCode::ErrorNull => TradeEventKind::ErrorNull,
        TradeMsgCode::ErrorUnknownValue => TradeEventKind::ErrorUnknownValue,
        TradeMsgCode::Connected => TradeEventKind::FrontConnected,
        TradeMsgCode::TradingDay => TradeEventKind::TradingDay,
        TradeMsgCode::Disconnected => TradeEventKind::FrontDisconnected,
        TradeMsgCode::Authenticate => TradeEventKind::Authenticate,
        TradeMsgCode::Login => TradeEventKind::Login,
        TradeMsgCode::Logout => TradeEventKind::Logout,
        TradeMsgCode::SettlementInfo => TradeEventKind::SettlementInfo,
        TradeMsgCode::SettlementInfoConfirm => TradeEventKind::SettlementInfoConfirm,
        TradeMsgCode::TradingAccount => TradeEventKind::TradingAccount,
        TradeMsgCode::OrderInsertError => TradeEventKind::OrderInsertError,
        TradeMsgCode::OrderInsertReturnError => TradeEventKind::OrderInsertReturnError,
        TradeMsgCode::OrderInserted => TradeEventKind::OrderInserted,
        TradeMsgCode::OrderTraded => TradeEventKind::OrderTraded,
        TradeMsgCode::QueryOrder => TradeEventKind::QueryOrder,
        TradeMsgCode::OrderDeleteError => TradeEventKind::OrderDeleteError,
        TradeMsgCode::OrderDeleteReturnError => TradeEventKind::OrderDeleteReturnError,
        TradeMsgCode::OrderDeleted => TradeEventKind::OrderDeleted,
        TradeMsgCode::QueryInstrument => TradeEventKind::QueryInstrument,
    }
}

/// How the trade front's message with tag `tag` is classified.
pub open spec fn trade_classify(tag: MsgTag) -> Result<MsgClassView<TradeEventKind>, Seq<char>> {
    match tag {
        MsgTag::Text(s) => if s@ == "ready"@ {
            Ok(MsgClassView::Known(TradeEventKind::Ready))
        } else if is_error_tag(s@) {
            Ok(MsgClassView::Known(TradeEventKind::Error))
        } else {
            Ok(MsgClassView::UnknownText(s@))
        },
        MsgTag::Integer(v) => match trade_code_from_value(v as int) {
            Some(c) => Ok(MsgClassView::Known(trade_kind_of_code(c))),
            None => Ok(MsgClassView::UnknownCode(v as int)),
        },
        MsgTag::NonInteger => Err(non_integer_code_msg()),
        MsgTag::Other => Ok(MsgClassView::UnknownOther),
    }
}

/// The event kind of a decoded trade message code.
pub fn trade_kind(c: TradeMsgCode) -> (res: TradeEventKind)
    ensures
        res == trade_kind_of_code(c),
{
    match c {
        TradeMsgCode::Performed => TradeEventKind::Performed,
        TradeMsgCode::Error => TradeEventKind::Error,
        TradeMsgCode::ErrorNull => TradeEventKind::ErrorNull,
        TradeMsgCode::ErrorUnknownValue => TradeEventKind::ErrorUnknownValue,
        TradeMsgCode::Connected => TradeEventKind::FrontConnected,
        TradeMsgCode::TradingDay => TradeEventKind::TradingDay,
        TradeMsgCode::Disconnected => TradeEventKind::FrontDisconnected,
        TradeMsgCode::Authenticate => TradeEventKind::Authenticate,
        TradeMsgCode::Login => TradeEventKind::Login,
        TradeMsgCode::Logout => TradeEventKind::Logout,
        TradeMsgCode::SettlementInfo => TradeEventKind::SettlementInfo,
        TradeMsgCode::SettlementInfoConfirm => TradeEventKind::SettlementInfoConfirm,
        TradeMsgCode::TradingAccount => TradeEventKind::TradingAccount,
        TradeMsgCode::OrderInsertError => TradeEventKind::OrderInsertError,
        TradeMsgCode::OrderInsertReturnError => TradeEventKind::OrderInsertReturnError,
        TradeMsgCode::OrderInserted => TradeEventKind::OrderInserted,
        TradeMsgCode::OrderTraded => TradeEventKind::OrderTraded,
        TradeMsgCode::QueryOrder => TradeEventKind::QueryOrder,
        TradeMsgCode::OrderDeleteError => TradeEventKind::OrderDeleteError,
        TradeMsgCode::OrderDeleteReturnError => TradeEventKind::OrderDeleteReturnError,
        TradeMsgCode::OrderDeleted => TradeEventKind::OrderDeleted,
        TradeMsgCode::QueryInstrument => TradeEventKind::QueryInstrument,
    }
}

/// Classifies a message of the trade front by its `msg` tag: the strings
/// `ready` and `parse_error`/`processing_error`/`error`, and the numeric codes
/// of [`TradeMsgCode`]; any other string or code is unknown, and a number that
/// is not an integer is a protocol error.
pub fn parse_trade(tag: MsgTag) -> (res: Result<MsgClass<TradeEventKind>, ClientError>)
    ensures
        classify_view(res) == trade_classify(tag),
{
    match tag {
        MsgTag::Text(s) => {
            let (ready, error) = text_tag_kind(&s);
            if ready {
                Ok(MsgClass::Known(TradeEventKind::Ready))
            } else if error {
                Ok(MsgClass::Known(TradeEventKind::Error))
            } else {
                Ok(MsgClass::UnknownText(s))
            }
        },
        MsgTag::Integer(v) => match TradeMsgCode::try_from(v) {
            Ok(c) => Ok(MsgClass::Known(trade_kind(c))),
            Err(_) => Ok(MsgClass::UnknownCode(v)),
        },
        MsgTag::NonInteger => Err(ClientError::Protocol(String::from_str("non-integer msg code"))),
        MsgTag::Other => Ok(MsgClass::UnknownOther),
    }
}

/// The event name under which a trade event is reported to clients.
pub open spec fn trade_event_name(k: TradeEventKind) -> Seq<char> {
    match k {
        TradeEventKind::Ready => "ready"@,
        TradeEventKind::Performed => "performed"@,
        TradeEventKind::Error => "error"@,
        TradeEventKind::ErrorNull => "error_null"@,
        TradeEventKind::ErrorUnknownValue => "error_unknown_value"@,
        TradeEventKind::FrontConnected => "front_connected"@,
        TradeEventKind::TradingDay => "trading_day"@,
        TradeEventKind::FrontDisconnected => "front_disconnected"@,
        TradeEventKind::Authenticate => "authenticate"@,
        TradeEventKind::Login => "login"@,
        TradeEventKind::Logout => "logout"@,
        TradeEventKind::SettlementInfo => "settlement_info"@,
        TradeEventKind::SettlementInfoConfirm => "settlement_info_confirm"@,
        TradeEventKind::TradingAccount => "trading_account"@,
        TradeEventKind::OrderInsertReturnError => "order_insert_return_error"@,
        TradeEventKind::OrderInsertError => "order_insert_error"@,
        TradeEventKind::OrderInserted => "order_inserted"@,
        TradeEventKind::OrderTraded => "order_traded"@,
        TradeEventKind::QueryOrder => "query_order"@,
        TradeEventKind::QueryInstrument => "query_instrument"@,
        TradeEventKind::OrderDeleteReturnError => "order_delete_return_error"@,
        TradeEventKind::OrderDeleteError => "order_delete_error"@,
        TradeEventKind::OrderDeleted => "order_deleted"@,
        TradeEventKind::Unknown => "unknown"@,
    }
}

impl TradeEventKind {
    /// The event name under which this event is reported to clients.
    pub fn event_name(&self) -> (res: &'static str)
        ensures
            res@ == trade_event_name(*self),
    {
        match self {
            TradeEventKind::Ready => "ready",
            TradeEventKind::Performed => "performed",
            TradeEventKind::Error => "error",
            TradeEventKind::ErrorNull => "error_null",
            TradeEventKind::ErrorUnknownValue => "error_unknown_value",
            TradeEventKind::FrontConnected => "front_connected",
            TradeEventKind::TradingDay => "trading_day",
            TradeEventKind::FrontDisconnected => "front_disconnected",
            TradeEventKind::Authenticate => "authenticate",
            TradeEventKind::Login => "login",
            TradeEventKind::Logout => "logout",
            TradeEventKind::SettlementInfo => "settlement_info",
            TradeEventKind::SettlementInfoConfirm => "settlement_info_confirm",
            TradeEventKind::TradingAccount => "trading_account",
            TradeEventKind::OrderInsertReturnError => "order_insert_return_error",
            TradeEventKind::OrderInsertError => "order_insert_error",
            TradeEventKind::OrderInserted => "order_inserted",
            TradeEventKind::OrderTraded => "order_traded",
            TradeEventKind::QueryOrder => "query_order",
            TradeEventKind::QueryInstrument => "query_instrument",
            TradeEventKind::OrderDeleteReturnError => "order_delete_return_error",
            TradeEventKind::OrderDeleteError => "order_delete_error",
            TradeEventKind::OrderDeleted => "order_deleted",
            TradeEventKind::Unknown => "unknown",
        }
    }
}

/// An integer tag is a known trade event exactly when it is a trade message
/// code, and the code's kind is never `Unknown`.
pub proof fn lemma_trade_integer_tags(v: i64)
    ensures
        (trade_classify(MsgTag::Integer(v)) matches Ok(MsgClassView::Known(k))) <==> 0 <= v <= 21,
        trade_classify(MsgTag::Integer(v)) matches Ok(MsgClassView::Known(k)) ==> k != TradeEventKind::Unknown,
        !(0 <= v <= 21) ==> trade_classify(MsgTag::Integer(v)) == Ok::<MsgClassView<TradeEventKind>, Seq<char>>(MsgClassView::UnknownCode(v as int)),
{
}

/// A disconnect whose close frame could not be written leaves a connected
/// client as it was; one whose close frame was written, or that had no socket,
/// leaves it not connected.
pub proof fn lemma_trade_failed_close_restores(c: TradeClientView)
    requires
        c.connected,
    ensures
        (TradeClientView { connected: true, ..(TradeClientView { connected: false, ..c }) }) == c,
{
}

/// The event name a trade code is relayed under: the code's own name, with
/// `front_` before the front's connection notices.
pub open spec fn trade_relayed_name(c: TradeMsgCode) -> Seq<char> {
    if c == TradeMsgCode::Connected || c == TradeMsgCode::Disconnected {
        "front_"@ + trade_code_name(c)
    } else {
        trade_code_name(c)
    }
}

/// Each trade code becomes the event of its own name, and distinct codes
/// become distinct events.
pub proof fn lemma_trade_kinds_follow_codes(c: TradeMsgCode, d: TradeMsgCode)
    ensures
        trade_event_name(trade_kind_of_code(c)) == trade_relayed_name(c),
        trade_kind_of_code(c) == trade_kind_of_code(d) ==> c == d,
        trade_kind_of_code(c) != TradeEventKind::Unknown,
{
    reveal_strlit("front_");
    reveal_strlit("connected");
    reveal_strlit("disconnected");
    reveal_strlit("front_connected");
    reveal_strlit("front_disconnected");
    if c == TradeMsgCode::Connected {
        assert("front_"@ + "connected"@ =~= "front_connected"@);
    }
    if c == TradeMsgCode::Disconnected {
        assert("front_"@ + "disconnected"@ =~= "front_disconnected"@);
    }
}

/// A trade message whose tag is a code's wire value is classified as the
/// event of that code's name.
pub proof fn lemma_trade_integer_tag_names(c: TradeMsgCode)
    ensures
        trade_classify(MsgTag::Integer(trade_code_value(c) as i64)) matches Ok(MsgClassView::Known(k))
            && trade_event_name(k) == trade_relayed_name(c),
{
    lemma_trade_kinds_follow_codes(c, c);
}

/// A connected trade client's requests carry each argument under its own
/// key, in the order of the parameters (only the given optional ones).
pub proof fn lemma_trade_requests_carry_their_arguments(
    c: TradeClientView,
    op_ref: Seq<char>,
    a: Seq<char>,
    b: Seq<char>,
    d: Seq<char>,
    e: Seq<char>,
    port: u16,
    n: int,
)
    requires
        c.connected,
    ensures
        trade_connect_front_request(c, op_ref, a, port) == Ok::<OpRequestView, ClientError>(OpRequestView { op: "connect"@, data: seq![("op_ref"@, FieldView::Str(op_ref)), ("addr"@, FieldView::Str(a)), ("port"@, FieldView::Str(decimal(port as nat)))] }),
        trade_op_ref_request(c, a, op_ref) == Ok::<OpRequestView, ClientError>(OpRequestView { op: a, data: seq![("op_ref"@, FieldView::Str(op_ref))] }),
        trade_auth_request(c, op_ref, a, b, d) == Ok::<OpRequestView, ClientError>(OpRequestView { op: "auth"@, data: seq![("op_ref"@, FieldView::Str(op_ref)), ("user_id"@, FieldView::Str(a)), ("app_id"@, FieldView::Str(b)), ("auth_code"@, FieldView::Str(d))] }),
        trade_login_request(c, op_ref, a, b) == Ok::<OpRequestView, ClientError>(OpRequestView { op: "login"@, data: seq![("op_ref"@, FieldView::Str(op_ref)), ("user_id"@, FieldView::Str(a)), ("password"@, FieldView::Str(b))] }),
        trade_logout_request(c, op_ref, a) == Ok::<OpRequestView, ClientError>(OpRequestView { op: "logout"@, data: seq![("op_ref"@, FieldView::Str(op_ref)), ("user_id"@, FieldView::Str(a))] }),
        trade_query_settlement_info_request(c, op_ref, a) == Ok::<OpRequestView, ClientError>(OpRequestView { op: "query_settlement_info"@, data: seq![("op_ref"@, FieldView::Str(op_ref)), ("trading_day"@, FieldView::Str(a))] }),
        trade_delete_order_request(c, op_ref, a, b, n, d) == Ok::<OpRequestView, ClientError>(OpRequestView { op: "delete_order"@, data: seq![("op_ref"@, FieldView::Str(op_ref)), ("exchange"@, FieldView::Str(a)), ("instrument"@, FieldView::Str(b)), ("delete_ref"@, FieldView::Int(n)), ("order_sys_id"@, FieldView::Str(d))] }),
        trade_set_request(c, op_ref, Some(a), None) == Ok::<OpRequestView, ClientError>(OpRequestView { op: "set"@, data: seq![("op_ref"@, FieldView::Str(op_ref)), ("broker_id"@, FieldView::Str(a))] }),
        trade_set_request(c, op_ref, None, Some(b)) == Ok::<OpRequestView, ClientError>(OpRequestView { op: "set"@, data: seq![("op_ref"@, FieldView::Str(op_ref)), ("investor_id"@, FieldView::Str(b))] }),
        trade_set_request(c, op_ref, Some(a), Some(b)) == Ok::<OpRequestView, ClientError>(OpRequestView { op: "set"@, data: seq![("op_ref"@, FieldView::Str(op_ref)), ("broker_id"@, FieldView::Str(a)), ("investor_id"@, FieldView::Str(b))] }),
        trade_query_order_request(c, op_ref, Some(a), Some(b), Some(d), Some(e)) == Ok::<OpRequestView, ClientError>(OpRequestView { op: "query_order"@, data: seq![("op_ref"@, FieldView::Str(op_ref)), ("order_sys_id"@, FieldView::Str(a)), ("exchange_id"@, FieldView::Str(b)), ("from"@, FieldView::Str(d)), ("to"@, FieldView::Str(e))] }),
        trade_query_order_request(c, op_ref, None, None, None, None) == Ok::<OpRequestView, ClientError>(OpRequestView { op: "query_order"@, data: seq![("op_ref"@, FieldView::Str(op_ref))] }),
        trade_query_instrument_request(c, op_ref, Some(a), Some(b), Some(d), Some(e)) == Ok::<OpRequestView, ClientError>(OpRequestView { op: "query_instrument"@, data: seq![("op_ref"@, FieldView::Str(op_ref)), ("exchange"@, FieldView::Str(a)), ("instrument"@, FieldView::Str(b)), ("exchange_inst_id"@, FieldView::Str(d)), ("product_id"@, FieldView::Str(e))] }),
        trade_query_instrument_request(c, op_ref, None, None, None, None) == Ok::<OpRequestView, ClientError>(OpRequestView { op: "query_instrument"@, data: seq![("op_ref"@, FieldView::Str(op_ref))] }),
{
    assert(push_opt_spec(push_opt_spec(seq![("op_ref"@, FieldView::Str(op_ref))], "broker_id"@, Some(a)), "investor_id"@, None)
        =~= seq![("op_ref"@, FieldView::Str(op_ref)), ("broker_id"@, FieldView::Str(a))]);
    assert(push_opt_spec(push_opt_spec(seq![("op_ref"@, FieldView::Str(op_ref))], "broker_id"@, None), "investor_id"@, Some(b))
        =~= seq![("op_ref"@, FieldView::Str(op_ref)), ("investor_id"@, FieldView::Str(b))]);
    assert(push_opt_spec(push_opt_spec(seq![("op_ref"@, FieldView::Str(op_ref))], "broker_id"@, Some(a)), "investor_id"@, Some(b))
        =~= seq![("op_ref"@, FieldView::Str(op_ref)), ("broker_id"@, FieldView::Str(a)), ("investor_id"@, FieldView::Str(b))]);
    assert(push_opt_spec(
        push_opt_spec(
            push_opt_spec(push_opt_spec(seq![("op_ref"@, FieldView::Str(op_ref))], "order_sys_id"@, Some(a)), "exchange_id"@, Some(b)),
            "from"@,
            Some(d),
        ),
        "to"@,
        Some(e),
    ) =~= seq![
        ("op_ref"@, FieldView::Str(op_ref)),
        ("order_sys_id"@, FieldView::Str(a)),
        ("exchange_id"@, FieldView::Str(b)),
        ("from"@, FieldView::Str(d)),
        ("to"@, FieldView::Str(e)),
    ]);
    assert(push_opt_spec(
        push_opt_spec(
            push_opt_spec(push_opt_spec(seq![("op_ref"@, FieldView::Str(op_ref))], "exchange"@, Some(a)), "instrument"@, Some(b)),
            "exchange_inst_id"@,
            Some(d),
        ),
        "product_id"@,
        Some(e),
    ) =~= seq![
        ("op_ref"@, FieldView::Str(op_ref)),
        ("exchange"@, FieldView::Str(a)),
        ("instrument"@, FieldView::Str(b)),
        ("exchange_inst_id"@, FieldView::Str(d)),
        ("product_id"@, FieldView::Str(e)),
    ]);
}

/// A trade client that is not connected sends no request.
pub proof fn lemma_trade_requests_need_connection(
    c: TradeClientView,
    op_ref: Seq<char>,
    a: Seq<char>,
    b: Seq<char>,
    d: Seq<char>,
    oa: Option<Seq<char>>,
    ob: Option<Seq<char>>,
    od: Option<Seq<char>>,
    oe: Option<Seq<char>>,
    port: u16,
    price_bits: u64,
    n: int,
)
    requires
        !c.connected,
    ensures
        trade_connect_front_request(c, op_ref, a, port) == Err::<OpRequestView, ClientError>(ClientError::NotConnected),
        trade_set_request(c, op_ref, oa, ob) == Err::<OpRequestView, ClientError>(ClientError::NotConnected),
        trade_op_ref_request(c, a, op_ref) == Err::<OpRequestView, ClientError>(ClientError::NotConnected),
        trade_auth_request(c, op_ref, a, b, d) == Err::<OpRequestView, ClientError>(ClientError::NotConnected),
        trade_login_request(c, op_ref, a, b) == Err::<OpRequestView, ClientError>(ClientError::NotConnected),
        trade_logout_request(c, op_ref, a) == Err::<OpRequestView, ClientError>(ClientError::NotConnected),
        trade_query_settlement_info_request(c, op_ref, a) == Err::<OpRequestView, ClientError>(ClientError::NotConnected),
        trade_insert_order_request(c, op_ref, a, b, d, price_bits, n, n, n, n, n) == Err::<OpRequestView, ClientError>(ClientError::NotConnected),
        trade_query_order_request(c, op_ref, oa, ob, od, oe) == Err::<OpRequestView, ClientError>(ClientError::NotConnected),
        trade_delete_order_request(c, op_ref, a, b, n, d) == Err::<OpRequestView, ClientError>(ClientError::NotConnected),
        trade_query_instrument_request(c, op_ref, oa, ob, od, oe) == Err::<OpRequestView, ClientError>(ClientError::NotConnected),
{
}

} // verus!
