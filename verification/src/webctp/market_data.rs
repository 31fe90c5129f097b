//! The market-data front of a WebCTP gateway: the requests a client sends and
//! the classification of the messages it receives.
use vstd::prelude::*;

use crate::text::{decimal, decimal_string};
use super::codes::{MdMsgCode, md_code_from_value, md_code_name, md_code_value};
use super::request::{
    ClientError, FieldValue, FieldView, Fields, OpRequest, OpRequestView, copy_strings,
    result_view, send_op, send_result,
};

verus! {

/// A market-data client: the account it logs in with and whether its socket
/// to the gateway is open.
pub struct MarketDataClient {
    broker_id: String,
    user_id: String,
    connected: bool,
}

/// The mathematical value of a [`MarketDataClient`].
pub struct MarketDataClientView {
    pub broker_id: Seq<char>,
    pub user_id: Seq<char>,
    pub connected: bool,
}

impl View for MarketDataClient {
    type V = MarketDataClientView;

    closed spec fn view(&self) -> MarketDataClientView {
        MarketDataClientView { broker_id: self.broker_id@, user_id: self.user_id@, connected: self.connected }
    }
}

/// The `connect` request of a market-data client.
pub open spec fn md_connect_front_request(c: MarketDataClientView, addr: Seq<char>, port: u16) -> Result<OpRequestView, ClientError> {
    send_result(c.connected, "connect"@, seq![("addr"@, FieldView::Str(addr)), ("port"@, FieldView::Str(decimal(port as nat)))])
}

/// The `login` request of a market-data client: its broker and user with the
/// password.
pub open spec fn md_login_request(c: MarketDataClientView, password: Seq<char>) -> Result<OpRequestView, ClientError> {
    send_result(
        c.connected,
        "login"@,
        seq![
            ("broker_id"@, FieldView::Str(c.broker_id)),
            ("user_id"@, FieldView::Str(c.user_id)),
            ("password"@, FieldView::Str(password)),
        ],
    )
}

/// The `subscribe` request of a market-data client.
pub open spec fn md_subscribe_request(c: MarketDataClientView, instruments: Seq<Seq<char>>) -> Result<OpRequestView, ClientError> {
    send_result(c.connected, "subscribe"@, seq![("instruments"@, FieldView::StrList(instruments))])
}

/// The `unsubscribe` request of a market-data client.
pub open spec fn md_unsubscribe_request(c: MarketDataClientView, instruments: Seq<Seq<char>>) -> Result<OpRequestView, ClientError> {
    send_result(c.connected, "unsubscribe"@, seq![("instruments"@, FieldView::StrList(instruments))])
}

/// The `get_trading_day` request of a market-data client.
pub open spec fn md_trading_day_request(c: MarketDataClientView) -> Result<OpRequestView, ClientError> {
    send_result(c.connected, "get_trading_day"@, seq![])
}

impl MarketDataClient {
    /// A client for the given account, not yet connected.
    pub fn new(broker_id: String, user_id: String) -> (res: MarketDataClient)
        ensures
            res@ == (MarketDataClientView { broker_id: broker_id@, user_id: user_id@, connected: false }),
    {
        MarketDataClient { broker_id, user_id, connected: false }
    }

    /// Records that the socket to the gateway has been opened.
    pub fn mark_connected(&mut self)
        ensures
            final(self)@ == (MarketDataClientView { connected: true, ..old(self)@ }),
    {
        self.connected = true;
    }

    /// Whether the socket to the gateway is open.
    pub fn is_connected(&self) -> (res: bool)
        ensures
            res == self@.connected,
    {
        self.connected
    }

    /// Asks the gateway to connect to a CTP front: `connect` with `addr` and
    /// the port written in decimal.
    pub fn connect_front(&self, addr: &str, port: u16) -> (res: Result<OpRequest, ClientError>)
        ensures
            result_view(res) == md_connect_front_request(self@, addr@, port),
    {
        let mut data = Fields::new();
        data.push_str("addr", addr);
        data.push("port", FieldValue::Str(decimal_string(port as u64)));
        assert(data@ =~= seq![("addr"@, FieldView::Str(addr@)), ("port"@, FieldView::Str(decimal(port as nat)))]);
        send_op(self.connected, "connect", data)
    }

    /// Logs in with the client's broker and user and the given password.
    pub fn login(&self, password: &str) -> (res: Result<OpRequest, ClientError>)
        ensures
            result_view(res) == md_login_request(self@, password@),
    {
        let mut data = Fields::new();
        data.push("broker_id", FieldValue::Str(self.broker_id.clone()));
        data.push("user_id", FieldValue::Str(self.user_id.clone()));
        data.push_str("password", password);
        assert(data@ =~= seq![
            ("broker_id"@, FieldView::Str(self@.broker_id)),
            ("user_id"@, FieldView::Str(self@.user_id)),
            ("password"@, FieldView::Str(password@)),
        ]);
        send_op(self.connected, "login", data)
    }

    /// Subscribes to the market data of the given instruments.
    pub fn subscribe(&self, instruments: &[String]) -> (res: Result<OpRequest, ClientError>)
        ensures
            result_view(res) == md_subscribe_request(self@, instruments@.map_values(|s: String| s@)),
    {
        let mut data = Fields::new();
        data.push("instruments", FieldValue::StrList(copy_strings(instruments)));
        send_op(self.connected, "subscribe", data)
    }

    /// Unsubscribes from the market data of the given instruments.
    pub fn unsubscribe(&self, instruments: &[String]) -> (res: Result<OpRequest, ClientError>)
        ensures
            result_view(res) == md_unsubscribe_request(self@, instruments@.map_values(|s: String| s@)),
    {
        let mut data = Fields::new();
        data.push("instruments", FieldValue::StrList(copy_strings(instruments)));
        send_op(self.connected, "unsubscribe", data)
    }

    /// Asks for the current trading day.
    pub fn get_trading_day(&self) -> (res: Result<OpRequest, ClientError>)
        ensures
            result_view(res) == md_trading_day_request(self@),
    {
        send_op(self.connected, "get_trading_day", Fields::new())
    }

    /// Closes the client: afterwards it is not connected. The result says
    /// whether a socket was open, to which a close frame is then owed.
    pub fn disconnect(&mut self) -> (send_close: bool)
        ensures
            send_close == old(self)@.connected,
            final(self)@ == (MarketDataClientView { connected: false, ..old(self)@ }),
    {
        let was = self.connected;
        self.connected = false;
        was
    }

    /// Records that the close frame owed by [`Self::disconnect`] could not be
    /// written: the socket stays open, so the client is connected again.
    pub fn close_failed(&mut self)
        ensures
            final(self)@ == (MarketDataClientView { connected: true, ..old(self)@ }),
    {
        self.connected = true;
    }
}

/// The kinds of event that the market-data front reports.
#[derive(Debug, Clone, Copy, PartialEq, Eq, Structural)]
pub enum MarketDataEventKind {
    Ready,
    Performed,
    Error,
    FrontConnected,
    FrontDisconnected,
    HeartbeatTimeout,
    Login,
    Logout,
    TradingDay,
    Subscribe,
    Unsubscribe,
    MarketData,
    Unknown,
}

/// The `msg` field of a gateway message, as far as classification reads it.
pub enum MsgTag {
    /// A JSON string.
    Text(String),
    /// A JSON number that is an `i64`.
    Integer(i64),
    /// A JSON number that is not an `i64`.
    NonInteger,
    /// Any other JSON value.
    Other,
}

/// The class of a gateway message.
#[derive(Debug, Clone, PartialEq, Eq)]
pub enum MsgClass<K> {
    /// A known event (never the `Unknown` kind).
    Known(K),
    /// A string tag that names no event; the tag is kept.
    UnknownText(String),
    /// An integer code that names no event; the code is kept.
    UnknownCode(i64),
    /// A tag that is neither a string nor a number; the application keeps it.
    UnknownOther,
}

/// The event kind of a market-data message code.
pub open spec fn md_kind_of_code(c: MdMsgCode) -> MarketDataEventKind {
    match c {
        MdMsgCode::Performed => MarketDataEventKind::Performed,
        MdMsgCode::Error => MarketDataEventKind::Error,
        MdMsgCode::Connected => MarketDataEventKind::FrontConnected,
        MdMsgCode::Disconnected => MarketDataEventKind::FrontDisconnected,
        MdMsgCode::HeartbeatTimeout => MarketDataEventKind::HeartbeatTimeout,
        MdMsgCode::Login => MarketDataEventKind::Login,
        MdMsgCode::Logout => MarketDataEventKind::Logout,
        MdMsgCode::TradingDay => MarketDataEventKind::TradingDay,
        MdMsgCode::Subscribe => MarketDataEventKind::Subscribe,
        MdMsgCode::Unsubscribe => MarketDataEventKind::Unsubscribe,
        MdMsgCode::MarketData => MarketDataEventKind::MarketData,
    }
}

/// Whether a string tag reports a gateway-side error.
pub open spec fn is_error_tag(s: Seq<char>) -> bool {
    s == "parse_error"@ || s == "processing_error"@ || s == "error"@
}

/// The view of a message class.
pub open spec fn class_view<K>(c: MsgClass<K>) -> MsgClassView<K> {
    match c {
        MsgClass::Known(k) => MsgClassView::Known(k),
        MsgClass::UnknownText(s) => MsgClassView::UnknownText(s@),
        MsgClass::UnknownCode(v) => MsgClassView::UnknownCode(v as int),
        MsgClass::UnknownOther => MsgClassView::UnknownOther,
    }
}

/// The mathematical value of a [`MsgClass`].
pub enum MsgClassView<K> {
    Known(K),
    UnknownText(Seq<char>),
    UnknownCode(int),
    UnknownOther,
}

/// The message that a non-integer numeric tag is refused with.
pub open spec fn non_integer_code_msg() -> Seq<char> {
    "non-integer msg code"@
}

/// How the market-data front's message with tag `tag` is classified.
pub open spec fn md_classify(tag: MsgTag) -> Result<MsgClassView<MarketDataEventKind>, Seq<char>> {
    match tag {
        MsgTag::Text(s) => if s@ == "ready"@ {
            Ok(MsgClassView::Known(MarketDataEventKind::Ready))
        } else if is_error_tag(s@) {
            Ok(MsgClassView::Known(MarketDataEventKind::Error))
        } else {
            Ok(MsgClassView::UnknownText(s@))
        },
        MsgTag::Integer(v) => match md_code_from_value(v as int) {
            Some(c) => Ok(MsgClassView::Known(md_kind_of_code(c))),
            None => Ok(MsgClassView::UnknownCode(v as int)),
        },
        MsgTag::NonInteger => Err(non_integer_code_msg()),
        MsgTag::Other => Ok(MsgClassView::UnknownOther),
    }
}

/// The view of a classification result; a protocol error is seen by its text.
pub open spec fn classify_view<K>(r: Result<MsgClass<K>, ClientError>) -> Result<MsgClassView<K>, Seq<char>> {
    match r {
        Ok(c) => Ok(class_view(c)),
        Err(ClientError::Protocol(m)) => Err(m@),
        Err(ClientError::NotConnected) => Err("not connected"@),
    }
}

/// Whether a string tag reads `ready` or names an error; the string
/// comparisons of both classifications.
pub fn text_tag_kind(s: &String) -> (res: (bool, bool))
    ensures
        res.0 == (s@ == "ready"@),
        res.1 == is_error_tag(s@),
{
    let ready = *s == String::from_str("ready");
    let error = *s == String::from_str("parse_error") || *s == String::from_str("processing_error")
        || *s == String::from_str("error");
    (ready, error)
}

/// Classifies a message of the market-data front by its `msg` tag: the
/// strings `ready` and `parse_error`/`processing_error`/`error`, and the
/// numeric codes of [`MdMsgCode`]; any other string or code is unknown, and a
/// number that is not an integer is a protocol error.
pub fn parse_market_data(tag: MsgTag) -> (res: Result<MsgClass<MarketDataEventKind>, ClientError>)
    ensures
        classify_view(res) == md_classify(tag),
{
    match tag {
        MsgTag::Text(s) => {
            let (ready, error) = text_tag_kind(&s);
            if ready {
                Ok(MsgClass::Known(MarketDataEventKind::Ready))
            } else if error {
                Ok(MsgClass::Known(MarketDataEventKind::Error))
            } else {
                Ok(MsgClass::UnknownText(s))
            }
        },
        MsgTag::Integer(v) => match MdMsgCode::try_from(v) {
            Ok(MdMsgCode::Performed) => Ok(MsgClass::Known(MarketDataEventKind::Performed)),
            Ok(MdMsgCode::Error) => Ok(MsgClass::Known(MarketDataEventKind::Error)),
            Ok(MdMsgCode::Connected) => Ok(MsgClass::Known(MarketDataEventKind::FrontConnected)),
            Ok(MdMsgCode::Disconnected) => Ok(MsgClass::Known(MarketDataEventKind::FrontDisconnected)),
            Ok(MdMsgCode::HeartbeatTimeout) => Ok(MsgClass::Known(MarketDataEventKind::HeartbeatTimeout)),
            Ok(MdMsgCode::Login) => Ok(MsgClass::Known(MarketDataEventKind::Login)),
            Ok(MdMsgCode::Logout) => Ok(MsgClass::Known(MarketDataEventKind::Logout)),
            Ok(MdMsgCode::TradingDay) => Ok(MsgClass::Known(MarketDataEventKind::TradingDay)),
            Ok(MdMsgCode::Subscribe) => Ok(MsgClass::Known(MarketDataEventKind::Subscribe)),
            Ok(MdMsgCode::Unsubscribe) => Ok(MsgClass::Known(MarketDataEventKind::Unsubscribe)),
            Ok(MdMsgCode::MarketData) => Ok(MsgClass::Known(MarketDataEventKind::MarketData)),
            Err(_) => Ok(MsgClass::UnknownCode(v)),
        },
        MsgTag::NonInteger => Err(ClientError::Protocol(String::from_str("non-integer msg code"))),
        MsgTag::Other => Ok(MsgClass::UnknownOther),
    }
}

/// The event name under which a market-data event is reported to clients.
pub open spec fn md_event_name(k: MarketDataEventKind) -> Seq<char> {
    match k {
        MarketDataEventKind::Ready => "ready"@,
        MarketDataEventKind::Performed => "performed"@,
        MarketDataEventKind::Error => "error"@,
        MarketDataEventKind::FrontConnected => "front_connected"@,
        MarketDataEventKind::FrontDisconnected => "front_disconnected"@,
        MarketDataEventKind::HeartbeatTimeout => "heartbeat_timeout"@,
        MarketDataEventKind::Login => "login"@,
        MarketDataEventKind::Logout => "logout"@,
        MarketDataEventKind::TradingDay => "trading_day"@,
        MarketDataEventKind::Subscribe => "subscribe"@,
        MarketDataEventKind::Unsubscribe => "unsubscribe"@,
        MarketDataEventKind::MarketData => "market_data"@,
        MarketDataEventKind::Unknown => "unknown"@,
    }
}

impl MarketDataEventKind {
    /// The event name under which this event is reported to clients.
    pub fn event_name(&self) -> (res: &'static str)
        ensures
            res@ == md_event_name(*self),
    {
        match self {
            MarketDataEventKind::Ready => "ready",
            MarketDataEventKind::Performed => "performed",
            MarketDataEventKind::Error => "error",
            MarketDataEventKind::FrontConnected => "front_connected",
            MarketDataEventKind::FrontDisconnected => "front_disconnected",
            MarketDataEventKind::HeartbeatTimeout => "heartbeat_timeout",
            MarketDataEventKind::Login => "login",
            MarketDataEventKind::Logout => "logout",
            MarketDataEventKind::TradingDay => "trading_day",
            MarketDataEventKind::Subscribe => "subscribe",
            MarketDataEventKind::Unsubscribe => "unsubscribe",
            MarketDataEventKind::MarketData => "market_data",
            MarketDataEventKind::Unknown => "unknown",
        }
    }
}

/// An integer tag is a known market-data event exactly when it is a market
/// data message code, and the code's kind is never `Unknown`.
pub proof fn lemma_md_integer_tags(v: i64)
    ensures
        (md_classify(MsgTag::Integer(v)) matches Ok(MsgClassView::Known(k))) <==> 0 <= v <= 10,
        md_classify(MsgTag::Integer(v)) matches Ok(MsgClassView::Known(k)) ==> k != MarketDataEventKind::Unknown,
        !(0 <= v <= 10) ==> md_classify(MsgTag::Integer(v)) == Ok::<MsgClassView<MarketDataEventKind>, Seq<char>>(MsgClassView::UnknownCode(v as int)),
{
}

/// A disconnect whose close frame could not be written leaves a connected
/// client as it was; one whose close frame was written, or that had no socket,
/// leaves it not connected.
pub proof fn lemma_md_failed_close_restores(c: MarketDataClientView)
    requires
        c.connected,
    ensures
        (MarketDataClientView { connected: true, ..(MarketDataClientView { connected: false, ..c }) }) == c,
{
}

/// The event name a market-data code is relayed under: the code's own name,
/// with `front_` before the front's connection notices.
pub open spec fn md_relayed_name(c: MdMsgCode) -> Seq<char> {
    if c == MdMsgCode::Connected || c == MdMsgCode::Disconnected {
        "front_"@ + md_code_name(c)
    } else {
        md_code_name(c)
    }
}

/// Each market-data code becomes the event of its own name, and distinct
/// codes become distinct events.
pub proof fn lemma_md_kinds_follow_codes(c: MdMsgCode, d: MdMsgCode)
    ensures
        md_event_name(md_kind_of_code(c)) == md_relayed_name(c),
        md_kind_of_code(c) == md_kind_of_code(d) ==> c == d,
        md_kind_of_code(c) != MarketDataEventKind::Unknown,
{
    reveal_strlit("front_");
    reveal_strlit("connected");
    reveal_strlit("disconnected");
    reveal_strlit("front_connected");
    reveal_strlit("front_disconnected");
    if c == MdMsgCode::Connected {
        assert("front_"@ + "connected"@ =~= "front_connected"@);
    }
    if c == MdMsgCode::Disconnected {
        assert("front_"@ + "disconnected"@ =~= "front_disconnected"@);
    }
}

/// A market-data message whose tag is a code's wire value is classified as
/// the event of that code's name.
pub proof fn lemma_md_integer_tag_names(c: MdMsgCode)
    ensures
        md_classify(MsgTag::Integer(md_code_value(c) as i64)) matches Ok(MsgClassView::Known(k))
            && md_event_name(k) == md_relayed_name(c),
{
    lemma_md_kinds_follow_codes(c, c);
}

/// A connected market-data client's requests carry each argument under its
/// own key, in order, and the client's account on login.
pub proof fn lemma_md_requests_carry_their_arguments(
    c: MarketDataClientView,
    addr: Seq<char>,
    port: u16,
    password: Seq<char>,
    instruments: Seq<Seq<char>>,
)
    requires
        c.connected,
    ensures
        md_connect_front_request(c, addr, port) == Ok::<OpRequestView, ClientError>(OpRequestView {
            op: "connect"@,
            data: seq![("addr"@, FieldView::Str(addr)), ("port"@, FieldView::Str(decimal(port as nat)))],
        }),
        md_login_request(c, password) == Ok::<OpRequestView, ClientError>(OpRequestView {
            op: "login"@,
            data: seq![
                ("broker_id"@, FieldView::Str(c.broker_id)),
                ("user_id"@, FieldView::Str(c.user_id)),
                ("password"@, FieldView::Str(password)),
            ],
        }),
        md_subscribe_request(c, instruments) == Ok::<OpRequestView, ClientError>(OpRequestView {
            op: "subscribe"@,
            data: seq![("instruments"@, FieldView::StrList(instruments))],
        }),
        md_unsubscribe_request(c, instruments) == Ok::<OpRequestView, ClientError>(OpRequestView {
            op: "unsubscribe"@,
            data: seq![("instruments"@, FieldView::StrList(instruments))],
        }),
        md_trading_day_request(c) == Ok::<OpRequestView, ClientError>(OpRequestView {
            op: "get_trading_day"@,
            data: seq![],
        }),
{
}

/// A market-data client that is not connected sends no request.
pub proof fn lemma_md_requests_need_connection(
    c: MarketDataClientView,
    addr: Seq<char>,
    port: u16,
    password: Seq<char>,
    instruments: Seq<Seq<char>>,
)
    requires
        !c.connected,
    ensures
        md_connect_front_request(c, addr, port) == Err::<OpRequestView, ClientError>(ClientError::NotConnected),
        md_login_request(c, password) == Err::<OpRequestView, ClientError>(ClientError::NotConnected),
        md_subscribe_request(c, instruments) == Err::<OpRequestView, ClientError>(ClientError::NotConnected),
        md_unsubscribe_request(c, instruments) == Err::<OpRequestView, ClientError>(ClientError::NotConnected),
        md_trading_day_request(c) == Err::<OpRequestView, ClientError>(ClientError::NotConnected),
{
}

} // verus!
