//! Reports: the messages the server sends to its clients,
//! `{"code": <i64>, "msg": <text>, "data": <payload>}`.
use vstd::prelude::*;

verus! {

/// The code of a report. Negative codes are errors; `Success` (0) answers a
/// completed handshake.
#[derive(Debug, Clone, Copy, PartialEq, Eq, Structural)]
pub enum ReportCode {
    AuthenticateFailed,
    GeneralError,
    Success,
    Handshake,
    WebCtpMarketDataEvent,
    WebCtpTradeEvent,
    WebCtpOperationAck,
}

/// The wire value of a report code.
pub open spec fn report_code_value(c: ReportCode) -> int {
    match c {
        ReportCode::AuthenticateFailed => -2,
        ReportCode::GeneralError => -1,
        ReportCode::Success => 0,
        ReportCode::Handshake => 1,
        ReportCode::WebCtpMarketDataEvent => 2,
        ReportCode::WebCtpTradeEvent => 3,
        ReportCode::WebCtpOperationAck => 4,
    }
}

/// The report code with wire value `v`, if there is one.
pub open spec fn report_code_from_value(v: int) -> Option<ReportCode> {
    if v == -2 {
        Some(ReportCode::AuthenticateFailed)
    } else if v == -1 {
        Some(ReportCode::GeneralError)
    } else if v == 0 {
        Some(ReportCode::Success)
    } else if v == 1 {
        Some(ReportCode::Handshake)
    } else if v == 2 {
        Some(ReportCode::WebCtpMarketDataEvent)
    } else if v == 3 {
        Some(ReportCode::WebCtpTradeEvent)
    } else if v == 4 {
        Some(ReportCode::WebCtpOperationAck)
    } else {
        None
    }
}

/// Whether a report code reports an error.
pub open spec fn is_error_code(c: ReportCode) -> bool {
    c == ReportCode::AuthenticateFailed || c == ReportCode::GeneralError
}

impl ReportCode {
    /// The wire value of this code.
    pub fn value(&self) -> (res: i64)
        ensures
            res == report_code_value(*self),
    {
        match self {
            ReportCode::AuthenticateFailed => -2,
            ReportCode::GeneralError => -1,
            ReportCode::Success => 0,
            ReportCode::Handshake => 1,
            ReportCode::WebCtpMarketDataEvent => 2,
            ReportCode::WebCtpTradeEvent => 3,
            ReportCode::WebCtpOperationAck => 4,
        }
    }

    /// Decodes a wire value; every value outside `-2..=4` is refused.
    pub fn from_value(v: i64) -> (res: Option<ReportCode>)
        ensures
            res == report_code_from_value(v as int),
    {
        match v {
            -2 => Some(ReportCode::AuthenticateFailed),
            -1 => Some(ReportCode::GeneralError),
            0 => Some(ReportCode::Success),
            1 => Some(ReportCode::Handshake),
            2 => Some(ReportCode::WebCtpMarketDataEvent),
            3 => Some(ReportCode::WebCtpTradeEvent),
            4 => Some(ReportCode::WebCtpOperationAck),
            _ => None,
        }
    }

    /// Whether this code reports an error, i.e. its value is negative.
    pub fn is_error(&self) -> (res: bool)
        ensures
            res == is_error_code(*self),
    {
        match self {
            ReportCode::AuthenticateFailed => true,
            ReportCode::GeneralError => true,
            _ => false,
        }
    }
}

/// A report: its code, its message and its payload.
#[derive(Debug, Clone, PartialEq, Eq)]
pub struct Report<T> {
    pub code: ReportCode,
    pub message: String,
    pub data: T,
}

/// The payload of the greeting sent when a connection opens.
#[derive(Debug, Clone, PartialEq, Eq)]
pub struct HandshakeData {
    pub token: String,
}

/// The payload of a refused handshake.
#[derive(Debug, Clone, PartialEq, Eq)]
pub struct AuthenticateFailedInfo {
    pub reason: String,
}

/// The payload acknowledging an operation.
#[derive(Debug, Clone, PartialEq, Eq)]
pub struct OperationAck {
    pub ok: bool,
}

/// An error description (`{"type": ..., "info": ...}` on the wire).
#[derive(Debug, Clone, PartialEq, Eq)]
pub struct ErrorReport {
    pub error_type: String,
    pub info: String,
}

/// The payloads of the reports that the library composes.
#[derive(Debug, Clone, PartialEq, Eq)]
pub enum ReportData {
    /// No payload (`null` on the wire).
    Empty,
    Handshake(HandshakeData),
    AuthenticateFailed(AuthenticateFailedInfo),
    Ack(OperationAck),
    /// A text payload, such as the description of an error.
    Text(String),
}

/// The mathematical value of a [`ReportData`].
pub enum ReportDataView {
    Empty,
    Handshake(Seq<char>),
    AuthenticateFailed(Seq<char>),
    Ack(bool),
    Text(Seq<char>),
}

impl View for ReportData {
    type V = ReportDataView;

    open spec fn view(&self) -> ReportDataView {
        match self {
            ReportData::Empty => ReportDataView::Empty,
            ReportData::Handshake(h) => ReportDataView::Handshake(h.token@),
            ReportData::AuthenticateFailed(a) => ReportDataView::AuthenticateFailed(a.reason@),
            ReportData::Ack(a) => ReportDataView::Ack(a.ok),
            ReportData::Text(t) => ReportDataView::Text(t@),
        }
    }
}

/// The mathematical value of a [`Report`].
pub struct ReportView<D> {
    pub code: ReportCode,
    pub message: Seq<char>,
    pub data: D,
}

impl<T: View> View for Report<T> {
    type V = ReportView<T::V>;

    open spec fn view(&self) -> ReportView<T::V> {
        ReportView { code: self.code, message: self.message@, data: self.data@ }
    }
}

/// The report with the given parts.
pub open spec fn report_of(code: ReportCode, message: Seq<char>, data: ReportDataView) -> ReportView<ReportDataView> {
    ReportView { code, message, data }
}

/// A report with a literal message.
pub fn report(code: ReportCode, message: &str, data: ReportData) -> (res: Report<ReportData>)
    ensures
        res@ == report_of(code, message@, data@),
{
    Report { code, message: String::from_str(message), data }
}

/// Decoding a report code's wire value gives the code back; exactly the
/// error codes have negative values.
pub proof fn lemma_report_code_roundtrip(c: ReportCode)
    ensures
        report_code_from_value(report_code_value(c)) == Some(c),
        is_error_code(c) <==> report_code_value(c) < 0,
{
}

/// A report wire value that decodes encodes back to itself, and exactly the
/// values `-2..=4` decode.
pub proof fn lemma_report_value_roundtrip(v: int)
    ensures
        report_code_from_value(v) is Some <==> -2 <= v <= 4,
        report_code_from_value(v) matches Some(c) ==> report_code_value(c) == v,
{
}

} // verus!
