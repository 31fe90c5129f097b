//! Operation requests sent to a WebCTP gateway.
//!
//! Every request is a JSON object `{"op": <name>, "data": {<key>: <value>, ...}}`.
//! The library builds the request as plain values; the application renders it
//! as JSON text and writes it to the gateway's socket.
use vstd::prelude::*;

verus! {

/// A value in the `data` object of a request.
#[derive(Debug, Clone, PartialEq, Eq)]
pub enum FieldValue {
    Str(String),
    Int(i64),
    /// A JSON number that the gateway reads as a float, held by its IEEE-754
    /// bit pattern.
    Float(u64),
    StrList(Vec<String>),
}

/// The mathematical value of a [`FieldValue`].
pub enum FieldView {
    Str(Seq<char>),
    Int(int),
    Float(u64),
    StrList(Seq<Seq<char>>),
}

impl View for FieldValue {
    type V = FieldView;

    open spec fn view(&self) -> FieldView {
        match self {
            FieldValue::Str(s) => FieldView::Str(s@),
            FieldValue::Int(i) => FieldView::Int(*i as int),
            FieldValue::Float(b) => FieldView::Float(*b),
            FieldValue::StrList(v) => FieldView::StrList(v@.map_values(|s: String| s@)),
        }
    }
}

/// An operation request: its name and the entries of its `data` object, in
/// the order in which they are written.
#[derive(Debug, Clone, PartialEq, Eq)]
pub struct OpRequest {
    pub op: String,
    pub data: Vec<(String, FieldValue)>,
}

/// The mathematical value of an [`OpRequest`].
pub struct OpRequestView {
    pub op: Seq<char>,
    pub data: Seq<(Seq<char>, FieldView)>,
}

/// The view of one `data` entry.
pub open spec fn entry_view(e: (String, FieldValue)) -> (Seq<char>, FieldView) {
    (e.0@, e.1@)
}

impl View for OpRequest {
    type V = OpRequestView;

    open spec fn view(&self) -> OpRequestView {
        OpRequestView { op: self.op@, data: self.data@.map_values(|e: (String, FieldValue)| entry_view(e)) }
    }
}

/// Why a request could not be produced, or a gateway message not understood.
#[derive(Debug, Clone, PartialEq, Eq)]
pub enum ClientError {
    /// No connection to the gateway is open.
    NotConnected,
    /// The gateway sent something outside its protocol.
    Protocol(String),
}

/// The entries of a request's `data` object, built one at a time.
pub struct Fields {
    pub entries: Vec<(String, FieldValue)>,
}

impl View for Fields {
    type V = Seq<(Seq<char>, FieldView)>;

    open spec fn view(&self) -> Seq<(Seq<char>, FieldView)> {
        self.entries@.map_values(|e: (String, FieldValue)| entry_view(e))
    }
}

impl Fields {
    /// No entries.
    pub fn new() -> (res: Fields)
        ensures
            res@ == Seq::<(Seq<char>, FieldView)>::empty(),
    {
        let res = Fields { entries: Vec::new() };
        assert(res@ =~= Seq::<(Seq<char>, FieldView)>::empty());
        res
    }

    /// Appends the entry `key: value`.
    pub fn push(&mut self, key: &str, value: FieldValue)
        ensures
            final(self)@ == old(self)@.push((key@, value@)),
    {
        let ghost before = self.entries@;
        self.entries.push((String::from_str(key), value));
        assert(self.entries@ == before.push(self.entries@.last()));
        assert(self@ =~= old(self)@.push((key@, value@)));
    }

    /// Appends the entry `key: <text>`.
    pub fn push_str(&mut self, key: &str, text: &str)
        ensures
            final(self)@ == old(self)@.push((key@, FieldView::Str(text@))),
    {
        self.push(key, FieldValue::Str(String::from_str(text)));
    }

    /// Appends the entry `key: <text>` when `text` is present.
    pub fn push_opt(&mut self, key: &str, text: Option<String>)
        ensures
            final(self)@ == push_opt_spec(old(self)@, key@, opt_view(text)),
    {
        match text {
            Some(t) => self.push(key, FieldValue::Str(t)),
            None => {},
        }
    }
}

/// The view of an optional string.
pub open spec fn opt_view(o: Option<String>) -> Option<Seq<char>> {
    match o {
        Some(s) => Some(s@),
        None => None,
    }
}

/// `entries` with `key: text` appended when `text` is present.
pub open spec fn push_opt_spec(
    entries: Seq<(Seq<char>, FieldView)>,
    key: Seq<char>,
    text: Option<Seq<char>>,
) -> Seq<(Seq<char>, FieldView)> {
    match text {
        Some(t) => entries.push((key, FieldView::Str(t))),
        None => entries,
    }
}

/// The request that a connected client sends, or `NotConnected`.
pub open spec fn send_result(connected: bool, op: Seq<char>, data: Seq<(Seq<char>, FieldView)>) -> Result<OpRequestView, ClientError> {
    if connected {
        Ok(OpRequestView { op, data })
    } else {
        Err(ClientError::NotConnected)
    }
}

/// The view of a request result.
pub open spec fn result_view(r: Result<OpRequest, ClientError>) -> Result<OpRequestView, ClientError> {
    match r {
        Ok(req) => Ok(req@),
        Err(e) => Err(e),
    }
}

/// Frames the request `op` with `data`, refused with `NotConnected` when no
/// connection is open.
pub fn send_op(connected: bool, op: &str, data: Fields) -> (res: Result<OpRequest, ClientError>)
    ensures
        result_view(res) == send_result(connected, op@, data@),
{
    if !connected {
        return Err(ClientError::NotConnected);
    }
    Ok(OpRequest { op: String::from_str(op), data: data.entries })
}

/// Copies a list of strings.
pub fn copy_strings(items: &[String]) -> (res: Vec<String>)
    ensures
        res@.map_values(|s: String| s@) == items@.map_values(|s: String| s@),
{
    let mut res: Vec<String> = Vec::new();
    let mut i: usize = 0;
    while i < items.len()
        invariant
            i <= items@.len(),
            res@.len() == i,
            forall|j: int| 0 <= j < i ==> #[trigger] res@[j]@ == items@[j]@,
        decreases items@.len() - i,
    {
        res.push(items[i].clone());
        i = i + 1;
    }
    assert(res@.map_values(|s: String| s@) =~= items@.map_values(|s: String| s@));
    res
}

} // verus!
