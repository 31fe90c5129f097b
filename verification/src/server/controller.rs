//! The handshake that opens every client connection.
//!
//! When a WebSocket connection opens, the server greets the client with a
//! fresh session token (code `Handshake`). The client must answer with a
//! `Handshake` instruction carrying the same token; any other first answer,
//! or none before the deadline, refuses the connection (code
//! `AuthenticateFailed`, with the reason). An accepted connection is told so
//! with code `Success`.
use rand::Rng;
use rand::rngs::ThreadRng;
use vstd::prelude::*;

use crate::server::message::report::{
    AuthenticateFailedInfo, HandshakeData, Report, ReportCode, ReportData, ReportDataView,
    ReportView, report, report_of,
};
use crate::server::message::Instruction;

verus! {

#[verifier::external_type_specification]
#[verifier::external_body]
pub struct ExThreadRng(ThreadRng);

/// `rand::rng()`: a handle to the thread-local random number generator.
/// Nothing is claimed of it.
#[verifier::external_body]
fn thread_rng() -> ThreadRng {
    rand::rng()
}

/// An ASCII letter or digit, the characters of a session token.
pub open spec fn is_alphanumeric_byte(b: u8) -> bool {
    (48 <= b <= 57) || (65 <= b <= 90) || (97 <= b <= 122)
}

/// A letter or digit of ASCII.
pub open spec fn is_token_char(c: char) -> bool {
    ('0' <= c <= '9') || ('A' <= c <= 'Z') || ('a' <= c <= 'z')
}

/// The number of characters of a session token.
pub const TOKEN_LEN: usize = 16;

/// `Rng::sample` with the distribution `rand::distr::Alphanumeric`. Its
/// source draws a byte from `A-Z`, `a-z`, `0-9` (rejection sampling over
/// those 62 bytes); the contract claims only that the byte is one of them.
#[verifier::external_body]
fn sample_alphanumeric(rng: &mut ThreadRng) -> (b: u8)
    ensures
        is_alphanumeric_byte(b),
{
    rng.sample(rand::distr::Alphanumeric)
}

/// `char::to_string`: the string of one character, as std documents it.
#[verifier::external_body]
fn char_string(c: char) -> (res: String)
    ensures
        res@ == seq![c],
{
    c.to_string()
}

/// Draws the bytes of a session token: [`TOKEN_LEN`] random ASCII letters
/// and digits.
pub fn draw_token_bytes() -> (bytes: Vec<u8>)
    ensures
        bytes@.len() == TOKEN_LEN,
        forall|i: int| 0 <= i < bytes@.len() ==> is_alphanumeric_byte(#[trigger] bytes@[i]),
{
    let mut rng = thread_rng();
    let mut bytes: Vec<u8> = Vec::new();
    let mut n: usize = 0;
    while n < TOKEN_LEN
        invariant
            n <= TOKEN_LEN,
            bytes@.len() == n,
            forall|i: int| 0 <= i < bytes@.len() ==> is_alphanumeric_byte(#[trigger] bytes@[i]),
        decreases TOKEN_LEN - n,
    {
        let b = sample_alphanumeric(&mut rng);
        bytes.push(b);
        n = n + 1;
    }
    bytes
}

/// The characters of a token made of `bytes`, one character per byte.
pub open spec fn token_chars(bytes: Seq<u8>) -> Seq<char> {
    bytes.map_values(|b: u8| b as char)
}

/// The session token made of the drawn bytes, one character per byte.
pub fn session_token_of(bytes: &Vec<u8>) -> (token: String)
    ensures
        token@ == token_chars(bytes@),
{
    let mut token = String::new();
    let mut n: usize = 0;
    while n < bytes.len()
        invariant
            n <= bytes@.len(),
            token@ == token_chars(bytes@.take(n as int)),
        decreases bytes@.len() - n,
    {
        let c = bytes[n] as char;
        let piece = char_string(c);
        token.append(piece.as_str());
        assert(bytes@.take(n + 1) == bytes@.take(n as int).push(bytes@[n as int]));
        assert(token_chars(bytes@.take(n + 1)) =~= token_chars(bytes@.take(n as int)) + seq![c]);
        n = n + 1;
    }
    assert(bytes@.take(bytes@.len() as int) =~= bytes@);
    token
}

/// A byte of a token is a letter or digit exactly when its character is.
pub proof fn lemma_token_chars(bytes: Seq<u8>)
    ensures
        token_chars(bytes).len() == bytes.len(),
        forall|i: int| 0 <= i < bytes.len() ==> (is_alphanumeric_byte(bytes[i]) <==> is_token_char(
            #[trigger] token_chars(bytes)[i],
        )),
{
}

/// A fresh session token: the characters of [`TOKEN_LEN`] randomly drawn
/// ASCII letters and digits.
pub fn generate_session_token() -> (token: String)
    ensures
        token@.len() == TOKEN_LEN,
        forall|i: int| 0 <= i < token@.len() ==> is_token_char(#[trigger] token@[i]),
        exists|bytes: Seq<u8>|
            #![trigger token_chars(bytes)]
            bytes.len() == TOKEN_LEN && token@ == token_chars(bytes) && (forall|i: int|
                0 <= i < bytes.len() ==> is_alphanumeric_byte(#[trigger] bytes[i])),
{
    let bytes = draw_token_bytes();
    let token = session_token_of(&bytes);
    proof {
        lemma_token_chars(bytes@);
    }
    token
}

/// The client's first answer to the greeting.
#[derive(Debug, Clone, PartialEq, Eq)]
pub enum HandshakeReply {
    /// A text message that parsed as an instruction.
    Instruction(Instruction),
    /// A text message that did not parse.
    Unparsable,
    /// No text message before the deadline (none at all, a non-text frame, a
    /// closed or failed socket).
    Absent,
}

/// Whether a connection is accepted, and why not.
#[derive(Debug, Clone, PartialEq, Eq)]
pub enum AuthOutcome {
    Accepted,
    Rejected(String),
}

/// The mathematical value of an [`AuthOutcome`].
pub enum AuthOutcomeView {
    Accepted,
    Rejected(Seq<char>),
}

impl View for AuthOutcome {
    type V = AuthOutcomeView;

    open spec fn view(&self) -> AuthOutcomeView {
        match self {
            AuthOutcome::Accepted => AuthOutcomeView::Accepted,
            AuthOutcome::Rejected(r) => AuthOutcomeView::Rejected(r@),
        }
    }
}

/// The decision on a client that was given `token` and answered `reply`.
pub open spec fn auth_decision(token: Seq<char>, reply: HandshakeReply) -> AuthOutcomeView {
    match reply {
        HandshakeReply::Instruction(Instruction::Handshake(h)) => if h.token@ == token {
            AuthOutcomeView::Accepted
        } else {
            AuthOutcomeView::Rejected("invalid token"@)
        },
        HandshakeReply::Instruction(_) => AuthOutcomeView::Rejected("handshake expected"@),
        HandshakeReply::Unparsable => AuthOutcomeView::Rejected("failed to parse instruction"@),
        HandshakeReply::Absent => AuthOutcomeView::Rejected("authentication timeout"@),
    }
}

/// Decides on a client that was given `token` and answered `reply`, as
/// [`auth_decision`] states.
pub fn authenticate(token: &String, reply: HandshakeReply) -> (res: AuthOutcome)
    ensures
        res@ == auth_decision(token@, reply),
{
    match reply {
        HandshakeReply::Instruction(Instruction::Handshake(h)) => {
            if h.token == *token {
                AuthOutcome::Accepted
            } else {
                AuthOutcome::Rejected(String::from_str("invalid token"))
            }
        },
        HandshakeReply::Instruction(_) => AuthOutcome::Rejected(String::from_str("handshake expected")),
        HandshakeReply::Unparsable => AuthOutcome::Rejected(String::from_str("failed to parse instruction")),
        HandshakeReply::Absent => AuthOutcome::Rejected(String::from_str("authentication timeout")),
    }
}

/// The greeting that carries a session token.
pub open spec fn greeting(token: Seq<char>) -> ReportView<ReportDataView> {
    report_of(ReportCode::Handshake, "connected"@, ReportDataView::Handshake(token))
}

/// The report that tells a client the decision on its handshake.
pub open spec fn outcome_report_of(outcome: AuthOutcomeView) -> ReportView<ReportDataView> {
    match outcome {
        AuthOutcomeView::Accepted => report_of(ReportCode::Success, "handshake successful"@, ReportDataView::Empty),
        AuthOutcomeView::Rejected(reason) => report_of(
            ReportCode::AuthenticateFailed,
            "authentication failed"@,
            ReportDataView::AuthenticateFailed(reason),
        ),
    }
}

/// The greeting that carries the session token.
pub fn handshake_report(token: String) -> (res: Report<ReportData>)
    ensures
        res@ == greeting(token@),
{
    report(ReportCode::Handshake, "connected", ReportData::Handshake(HandshakeData { token }))
}

/// The report that tells the client the decision on its handshake.
pub fn outcome_report(outcome: AuthOutcome) -> (res: Report<ReportData>)
    ensures
        res@ == outcome_report_of(outcome@),
{
    match outcome {
        AuthOutcome::Accepted => report(ReportCode::Success, "handshake successful", ReportData::Empty),
        AuthOutcome::Rejected(reason) => report(
            ReportCode::AuthenticateFailed,
            "authentication failed",
            ReportData::AuthenticateFailed(AuthenticateFailedInfo { reason }),
        ),
    }
}

/// A connection is accepted exactly when the client's first answer is a
/// handshake carrying the token of its greeting. An accepted connection is
/// told so with code `Success` (0); a refused one with code
/// `AuthenticateFailed` (-2) and a reason.
pub proof fn lemma_handshake(token: Seq<char>, reply: HandshakeReply)
    ensures
        (auth_decision(token, reply) is Accepted) <==> (reply matches HandshakeReply::Instruction(
            Instruction::Handshake(h),
        ) && h.token@ == token),
        greeting(token).data == ReportDataView::Handshake(token),
        greeting(token).code == ReportCode::Handshake,
        auth_decision(token, reply) is Accepted ==> outcome_report_of(auth_decision(token, reply)).code
            == ReportCode::Success,
        auth_decision(token, reply) matches AuthOutcomeView::Rejected(reason) ==> outcome_report_of(
            auth_decision(token, reply),
        ) == report_of(
            ReportCode::AuthenticateFailed,
            "authentication failed"@,
            ReportDataView::AuthenticateFailed(reason),
        ),
{
}

} // verus!
