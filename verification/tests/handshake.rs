use qdengine::server::controller::{
    authenticate, draw_token_bytes, generate_session_token, handshake_report, outcome_report,
    session_token_of, AuthOutcome, HandshakeReply,
};
use qdengine::server::message::instruction::{HandshakeInstruction, WebCtpTradeDisconnectInstruction};
use qdengine::server::message::report::{AuthenticateFailedInfo, HandshakeData, Report, ReportCode, ReportData};
use qdengine::server::message::Instruction;
use qdengine::server::service::{serve_step, Inbound, ServeStep};

fn handshake(t: &str) -> HandshakeReply {
    HandshakeReply::Instruction(Instruction::Handshake(HandshakeInstruction { token: t.to_string() }))
}

#[test]
fn token_is_sixteen_alphanumerics() {
    for _ in 0..20 {
        let t = generate_session_token();
        assert_eq!(t.len(), 16);
        assert!(t.chars().all(|c| c.is_ascii_alphanumeric()));
    }
}

#[test]
fn tokens_differ() {
    assert_ne!(generate_session_token(), generate_session_token());
}

#[test]
fn matching_token_is_accepted() {
    let token = "abcd1234".to_string();
    assert_eq!(authenticate(&token, handshake("abcd1234")), AuthOutcome::Accepted);
}

#[test]
fn rejections_and_their_reasons() {
    let token = "abcd1234".to_string();
    assert_eq!(authenticate(&token, handshake("abcd1235")), AuthOutcome::Rejected("invalid token".to_string()));
    assert_eq!(
        authenticate(&token, HandshakeReply::Instruction(Instruction::WebCtpTradeDisconnect(WebCtpTradeDisconnectInstruction {}))),
        AuthOutcome::Rejected("handshake expected".to_string())
    );
    assert_eq!(authenticate(&token, HandshakeReply::Unparsable), AuthOutcome::Rejected("failed to parse instruction".to_string()));
    assert_eq!(authenticate(&token, HandshakeReply::Absent), AuthOutcome::Rejected("authentication timeout".to_string()));
}

#[test]
fn handshake_reports() {
    assert_eq!(
        handshake_report("abcd1234".to_string()),
        Report { code: ReportCode::Handshake, message: "connected".to_string(), data: ReportData::Handshake(HandshakeData { token: "abcd1234".to_string() }) }
    );
    assert_eq!(
        outcome_report(AuthOutcome::Accepted),
        Report { code: ReportCode::Success, message: "handshake successful".to_string(), data: ReportData::Empty }
    );
    assert_eq!(
        outcome_report(AuthOutcome::Rejected("invalid token".to_string())),
        Report {
            code: ReportCode::AuthenticateFailed,
            message: "authentication failed".to_string(),
            data: ReportData::AuthenticateFailed(AuthenticateFailedInfo { reason: "invalid token".to_string() }),
        }
    );
}

#[test]
fn serve_steps() {
    assert_eq!(serve_step(Inbound::Close), ServeStep::CloseAndStop);
    assert_eq!(serve_step(Inbound::Failed), ServeStep::Stop);
    assert_eq!(serve_step(Inbound::Ended), ServeStep::Stop);
    assert_eq!(serve_step(Inbound::Other), ServeStep::Continue);
    let i = Instruction::WebCtpTradeDisconnect(WebCtpTradeDisconnectInstruction {});
    assert_eq!(serve_step(Inbound::Text(Ok(i.clone()))), ServeStep::Handle(i));
    assert_eq!(
        serve_step(Inbound::Text(Err("bad json".to_string()))),
        ServeStep::Reply(Report {
            code: ReportCode::GeneralError,
            message: "failed to parse instruction".to_string(),
            data: ReportData::Text("bad json".to_string()),
        })
    );
}

#[test]
fn token_of_bytes_keeps_each_byte() {
    assert_eq!(session_token_of(&b"abcd1234EFGH5678".to_vec()), "abcd1234EFGH5678");
    assert_eq!(session_token_of(&vec![]), "");
    assert_eq!(session_token_of(&vec![b'Z', b'0']), "Z0");
}

#[test]
fn drawn_bytes_are_sixteen_alphanumerics() {
    let b = draw_token_bytes();
    assert_eq!(b.len(), 16);
    assert!(b.iter().all(|c| c.is_ascii_alphanumeric()));
    assert_eq!(session_token_of(&b).as_bytes(), &b[..]);
}
