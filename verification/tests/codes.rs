use qdengine::server::message::report::ReportCode;
use qdengine::webctp::codes::{MdMsgCode, TradeMsgCode};
use qdengine::text::decimal_string;

#[test]
fn md_codes_decode_each_wire_value() {
    assert_eq!(MdMsgCode::try_from(0), Ok(MdMsgCode::Performed));
    assert_eq!(MdMsgCode::try_from(2), Ok(MdMsgCode::Connected));
    assert_eq!(MdMsgCode::try_from(7), Ok(MdMsgCode::TradingDay));
    assert_eq!(MdMsgCode::try_from(10), Ok(MdMsgCode::MarketData));
}

#[test]
fn md_codes_refuse_out_of_range() {
    assert_eq!(MdMsgCode::try_from(-1), Err(()));
    assert_eq!(MdMsgCode::try_from(11), Err(()));
    assert_eq!(MdMsgCode::try_from(i64::MAX), Err(()));
}

#[test]
fn md_codes_roundtrip() {
    for v in 0..=10i64 {
        let c = MdMsgCode::try_from(v).unwrap();
        assert_eq!(c.value(), v);
    }
}

#[test]
fn trade_codes_decode_each_wire_value() {
    assert_eq!(TradeMsgCode::try_from(0), Ok(TradeMsgCode::Performed));
    assert_eq!(TradeMsgCode::try_from(5), Ok(TradeMsgCode::TradingDay));
    assert_eq!(TradeMsgCode::try_from(13), Ok(TradeMsgCode::OrderInsertError));
    assert_eq!(TradeMsgCode::try_from(14), Ok(TradeMsgCode::OrderInsertReturnError));
    assert_eq!(TradeMsgCode::try_from(21), Ok(TradeMsgCode::QueryInstrument));
}

#[test]
fn trade_codes_refuse_out_of_range() {
    assert_eq!(TradeMsgCode::try_from(22), Err(()));
    assert_eq!(TradeMsgCode::try_from(-5), Err(()));
}

#[test]
fn trade_codes_roundtrip() {
    for v in 0..=21i64 {
        let c = TradeMsgCode::try_from(v).unwrap();
        assert_eq!(c.value(), v);
    }
}

#[test]
fn report_codes_values() {
    assert_eq!(ReportCode::AuthenticateFailed.value(), -2);
    assert_eq!(ReportCode::GeneralError.value(), -1);
    assert_eq!(ReportCode::Success.value(), 0);
    assert_eq!(ReportCode::Handshake.value(), 1);
    assert_eq!(ReportCode::WebCtpMarketDataEvent.value(), 2);
    assert_eq!(ReportCode::WebCtpTradeEvent.value(), 3);
    assert_eq!(ReportCode::WebCtpOperationAck.value(), 4);
}

#[test]
fn report_codes_roundtrip_and_errors_are_negative() {
    for v in -2..=4i64 {
        let c = ReportCode::from_value(v).unwrap();
        assert_eq!(c.value(), v);
        assert_eq!(c.is_error(), v < 0);
    }
    assert_eq!(ReportCode::from_value(5), None);
    assert_eq!(ReportCode::from_value(-3), None);
}

#[test]
fn decimal_rendering() {
    assert_eq!(decimal_string(0), "0");
    assert_eq!(decimal_string(7), "7");
    assert_eq!(decimal_string(10), "10");
    assert_eq!(decimal_string(8080), "8080");
    assert_eq!(decimal_string(u64::MAX), u64::MAX.to_string());
}
