use qdengine::server::message::instruction::{BacktestRequestInstruction, MarketType};
use qdengine::server::service::backtest::{BacktestManager, BacktestTask, BacktestTaskStatus};
use qdengine::server::{Config, Mode, Server};

fn request() -> BacktestRequestInstruction {
    BacktestRequestInstruction {
        market: MarketType::Futures,
        subject: "rb".to_string(),
        time_begin: "2024-01-01".to_string(),
        time_end: "2024-02-01".to_string(),
    }
}

#[test]
fn task_info() {
    let t = BacktestTask::new("bt-1".to_string(), BacktestTaskStatus::Running);
    let info = t.get_info();
    assert_eq!(info.reference, "bt-1");
    assert_eq!(info.status, BacktestTaskStatus::Running);
}

#[test]
fn new_task_with_room() {
    let m = BacktestManager::new(4);
    let info = m.new_task(&request()).unwrap();
    assert_eq!(info.reference, "");
    assert_eq!(info.status, BacktestTaskStatus::Canceled);
}

#[test]
fn new_task_on_full_queue() {
    let m = BacktestManager::new(0);
    assert_eq!(m.new_task(&request()).err().unwrap(), "Backtest queue is full (limit: 0)");
}

#[test]
fn cancel_and_query_find_nothing() {
    let m = BacktestManager::new(3);
    let r = "bt-9".to_string();
    let c = m.cancel_task(&r).unwrap();
    assert_eq!(c.reference, "bt-9");
    assert_eq!(c.status, BacktestTaskStatus::NotFound);
    let q = m.query_task(&r).unwrap();
    assert_eq!(q.reference, "bt-9");
    assert_eq!(q.status, BacktestTaskStatus::NotFound);
}

#[test]
fn address_defaults() {
    let c = Config { mode: Some(Mode::Server), host: None, port: None, handshake_timeout: None };
    assert_eq!(Server::new(&c).get_address(), "0.0.0.0:8080");
}

#[test]
fn address_from_config() {
    let c = Config { mode: Some(Mode::Server), host: Some("127.0.0.1".to_string()), port: Some(9000), handshake_timeout: Some(3000) };
    assert_eq!(Server::new(&c).get_address(), "127.0.0.1:9000");
    let c = Config { mode: None, host: None, port: Some(0), handshake_timeout: None };
    assert_eq!(Server::new(&c).get_address(), "0.0.0.0:0");
}
