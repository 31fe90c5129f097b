//! QDEngine: the verified core of a WebSocket quantitative-trading gateway.
//!
//! The library holds the decisions of the server: the session handshake, the
//! dispatch of client instructions, the requests sent to a WebCTP gateway,
//! the classification of gateway events and the backtest queue. Sockets,
//! tasks and JSON (de)serialisation live in the application around it.
pub mod text;
pub mod webctp;
pub mod server;
