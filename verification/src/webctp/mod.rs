//! The WebCTP gateway adaptor: message codes, the requests sent to the
//! gateway's market-data and trade fronts, and the classification of the
//! messages received from them.
pub mod codes;
pub mod market_data;
pub mod request;
pub mod trade;
