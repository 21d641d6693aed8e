//! Candlestick market-data dashboard: tolerant decoding of exchange
//! responses, terminal layout, table rendering and the refresh controller.

pub mod utils;
pub mod candlesticks;
pub mod terminal;
