//! The exchange adapter: a uniform view of the exchange (pairs, prices, order
//! books, paper orders) for embedding programs.

pub mod types;
pub mod rest;
pub mod ws;
pub mod gate;
