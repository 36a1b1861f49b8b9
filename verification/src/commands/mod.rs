//! The commands of the CLI: the requests each one sends and the output it
//! makes of the responses.

pub mod market;
pub mod trade;
pub mod account;
pub mod funding;
pub mod paper;
pub mod auth;
pub mod websocket;
pub mod utility;
