//! Client-side core of a brokerage market-data API: a verified cursor-based
//! pagination engine, the JSON wire codec for the realtime sockets, and the
//! data model (entities, enums and error tables) shared by both.
//!
//! Transport (HTTP requests, websocket connections) lives outside this
//! library; everything here is pure computation on plain values, specified
//! by `requires`/`ensures` contracts.

pub mod assets;
pub mod data;
pub mod entities;
pub mod errors;
pub mod json;
pub mod num;
pub mod positions;
pub mod rest;
pub mod streaming;
pub mod utils;
pub mod watchlist;
