//! The rules of an anonymous-voting backend: which requests are served, what is asked of the
//! contract and of the prover, what their answers mean, what is recorded, and how a payout pool is
//! split.
//!
//! The library performs no input or output. Where a request needs some, a function returns what is
//! to be done, and another one takes what came of it.
pub mod config;
pub mod decimal;
pub mod error;
pub mod field;
pub mod hexadecimal;
pub mod json;
pub mod laws;
pub mod models;
pub mod pattern;
pub mod proof_service;
pub mod routes;
pub mod soroban_client;
pub mod state;
pub mod text;
