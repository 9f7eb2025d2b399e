//! A typed description of the requests that a client of a remote inference
//! service makes, and of the exchange that each of them goes through.
//!
//! The library decides and the caller performs: a request is planned as plain
//! data (verb, address, credential, body and delivery), and an exchange is
//! driven step by step from the results that the caller reports.
pub mod client;
pub mod exchange;
pub mod models;
pub mod request;
pub mod upload;

pub use client::OpenAiClient;
