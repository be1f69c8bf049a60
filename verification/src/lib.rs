//! Core of a gateway to a live-streaming platform: deterministic request
//! signing, cookie parsing, response-envelope decoding, the QR-login state
//! machine, and the request-building halves of the stream-session operations.
//! Network transport lives outside this crate; everything here is plain data
//! in, plain data out.

pub mod cookies;
pub mod envelope;
pub mod flows;
pub mod json;
pub mod models;
pub mod qr;
pub mod requests;
pub mod signer;
pub mod strutil;
