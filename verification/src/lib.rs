//! Request signing and tolerant response decoding for the Bybit v5 REST API.
//!
//! The crate turns request parameters into the exact text that the exchange
//! expects to be signed, signs it with HMAC-SHA256, assembles the transport
//! request around it, and decodes the exchange's JSON envelope into typed
//! records. It performs no network I/O of its own: a request comes out as a
//! plain description for a transport to send, and a response goes in as the
//! text of its body.

pub mod json;
pub mod sign;
pub mod canonical;
pub mod numbers;
pub mod types;
pub mod decode;
pub mod structures;
pub mod envelope;
pub mod request;
pub mod utils;
pub mod client;

pub use canonical::{RequestError, RequestKind};
pub use client::{Bybit, RECV_WINDOW, REST_API_URL};
pub use decode::{Decimal, DecodeError, Mismatch};
pub use envelope::BybitResponse;
pub use json::Json;
pub use request::Request;
pub use types::{AccountType, Category, OrderId, OrderType, TimeInForce, TradeDirection};
