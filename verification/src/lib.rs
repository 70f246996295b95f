//! Payment-identifier resolution for a Bitcoin/Lightning wallet.
//!
//! Given a text that a user typed, scanned or pasted (an address, an
//! invoice, an offer, a URI, an LNURL or a human-readable address), this
//! library says what the text is and decodes it. Where one text bundles
//! several ways to pay, as a BIP21 URI does, it picks the one that the
//! wallet supports and likes best.
//!
//! The library never touches the network. Where resolving a text needs a
//! DNS lookup or an HTTP request, the classifier says what is needed and
//! goes on once it is handed the outcome: see [`parser`].
//!
//! Every function is verified against a contract. The contracts are stated
//! over the mathematical values of the types (their views). What the
//! `bitcoin`, `lightning`, `bech32`, `url`, `serde_json`, `hex` and
//! `percent-encoding-rfc3986` crates compute is taken on trust, through
//! the small functions in [`chain`], [`invoice`], [`web`] and [`encoding`]:
//! each of them says in its documentation what is assumed.

pub mod address;
pub mod bip21;
pub mod chain;
pub mod encoding;
pub mod error;
pub mod human_readable;
pub mod invoice;
pub mod lightning;
pub mod lnurl;
pub mod models;
pub mod network;
pub mod parser;
pub mod sdk;
pub mod services;
pub mod text;
pub mod web;

pub use error::{ParseError, ParseResult};
pub use models::{InputType, PaymentMethod, PaymentMethodType, PaymentRequest};
pub use network::Network;
pub use parser::{InputParser, ParseStep};
pub use services::BreezServices;
