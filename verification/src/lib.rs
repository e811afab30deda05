//! Client-side logic for a gas sponsorship HTTP service.
//!
//! The library validates the caller's credential, builds the exact request
//! that each operation sends (URL, headers, JSON body), and classifies the
//! response that comes back. The network send itself happens outside the
//! library; callers hand the status code and the body text back in.

mod client;
mod error;
mod text;
mod wire;

pub use client::Aethokit;
pub use client::AethokitConfig;
pub use client::HttpMethod;
pub use client::RequestPlan;
pub use client::classify_response;
pub use client::decode_gas_address_response;
pub use client::decode_sponsor_tx_response;
pub use error::AethokitError;
pub use text::char_is_space;
pub use text::str_is_blank;
pub use wire::SponsorTxRequest;
pub use wire::encode_sponsor_tx_request;
