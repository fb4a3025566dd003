//! A client-credentials token manager without I/O of its own.
//!
//! The crate decides; the caller talks to the identity provider. It says which
//! request to send, reads the provider's reply into a [`token::Token`] whose
//! validity is shortened by a safety margin, and decides whether a held token
//! has to be replaced before a given number of seconds has passed.

pub mod client_data;
pub mod clock;
pub mod error;
pub mod header;
pub mod identity;
pub mod json_text;
pub mod response_object;
pub mod token;
