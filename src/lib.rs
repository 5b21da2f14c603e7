//! Two-phase parsing of session-control protocol messages: tokenizers slice
//! the input buffer without copying, and conversions promote those slices
//! into owned, validated values.
pub mod scan;
pub mod error;
pub mod text;
pub mod auth;
pub mod uri;
pub mod headers;
pub mod expires;
pub mod message;
pub mod sip_message;
