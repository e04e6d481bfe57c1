//! Client-side data model for a remote code-execution service ("the
//! playground"): compiler flag enumerations with their canonical textual
//! tokens, request payloads with a proven JSON wire encoding, the decision
//! logic of the gist publisher, and the shareable-URL builder.

pub mod error;
pub mod flags;
pub mod gist;
pub mod json;
pub mod request;
pub mod strings;
pub mod url;
