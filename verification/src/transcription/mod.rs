//! Speech-to-text providers behind one vendor-neutral error type.

pub mod openai;
pub mod provider;

pub use provider::TranscriptionError;
