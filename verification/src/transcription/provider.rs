use crate::text::{decimal, owned, push_decimal, push_str};
use vstd::prelude::*;

verus! {

/// Errors from the speech-to-text boundary. Messages never contain the API
/// key or the audio/text content.
#[derive(Debug, PartialEq, Eq)]
pub enum TranscriptionError {
    MissingApiKey,
    Unauthorized,
    RateLimited,
    Timeout,
    Network(String),
    Api { status: u16, message: String },
    InvalidResponse(String),
}

impl Clone for TranscriptionError {
    fn clone(&self) -> (r: Self)
        ensures
            r == *self,
    {
        match self {
            TranscriptionError::MissingApiKey => TranscriptionError::MissingApiKey,
            TranscriptionError::Unauthorized => TranscriptionError::Unauthorized,
            TranscriptionError::RateLimited => TranscriptionError::RateLimited,
            TranscriptionError::Timeout => TranscriptionError::Timeout,
            TranscriptionError::Network(s) => TranscriptionError::Network(s.clone()),
            TranscriptionError::Api { status, message } => TranscriptionError::Api {
                status: *status,
                message: message.clone(),
            },
            TranscriptionError::InvalidResponse(s) => TranscriptionError::InvalidResponse(
                s.clone(),
            ),
        }
    }
}

/// The text shown for a [`TranscriptionError`].
pub open spec fn transcription_error_text(e: TranscriptionError) -> Seq<char> {
    match e {
        TranscriptionError::MissingApiKey => "no API key configured"@,
        TranscriptionError::Unauthorized => "API key rejected (unauthorized)"@,
        TranscriptionError::RateLimited => "API rate limit or quota exceeded"@,
        TranscriptionError::Timeout => "request timed out"@,
        TranscriptionError::Network(s) => "network error: "@ + s@,
        TranscriptionError::Api { status, message } => "API error "@ + decimal(status as nat)
            + ": "@ + message@,
        TranscriptionError::InvalidResponse(s) => "invalid response from API: "@ + s@,
    }
}

impl TranscriptionError {
    /// The human-readable message of this error.
    pub fn message(&self) -> (r: String)
        ensures
            r@ == transcription_error_text(*self),
    {
        match self {
            TranscriptionError::MissingApiKey => owned("no API key configured"),
            TranscriptionError::Unauthorized => owned("API key rejected (unauthorized)"),
            TranscriptionError::RateLimited => owned("API rate limit or quota exceeded"),
            TranscriptionError::Timeout => owned("request timed out"),
            TranscriptionError::Network(s) => {
                let mut r = owned("network error: ");
                push_str(&mut r, s.as_str());
                r
            },
            TranscriptionError::Api { status, message } => {
                let mut r = owned("API error ");
                push_decimal(&mut r, *status as u64);
                push_str(&mut r, ": ");
                push_str(&mut r, message.as_str());
                assert(r@ =~= transcription_error_text(*self));
                r
            },
            TranscriptionError::InvalidResponse(s) => {
                let mut r = owned("invalid response from API: ");
                push_str(&mut r, s.as_str());
                r
            },
        }
    }
}

} // verus!
