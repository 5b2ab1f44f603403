//! OpenAI `/v1/audio/transcriptions` provider: the request fields, the
//! endpoint, and how a response maps to the vendor-neutral result.

use super::provider::TranscriptionError;
use crate::audio::audio_data::{pcm_bytes, wav_header, AudioData};
use crate::text::{chars_of, copy_string, is_blank, owned, push_str, str_is_blank};
use vstd::prelude::*;

verus! {

pub const DEFAULT_BASE_URL: &'static str = "https://api.openai.com/v1";

pub const DEFAULT_MODEL: &'static str = "gpt-4o-mini-transcribe";

#[derive(Debug, Clone, PartialEq, Eq)]
pub struct OpenAiConfig {
    pub base_url: String,
    pub model: String,
    /// ISO-639-1 code such as `"ja"`. `None` lets the API auto-detect.
    pub language: Option<String>,
    pub timeout_secs: u64,
}

impl Default for OpenAiConfig {
    fn default() -> (r: Self)
        ensures
            r.base_url@ == DEFAULT_BASE_URL@,
            r.model@ == DEFAULT_MODEL@,
            r.language is None,
            r.timeout_secs == 30,
    {
        OpenAiConfig {
            base_url: owned(DEFAULT_BASE_URL),
            model: owned(DEFAULT_MODEL),
            language: None,
            timeout_secs: 30,
        }
    }
}

/// `s` without its trailing `/` characters (`str::trim_end_matches('/')`).
pub open spec fn without_trailing_slashes(s: Seq<char>) -> Seq<char>
    decreases s.len(),
{
    if s.len() > 0 && s.last() == '/' {
        without_trailing_slashes(s.drop_last())
    } else {
        s
    }
}

proof fn lemma_without_trailing_slashes(s: Seq<char>, k: int)
    requires
        0 <= k <= s.len(),
        forall|j: int| k <= j < s.len() ==> #[trigger] s[j] == '/',
    ensures
        without_trailing_slashes(s) == without_trailing_slashes(s.subrange(0, k)),
    decreases s.len() - k,
{
    if k < s.len() {
        let t = s.drop_last();
        lemma_without_trailing_slashes(t, k);
        assert(t.subrange(0, k) =~= s.subrange(0, k));
    } else {
        assert(s.subrange(0, k) =~= s);
    }
}

impl OpenAiConfig {
    /// The non-file multipart fields for one request: the model, the JSON
    /// response format, and the language when one is set.
    pub fn request_fields(&self) -> (r: Vec<(&'static str, String)>)
        ensures
            r@.len() == if self.language is Some { 3int } else { 2int },
            r@[0].0@ == "model"@,
            r@[0].1@ == self.model@,
            r@[1].0@ == "response_format"@,
            r@[1].1@ == "json"@,
            self.language matches Some(l) ==> r@[2].0@ == "language"@ && r@[2].1@ == l@,
    {
        let mut fields: Vec<(&'static str, String)> = Vec::new();
        fields.push(("model", self.model.clone()));
        fields.push(("response_format", owned("json")));
        match &self.language {
            Some(language) => {
                fields.push(("language", language.clone()));
            },
            None => {},
        }
        fields
    }

    /// `<base_url without trailing slashes>/audio/transcriptions`.
    pub fn endpoint(&self) -> (r: String)
        ensures
            r@ == without_trailing_slashes(self.base_url@) + "/audio/transcriptions"@,
    {
        let chars = chars_of(self.base_url.as_str());
        let mut end: usize = chars.len();
        while end > 0 && chars[end - 1] == '/'
            invariant
                end <= chars.len(),
                forall|j: int| end <= j < chars.len() ==> #[trigger] chars@[j] == '/',
            decreases end,
        {
            end = end - 1;
        }
        proof {
            lemma_without_trailing_slashes(chars@, end as int);
            let kept = chars@.subrange(0, end as int);
            assert(without_trailing_slashes(kept) == kept) by {
                if kept.len() > 0 {
                    assert(kept.last() == chars@[end - 1]);
                }
            }
        }
        let mut r = String::new();
        let mut i: usize = 0;
        while i < end
            invariant
                end <= chars.len(),
                i <= end,
                r@ == chars@.subrange(0, i as int),
            decreases end - i,
        {
            crate::text::push_char(&mut r, chars[i]);
            i = i + 1;
            assert(r@ =~= chars@.subrange(0, i as int));
        }
        push_str(&mut r, "/audio/transcriptions");
        r
    }
}

/// How an HTTP status and the decoded body map to the vendor-neutral
/// result. `success_text` is the `text` field of a success body, or why it
/// could not be read; `error_message` is the `error.message` field of an
/// error body, if it could be read.
pub open spec fn response_result_ok(
    status: u16,
    success_text: Result<String, String>,
    error_message: Option<String>,
    r: Result<String, TranscriptionError>,
) -> bool {
    if 200 <= status <= 299 {
        match success_text {
            Ok(t) => r == Ok::<String, TranscriptionError>(t),
            Err(why) => r matches Err(TranscriptionError::InvalidResponse(m)) && m@ == why@,
        }
    } else if status == 401 || status == 403 {
        r == Err::<String, TranscriptionError>(TranscriptionError::Unauthorized)
    } else if status == 429 {
        r == Err::<String, TranscriptionError>(TranscriptionError::RateLimited)
    } else {
        r matches Err(TranscriptionError::Api { status: s, message: m }) && s == status && m@ == (
        match error_message {
            Some(em) => em@,
            None => "unexpected response"@,
        })
    }
}

/// Maps an HTTP status plus what the body held to the vendor-neutral result:
/// 2xx gives the text (or `InvalidResponse` when the body held none),
/// 401/403 `Unauthorized`, 429 `RateLimited`, anything else `Api` with the
/// status and the API's own message, never the raw body.
pub fn response_outcome(
    status: u16,
    success_text: Result<String, String>,
    error_message: Option<String>,
) -> (r: Result<String, TranscriptionError>)
    ensures
        response_result_ok(status, success_text, error_message, r),
        (r matches Err(TranscriptionError::Unauthorized)) <==> (status == 401 || status == 403),
        (r matches Err(TranscriptionError::RateLimited)) <==> status == 429,
        !(200 <= status && status <= 299) && status != 401 && status != 403 && status != 429 ==> (
        r matches Err(TranscriptionError::Api { status: s, message: m }) && s == status && (
        error_message matches Some(em) ==> m@ == em@) && (error_message is None ==> m@
            == "unexpected response"@)),
{
    if 200 <= status && status <= 299 {
        match success_text {
            Ok(t) => Ok(t),
            Err(why) => Err(TranscriptionError::InvalidResponse(why)),
        }
    } else if status == 401 || status == 403 {
        Err(TranscriptionError::Unauthorized)
    } else if status == 429 {
        Err(TranscriptionError::RateLimited)
    } else {
        let message = match error_message {
            Some(m) => m,
            None => owned("unexpected response"),
        };
        Err(TranscriptionError::Api { status, message })
    }
}

/// Which error each status gives: the key is reported rejected only for 401
/// and 403, the quota only for 429, and every other status outside 2xx is an
/// API error carrying that very status and the API's own message (or
/// "unexpected response" where the body held none); a 2xx status never
/// gives any of these.
pub proof fn statuses_map_to_their_own_errors(
    status: u16,
    success_text: Result<String, String>,
    error_message: Option<String>,
    r: Result<String, TranscriptionError>,
)
    requires
        response_result_ok(status, success_text, error_message, r),
    ensures
        (r matches Err(TranscriptionError::Unauthorized)) <==> (status == 401 || status == 403),
        (r matches Err(TranscriptionError::RateLimited)) <==> status == 429,
        (r is Ok || r matches Err(TranscriptionError::InvalidResponse(_))) <==> (200 <= status
            && status <= 299),
        !(200 <= status && status <= 299) && status != 401 && status != 403 && status != 429 ==> (
        r matches Err(TranscriptionError::Api { status: s, message: m }) && s == status && (
        error_message matches Some(em) ==> m@ == em@) && (error_message is None ==> m@
            == "unexpected response"@)),
        200 <= status && status <= 299 ==> (success_text matches Ok(t) ==> r matches Ok(u)
            && u@ == t@),
{
}

/// The API key a request is sent with: the configured one, unless it is
/// missing or blank, which fails with `MissingApiKey` before any upload.
pub fn request_key(api_key: &Option<String>) -> (r: Result<String, TranscriptionError>)
    ensures
        match api_key {
            Some(k) => if is_blank(k@) {
                r matches Err(TranscriptionError::MissingApiKey)
            } else {
                r matches Ok(s) && s@ == k@
            },
            None => r matches Err(TranscriptionError::MissingApiKey),
        },
{
    match api_key {
        Some(k) => if str_is_blank(k.as_str()) {
            Err(TranscriptionError::MissingApiKey)
        } else {
            Ok(copy_string(k))
        },
        None => Err(TranscriptionError::MissingApiKey),
    }
}

/// The WAV file a recording is uploaded as. Its header states sizes in 32
/// bits, so a recording too long for them fails as a network error before
/// anything is sent.
pub fn wav_upload(audio: &AudioData) -> (r: Result<Vec<u8>, TranscriptionError>)
    ensures
        audio@.1.len() * 2 + 36 <= u32::MAX && audio@.0 * 2 <= u32::MAX ==> (r matches Ok(bytes)
            && bytes@ == wav_header(audio@.0, (audio@.1.len() * 2) as u32) + pcm_bytes(audio@.1)),
        !(audio@.1.len() * 2 + 36 <= u32::MAX && audio@.0 * 2 <= u32::MAX) ==> (r matches Err(
            TranscriptionError::Network(m),
        ) && m@ == "recording too large to upload"@),
{
    let n = audio.samples().len();
    if n > (4294967295usize - 36) / 2 || audio.sample_rate() > 4294967295u32 / 2 {
        proof {
            reveal_strlit("recording too large to upload");
        }
        return Err(TranscriptionError::Network(owned("recording too large to upload")));
    }
    Ok(audio.to_wav())
}

#[verifier::external_type_specification]
#[verifier::external_body]
pub struct ExReqwestError(reqwest::Error);

/// What `reqwest::Error::is_timeout` answers for the error: whether a
/// timeout lies anywhere in its chain of sources.
pub uninterp spec fn timed_out(e: reqwest::Error) -> bool;

/// What `reqwest::Error::without_url` returns: the same error with the URL
/// it carried dropped.
pub uninterp spec fn url_dropped(e: reqwest::Error) -> reqwest::Error;

/// How `reqwest::Error` displays itself: what went wrong, followed by the
/// URL where the error still carries one.
pub uninterp spec fn error_text(e: reqwest::Error) -> Seq<char>;

/// `reqwest::Error::is_timeout`.
#[verifier::external_body]
fn is_timeout(e: &reqwest::Error) -> (r: bool)
    ensures
        r == timed_out(*e),
{
    e.is_timeout()
}

/// `reqwest::Error::without_url`.
#[verifier::external_body]
fn without_url(e: reqwest::Error) -> (r: reqwest::Error)
    ensures
        r == url_dropped(e),
{
    e.without_url()
}

/// The error's `Display` text, as `to_string` collects it.
#[verifier::external_body]
fn error_message(e: &reqwest::Error) -> (r: String)
    ensures
        r@ == error_text(*e),
{
    e.to_string()
}

/// How a failed HTTP exchange is reported: a timeout as `Timeout`, anything
/// else as `Network` with the error's text once its URL is dropped, so that
/// a key someone put into a misconfigured base URL never reaches a message.
pub fn map_reqwest_error(err: reqwest::Error) -> (r: TranscriptionError)
    ensures
        timed_out(err) ==> r == TranscriptionError::Timeout,
        !timed_out(err) ==> (r matches TranscriptionError::Network(m) && m@ == error_text(
            url_dropped(err),
        )),
{
    if is_timeout(&err) {
        TranscriptionError::Timeout
    } else {
        let bare = without_url(err);
        TranscriptionError::Network(error_message(&bare))
    }
}

} // verus!
