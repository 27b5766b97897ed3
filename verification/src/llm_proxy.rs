//! How failures of the LLM service are answered.

use vstd::prelude::*;
use vstd::string::StringExecFns;
use crate::error::ServerError;
use crate::num::{dec_of, dec_string};

verus! {

broadcast use vstd::string::group_string_axioms;

/// A failure of the LLM service.
#[derive(Debug)]
pub enum LlmError {
    /// The HTTP exchange with the provider failed.
    Http(String),
    /// The provider answered with an error.
    Api(String),
    /// The provider did not answer in time.
    Timeout,
    /// The provider's answer could not be read.
    InvalidResponse(String),
    /// The provider refused for now, possibly saying when to retry.
    RateLimited { retry_after_secs: Option<u64> },
}

/// The message of a rate-limit refusal.
pub open spec fn rate_limited_message(retry_after_secs: Option<u64>) -> Seq<char> {
    match retry_after_secs {
        Some(s) => "LLM rate limited; retry after "@ + dec_of(s as nat) + " seconds"@,
        None => "LLM rate limited; try again later"@,
    }
}

/// Maps a failure of the LLM service to the server error it is answered
/// with: provider failures are upstream errors, a timeout an upstream
/// timeout, a rate limit a temporary unavailability.
pub fn map_llm_error(err: LlmError) -> (r: ServerError)
    ensures
        match err {
            LlmError::Http(m) => r matches ServerError::UpstreamError(s) && s@ == "LLM HTTP error: "@ + m@,
            LlmError::Api(m) => r matches ServerError::UpstreamError(s) && s@ == "LLM API error: "@ + m@,
            LlmError::Timeout => r matches ServerError::UpstreamTimeout(s) && s@ == "LLM request timed out"@,
            LlmError::InvalidResponse(m) => r matches ServerError::UpstreamError(s) && s@ == "Invalid LLM response: "@
                + m@,
            LlmError::RateLimited { retry_after_secs } => r matches ServerError::ServiceUnavailable(s) && s@
                == rate_limited_message(retry_after_secs),
        },
{
    match err {
        LlmError::Http(m) => ServerError::UpstreamError("LLM HTTP error: ".to_string().concat(m.as_str())),
        LlmError::Api(m) => ServerError::UpstreamError("LLM API error: ".to_string().concat(m.as_str())),
        LlmError::Timeout => ServerError::UpstreamTimeout("LLM request timed out".to_string()),
        LlmError::InvalidResponse(m) => ServerError::UpstreamError(
            "Invalid LLM response: ".to_string().concat(m.as_str()),
        ),
        LlmError::RateLimited { retry_after_secs } => {
            let msg = match retry_after_secs {
                Some(secs) => {
                    let d = dec_string(secs);
                    "LLM rate limited; retry after ".to_string().concat(d.as_str()).concat(" seconds")
                },
                None => "LLM rate limited; try again later".to_string(),
            };
            ServerError::ServiceUnavailable(msg)
        },
    }
}

/// The error when the server has no LLM service.
pub fn llm_not_configured() -> (r: ServerError)
    ensures
        r matches ServerError::ServiceUnavailable(s) && s@ == "LLM service is not configured on the server"@,
{
    ServerError::ServiceUnavailable("LLM service is not configured on the server".to_string())
}

} // verus!
