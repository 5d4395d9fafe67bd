//! A response as the transport hands it over, and what one exchange came to.

use crate::http::error::{ErrorBody, NetworkError};
use crate::http::header::HeaderField;
use crate::http::ratelimiting::{
    is_server_error, is_success, rate_limits, RateLimitHeaders, TOO_MANY_REQUESTS,
};
use vstd::prelude::*;

verus! {

/// The status for a success without a body.
pub const NO_CONTENT: u16 = 204;

/// A response, undecoded: status, header fields and the bytes of the body.
#[derive(Clone, Debug)]
pub struct RawResponse {
    pub status: u16,
    pub headers: Vec<HeaderField>,
    pub body: Vec<u8>,
}

impl RawResponse {
    /// Whether the status is a success.
    pub fn is_success(&self) -> (r: bool)
        ensures
            r == is_success(self.status),
    {
        200 <= self.status && self.status <= 299
    }

    /// What the headers say about the rate limit.
    pub fn rate_limits(&self) -> (h: RateLimitHeaders)
        ensures
            h == rate_limits(self.headers@),
    {
        RateLimitHeaders::parse(&self.headers)
    }
}

/// What one exchange came to.
#[derive(Clone, Debug)]
pub enum ResponseOutcome {
    /// A status from 200 to 299, with the response.
    Success(RawResponse),
    /// Status 429. `retry_after_ms` is what `Retry-After` asked for, 0 if it
    /// asked for nothing; `is_global` is whether the limit is platform-wide.
    RateLimited { retry_after_ms: u64, is_global: bool },
    /// Another status that is no success and no server error.
    ClientError { status: u16, body: Option<ErrorBody> },
    /// A status from 500 to 599.
    ServerError { status: u16, body: Option<ErrorBody> },
    /// No response came back.
    Network(NetworkError),
}

/// How long a response asks to wait before the next try: what `Retry-After`
/// says, 0 if it says nothing.
pub open spec fn retry_delay(h: RateLimitHeaders) -> u64 {
    match h.retry_after_ms {
        Some(d) => d,
        None => 0,
    }
}

/// What an exchange came to, by the status of the response. `error` is the
/// decoded body of an unsuccessful response, if it could be decoded; it is
/// carried into the client and server errors and not looked at otherwise.
pub open spec fn outcome_of(
    exchange: Result<RawResponse, NetworkError>,
    error: Option<ErrorBody>,
) -> ResponseOutcome {
    match exchange {
        Err(e) => ResponseOutcome::Network(e),
        Ok(raw) => if is_success(raw.status) {
            ResponseOutcome::Success(raw)
        } else if raw.status == TOO_MANY_REQUESTS {
            ResponseOutcome::RateLimited {
                retry_after_ms: retry_delay(rate_limits(raw.headers@)),
                is_global: rate_limits(raw.headers@).global,
            }
        } else if is_server_error(raw.status) {
            ResponseOutcome::ServerError { status: raw.status, body: error }
        } else {
            ResponseOutcome::ClientError { status: raw.status, body: error }
        },
    }
}

/// Classifies an exchange.
pub fn classify(
    exchange: Result<RawResponse, NetworkError>,
    error: Option<ErrorBody>,
) -> (o: ResponseOutcome)
    ensures
        o == outcome_of(exchange, error),
{
    match exchange {
        Err(e) => ResponseOutcome::Network(e),
        Ok(raw) => {
            let status = raw.status;
            if raw.is_success() {
                ResponseOutcome::Success(raw)
            } else if status == TOO_MANY_REQUESTS {
                let h = raw.rate_limits();
                let retry_after_ms = match h.retry_after_ms {
                    Some(d) => d,
                    None => 0,
                };
                ResponseOutcome::RateLimited { retry_after_ms, is_global: h.global }
            } else if 500 <= status && status <= 599 {
                ResponseOutcome::ServerError { status, body: error }
            } else {
                ResponseOutcome::ClientError { status, body: error }
            }
        },
    }
}

} // verus!
