//! Decisions taken on an HTTP response of the API.
//!
//! The application layer reads the status and the body text, parses the body as the
//! expected payload on success or as an error envelope on failure, and hands the
//! outcome to `finish_response`.
use crate::error::{ApiErrorEnvelope, DeepSeekError};
use vstd::prelude::*;

verus! {

/// The status code is in the success class (200 to 299).
pub open spec fn is_success_status(status: u16) -> bool {
    200 <= status < 300
}

/// Whether the status code is in the success class (200 to 299).
pub fn status_is_success(status: u16) -> (res: bool)
    ensures
        res == is_success_status(status),
{
    200 <= status && status < 300
}

/// What came of parsing a response body: on success, the payload or the decoder's
/// message; on failure, the error envelope if the body held one.
pub enum ParsedBody<T> {
    Decoded(Result<T, String>),
    ErrorPayload(Option<ApiErrorEnvelope>),
}

/// The result of a request from its status, body text and parsed body.
pub open spec fn response_outcome<T>(status: u16, body: String, parsed: ParsedBody<T>) -> Result<
    T,
    DeepSeekError,
> {
    match parsed {
        ParsedBody::Decoded(Ok(value)) => Ok(value),
        ParsedBody::Decoded(Err(message)) => Err(
            DeepSeekError::Decode { message, body: Some(body) },
        ),
        ParsedBody::ErrorPayload(Some(envelope)) => Err(
            DeepSeekError::Api { error: envelope.error, status: Some(status), body: Some(body) },
        ),
        ParsedBody::ErrorPayload(None) => Err(DeepSeekError::Http { status, body: Some(body) }),
    }
}

/// Turn a response into the request's result: a decoded payload, a decode error, an API
/// error carrying the envelope, or an HTTP error carrying the status and body.
pub fn finish_response<T>(status: u16, body: String, parsed: ParsedBody<T>) -> (res: Result<
    T,
    DeepSeekError,
>)
    requires
        parsed is Decoded <==> is_success_status(status),
    ensures
        res == response_outcome(status, body, parsed),
        match parsed {
            ParsedBody::Decoded(Ok(value)) => res == Ok::<T, DeepSeekError>(value),
            ParsedBody::Decoded(Err(message)) => res == Err::<T, DeepSeekError>(
                DeepSeekError::Decode { message, body: Some(body) },
            ),
            ParsedBody::ErrorPayload(Some(envelope)) => res == Err::<T, DeepSeekError>(
                DeepSeekError::Api { error: envelope.error, status: Some(status), body: Some(body) },
            ),
            ParsedBody::ErrorPayload(None) => res == Err::<T, DeepSeekError>(
                DeepSeekError::Http { status, body: Some(body) },
            ),
        },
{
    match parsed {
        ParsedBody::Decoded(Ok(value)) => Ok(value),
        ParsedBody::Decoded(Err(message)) => Err(DeepSeekError::decode(message, body)),
        ParsedBody::ErrorPayload(Some(envelope)) => Err(
            DeepSeekError::api(envelope.error, Some(status), Some(body)),
        ),
        ParsedBody::ErrorPayload(None) => Err(DeepSeekError::http(status, body)),
    }
}

/// A response outside the success class never yields a payload: it becomes an API error
/// when its body is an error envelope and an HTTP error otherwise, and either keeps the
/// status code and the raw body.
pub proof fn lemma_failed_status_is_api_or_http_error<T>(
    status: u16,
    body: String,
    parsed: ParsedBody<T>,
)
    requires
        !is_success_status(status),
        parsed is Decoded <==> is_success_status(status),
    ensures
        response_outcome(status, body, parsed) matches Err(e) && match e {
            DeepSeekError::Api { error, status: s, body: b } => s == Some(status) && b == Some(body)
                && (parsed matches ParsedBody::ErrorPayload(Some(envelope)) && error
                == envelope.error),
            DeepSeekError::Http { status: s, body: b } => s == status && b == Some(body)
                && parsed matches ParsedBody::ErrorPayload(None),
            _ => false,
        },
{
}

/// Nothing of what was parsed is altered on the way to the result: a decoded payload is
/// the result itself, a decoder's message is the decode error's message, and an error
/// envelope's payload (message, type, parameter and code alike) is the API error's payload.
pub proof fn lemma_parsed_content_is_kept<T>(status: u16, body: String, parsed: ParsedBody<T>)
    ensures
        parsed matches ParsedBody::Decoded(Ok(v)) ==> response_outcome(status, body, parsed)
            == Ok::<T, DeepSeekError>(v),
        parsed matches ParsedBody::Decoded(Err(m)) ==> (response_outcome(status, body, parsed)
            matches Err(DeepSeekError::Decode { message, body: b }) && message == m && b == Some(
            body,
        )),
        parsed matches ParsedBody::ErrorPayload(Some(envelope)) ==> (response_outcome(
            status,
            body,
            parsed,
        ) matches Err(DeepSeekError::Api { error, status: s, body: b }) && error.message
            == envelope.error.message && error.error_type == envelope.error.error_type
            && error.param == envelope.error.param && error.code == envelope.error.code && s
            == Some(status) && b == Some(body)),
        parsed matches ParsedBody::ErrorPayload(None) ==> (response_outcome(status, body, parsed)
            matches Err(DeepSeekError::Http { status: s, body: b }) && s == status && b == Some(
            body,
        )),
{
}

/// A response in the success class never becomes an API or HTTP error: it yields the
/// decoded payload, or a decode error that keeps the raw body.
pub proof fn lemma_success_status_is_value_or_decode_error<T>(
    status: u16,
    body: String,
    parsed: ParsedBody<T>,
)
    requires
        is_success_status(status),
        parsed is Decoded <==> is_success_status(status),
    ensures
        match response_outcome(status, body, parsed) {
            Ok(_) => parsed matches ParsedBody::Decoded(Ok(_)),
            Err(e) => e matches DeepSeekError::Decode { body: b, .. } && b == Some(body),
        },
{
}

} // verus!
