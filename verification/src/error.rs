//! Error types for DeepSeek API interactions.
use crate::text::{
    decimal, optional_number_debug_text, optional_str_debug_text, optional_text, push_decimal,
    push_optional_number_debug, push_optional_str_debug,
};
use vstd::prelude::*;

verus! {

/// The error type of the `reqwest` crate; carried, not inspected, except through the
/// classification flags below.
#[verifier::external_type_specification]
#[verifier::external_body]
pub struct ExReqwestError(reqwest::Error);

/// Error payload returned by DeepSeek APIs.
#[derive(Debug, Clone, PartialEq, Eq)]
pub struct ApiError {
    pub message: String,
    /// The `type` member of the payload.
    pub error_type: String,
    /// Present only for API error payloads.
    pub param: Option<String>,
    /// Present only for API error payloads.
    pub code: Option<String>,
}

/// Envelope used by some API endpoints: `{ "error": { ... } }`.
#[derive(Debug, Clone, PartialEq, Eq)]
pub struct ApiErrorEnvelope {
    pub error: ApiError,
}

/// Categorized reqwest error kinds for diagnostics.
#[derive(Debug, Clone, Copy, PartialEq, Eq, Structural)]
pub enum ReqwestErrorKind {
    Decode,
    Timeout,
    Connect,
    Request,
    Body,
    Status,
}

impl ReqwestErrorKind {
    /// The lower-case name of the kind.
    pub open spec fn name(self) -> Seq<char> {
        match self {
            ReqwestErrorKind::Decode => "decode"@,
            ReqwestErrorKind::Timeout => "timeout"@,
            ReqwestErrorKind::Connect => "connect"@,
            ReqwestErrorKind::Request => "request"@,
            ReqwestErrorKind::Body => "body"@,
            ReqwestErrorKind::Status => "status"@,
        }
    }

    /// The lower-case name of the kind, as it appears in error messages.
    pub fn as_str(&self) -> (res: &'static str)
        ensures
            res@ == self.name(),
    {
        match self {
            ReqwestErrorKind::Decode => "decode",
            ReqwestErrorKind::Timeout => "timeout",
            ReqwestErrorKind::Connect => "connect",
            ReqwestErrorKind::Request => "request",
            ReqwestErrorKind::Body => "body",
            ReqwestErrorKind::Status => "status",
        }
    }
}

/// Transport-level failure from reqwest.
#[derive(Debug)]
pub struct TransportError {
    pub source: reqwest::Error,
    pub kind: Option<ReqwestErrorKind>,
}

/// Unified error type for this crate.
#[derive(Debug)]
pub enum DeepSeekError {
    /// API returned a structured error payload.
    Api { error: ApiError, status: Option<u16>, body: Option<String> },
    /// Non-JSON or otherwise unrecognized HTTP error.
    Http { status: u16, body: Option<String> },
    /// Response could not be decoded into the expected schema.
    Decode { message: String, body: Option<String> },
    /// Transport errors from reqwest.
    Transport(TransportError),
}

/// The kind that a transport error is filed under, from what reqwest reports of it:
/// the first of decode, timeout, connect, request, body and status that holds.
pub open spec fn kind_for(
    decode: bool,
    timeout: bool,
    connect: bool,
    request: bool,
    body: bool,
    status: bool,
) -> Option<ReqwestErrorKind> {
    if decode {
        Some(ReqwestErrorKind::Decode)
    } else if timeout {
        Some(ReqwestErrorKind::Timeout)
    } else if connect {
        Some(ReqwestErrorKind::Connect)
    } else if request {
        Some(ReqwestErrorKind::Request)
    } else if body {
        Some(ReqwestErrorKind::Body)
    } else if status {
        Some(ReqwestErrorKind::Status)
    } else {
        None
    }
}

/// A transport error is filed under the first of decode, timeout, connect, request, body
/// and status that reqwest reports of it, and under no kind when it reports none: a
/// connection failure that is also a request error is a connect error, a timeout that is
/// also a connection failure is a timeout, and so on.
pub proof fn lemma_kind_is_first_reported(
    decode: bool,
    timeout: bool,
    connect: bool,
    request: bool,
    body: bool,
    status: bool,
)
    ensures
        decode ==> kind_for(decode, timeout, connect, request, body, status) == Some(
            ReqwestErrorKind::Decode,
        ),
        !decode && timeout ==> kind_for(decode, timeout, connect, request, body, status) == Some(
            ReqwestErrorKind::Timeout,
        ),
        !decode && !timeout && connect ==> kind_for(decode, timeout, connect, request, body, status)
            == Some(ReqwestErrorKind::Connect),
        !decode && !timeout && !connect && request ==> kind_for(
            decode,
            timeout,
            connect,
            request,
            body,
            status,
        ) == Some(ReqwestErrorKind::Request),
        !decode && !timeout && !connect && !request && body ==> kind_for(
            decode,
            timeout,
            connect,
            request,
            body,
            status,
        ) == Some(ReqwestErrorKind::Body),
        !decode && !timeout && !connect && !request && !body && status ==> kind_for(
            decode,
            timeout,
            connect,
            request,
            body,
            status,
        ) == Some(ReqwestErrorKind::Status),
        kind_for(decode, timeout, connect, request, body, status) is None <==> !(decode || timeout
            || connect || request || body || status),
{
}

/// Classify a transport error from the answers of reqwest's `is_decode`, `is_timeout`,
/// `is_connect`, `is_request`, `is_body` and `is_status`, asked in that order.
pub fn classify_reqwest_error(
    decode: bool,
    timeout: bool,
    connect: bool,
    request: bool,
    body: bool,
    status: bool,
) -> (res: Option<ReqwestErrorKind>)
    ensures
        res == kind_for(decode, timeout, connect, request, body, status),
        decode ==> res == Some(ReqwestErrorKind::Decode),
        !decode && timeout ==> res == Some(ReqwestErrorKind::Timeout),
        !decode && !timeout && connect ==> res == Some(ReqwestErrorKind::Connect),
        !decode && !timeout && !connect && request ==> res == Some(ReqwestErrorKind::Request),
        !decode && !timeout && !connect && !request && body ==> res == Some(
            ReqwestErrorKind::Body,
        ),
        !decode && !timeout && !connect && !request && !body && status ==> res == Some(
            ReqwestErrorKind::Status,
        ),
        res is None <==> !(decode || timeout || connect || request || body || status),
{
    if decode {
        Some(ReqwestErrorKind::Decode)
    } else if timeout {
        Some(ReqwestErrorKind::Timeout)
    } else if connect {
        Some(ReqwestErrorKind::Connect)
    } else if request {
        Some(ReqwestErrorKind::Request)
    } else if body {
        Some(ReqwestErrorKind::Body)
    } else if status {
        Some(ReqwestErrorKind::Status)
    } else {
        None
    }
}

/// Whether the error arose while decoding a response body: what `reqwest::Error::is_decode` answers. It depends on the error
/// value alone.
pub uninterp spec fn reqwest_error_is_decode(err: reqwest::Error) -> bool;

/// Calls `reqwest::Error::is_decode`; the answer is `reqwest_error_is_decode` of the error.
#[verifier::external_body]
fn reqwest_is_decode(err: &reqwest::Error) -> (res: bool)
    ensures
        res == reqwest_error_is_decode(*err),
{
    err.is_decode()
}

/// Whether the error, or an error in its source chain, is a timeout: what `reqwest::Error::is_timeout` answers. It depends on the error
/// value alone.
pub uninterp spec fn reqwest_error_is_timeout(err: reqwest::Error) -> bool;

/// Calls `reqwest::Error::is_timeout`; the answer is `reqwest_error_is_timeout` of the error.
#[verifier::external_body]
fn reqwest_is_timeout(err: &reqwest::Error) -> (res: bool)
    ensures
        res == reqwest_error_is_timeout(*err),
{
    err.is_timeout()
}

/// Whether an error in the source chain is a connection failure: what `reqwest::Error::is_connect` answers. It depends on the error
/// value alone.
pub uninterp spec fn reqwest_error_is_connect(err: reqwest::Error) -> bool;

/// Calls `reqwest::Error::is_connect`; the answer is `reqwest_error_is_connect` of the error.
#[verifier::external_body]
fn reqwest_is_connect(err: &reqwest::Error) -> (res: bool)
    ensures
        res == reqwest_error_is_connect(*err),
{
    err.is_connect()
}

/// Whether the error arose while sending the request: what `reqwest::Error::is_request` answers. It depends on the error
/// value alone.
pub uninterp spec fn reqwest_error_is_request(err: reqwest::Error) -> bool;

/// Calls `reqwest::Error::is_request`; the answer is `reqwest_error_is_request` of the error.
#[verifier::external_body]
fn reqwest_is_request(err: &reqwest::Error) -> (res: bool)
    ensures
        res == reqwest_error_is_request(*err),
{
    err.is_request()
}

/// Whether the error concerns a request or response body: what `reqwest::Error::is_body` answers. It depends on the error
/// value alone.
pub uninterp spec fn reqwest_error_is_body(err: reqwest::Error) -> bool;

/// Calls `reqwest::Error::is_body`; the answer is `reqwest_error_is_body` of the error.
#[verifier::external_body]
fn reqwest_is_body(err: &reqwest::Error) -> (res: bool)
    ensures
        res == reqwest_error_is_body(*err),
{
    err.is_body()
}

/// Whether the error came from a response's error status: what `reqwest::Error::is_status` answers. It depends on the error
/// value alone.
pub uninterp spec fn reqwest_error_is_status(err: reqwest::Error) -> bool;

/// Calls `reqwest::Error::is_status`; the answer is `reqwest_error_is_status` of the error.
#[verifier::external_body]
fn reqwest_is_status(err: &reqwest::Error) -> (res: bool)
    ensures
        res == reqwest_error_is_status(*err),
{
    err.is_status()
}

/// The text that `<reqwest::Error as Display>::fmt` writes for the error: a description
/// of its kind, the URL when there is one. It depends on the error value alone.
pub uninterp spec fn reqwest_error_display(err: reqwest::Error) -> Seq<char>;

/// Calls `<reqwest::Error as Display>::fmt` through `to_string`; the text is
/// `reqwest_error_display` of the error.
#[verifier::external_body]
fn reqwest_error_text(err: &reqwest::Error) -> (res: String)
    ensures
        res@ == reqwest_error_display(*err),
{
    err.to_string()
}

/// Message of a transport error: `reqwest <kind> error: <source>`, or
/// `reqwest error: <source>` when the error has no kind.
pub open spec fn transport_text(kind: Option<ReqwestErrorKind>, source: Seq<char>) -> Seq<char> {
    match kind {
        Some(k) => "reqwest "@ + k.name() + " error: "@ + source,
        None => "reqwest error: "@ + source,
    }
}

/// Render the message of a transport error from its kind and the text of its source.
pub fn transport_message(kind: Option<ReqwestErrorKind>, source: &str) -> (res: String)
    ensures
        res@ == transport_text(kind, source@),
{
    match kind {
        Some(k) => {
            let mut out = String::from_str("reqwest ");
            out.append(k.as_str());
            out.append(" error: ");
            out.append(source);
            out
        },
        None => {
            let mut out = String::from_str("reqwest error: ");
            out.append(source);
            out
        },
    }
}

impl DeepSeekError {
    /// An API error carrying the parsed payload.
    pub fn api(error: ApiError, status: Option<u16>, body: Option<String>) -> (res: DeepSeekError)
        ensures
            res == (DeepSeekError::Api { error, status, body }),
    {
        DeepSeekError::Api { error, status, body }
    }

    /// An HTTP error with the status code and the raw body.
    pub fn http(status: u16, body: String) -> (res: DeepSeekError)
        ensures
            res == (DeepSeekError::Http { status, body: Some(body) }),
    {
        DeepSeekError::Http { status, body: Some(body) }
    }

    /// A decode error with the decoder's message and the raw body.
    pub fn decode(message: String, body: String) -> (res: DeepSeekError)
        ensures
            res == (DeepSeekError::Decode { message, body: Some(body) }),
    {
        DeepSeekError::Decode { message, body: Some(body) }
    }

    /// A decode error with an empty body, for failures that happen before any body is read.
    pub fn decode_empty_body(message: String) -> (res: DeepSeekError)
        ensures
            res matches DeepSeekError::Decode { message: m, body: Some(b) } && m == message && b@
                == Seq::<char>::empty(),
    {
        DeepSeekError::Decode { message, body: Some(String::new()) }
    }

    /// Wrap a reqwest error, classified by what reqwest reports of it.
    pub fn from_reqwest(value: reqwest::Error) -> (res: DeepSeekError)
        ensures
            res matches DeepSeekError::Transport(t) && t.source == value && t.kind == kind_for(
                reqwest_error_is_decode(value),
                reqwest_error_is_timeout(value),
                reqwest_error_is_connect(value),
                reqwest_error_is_request(value),
                reqwest_error_is_body(value),
                reqwest_error_is_status(value),
            ),
    {
        let kind = classify_reqwest_error(
            reqwest_is_decode(&value),
            reqwest_is_timeout(&value),
            reqwest_is_connect(&value),
            reqwest_is_request(&value),
            reqwest_is_body(&value),
            reqwest_is_status(&value),
        );
        DeepSeekError::Transport(TransportError { source: value, kind })
    }

    /// The reqwest error behind a transport failure; none for the other variants.
    pub fn transport_source(&self) -> (res: Option<&reqwest::Error>)
        ensures
            match self {
                DeepSeekError::Transport(t) => res == Some(&t.source),
                _ => res is None,
            },
    {
        match self {
            DeepSeekError::Transport(t) => Some(&t.source),
            _ => None,
        }
    }

    /// The text that the error displays; a transport error shows the reqwest error's own
    /// text at its end.
    pub open spec fn display_text(self) -> Seq<char> {
        match self {
            DeepSeekError::Api { error, status, body } => "DeepSeek API error: "@ + error.message@
                + " (type="@ + error.error_type@ + ", param="@ + optional_str_debug_text(
                optional_text(error.param),
            ) + ", code="@ + optional_str_debug_text(optional_text(error.code)) + ", status="@
                + optional_number_debug_text(
                match status {
                    None => None,
                    Some(k) => Some(k as nat),
                },
            ) + ")"@,
            DeepSeekError::Http { status, body } => "HTTP error: status="@ + decimal(status as nat)
                + ", body="@ + optional_str_debug_text(optional_text(body)),
            DeepSeekError::Decode { message, body } => "Decode error: "@ + message@ + " (body="@
                + optional_str_debug_text(optional_text(body)) + ")"@,
            DeepSeekError::Transport(t) => transport_text(t.kind, reqwest_error_display(t.source)),
        }
    }

    /// The text that the error displays.
    pub fn to_display_string(&self) -> (res: String)
        ensures
            res@ == self.display_text(),
    {
        match self {
            DeepSeekError::Api { error, status, .. } => {
                let mut out = String::from_str("DeepSeek API error: ");
                out.append(error.message.as_str());
                out.append(" (type=");
                out.append(error.error_type.as_str());
                out.append(", param=");
                push_optional_str_debug(&mut out, &error.param);
                out.append(", code=");
                push_optional_str_debug(&mut out, &error.code);
                out.append(", status=");
                push_optional_number_debug(&mut out, *status);
                out.append(")");
                out
            },
            DeepSeekError::Http { status, body } => {
                let mut out = String::from_str("HTTP error: status=");
                push_decimal(&mut out, *status as u64);
                out.append(", body=");
                push_optional_str_debug(&mut out, body);
                out
            },
            DeepSeekError::Decode { message, body } => {
                let mut out = String::from_str("Decode error: ");
                out.append(message.as_str());
                out.append(" (body=");
                push_optional_str_debug(&mut out, body);
                out.append(")");
                out
            },
            DeepSeekError::Transport(transport) => {
                let source = reqwest_error_text(&transport.source);
                transport_message(transport.kind, source.as_str())
            },
        }
    }
}

} // verus!
