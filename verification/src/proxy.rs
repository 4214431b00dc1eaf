//! From a client's payload to the request for the selected backend, and from
//! the backend's answer to the text for the client.
//!
//! The exchange itself is not made here. `ProxyTranslator::prepare` says what
//! to send, and `ProxyTranslator::complete` reads what came back.

use crate::outside::{
    check_uri, header_value_text, is_header_value, json_member_text, json_string_member,
    lossy_text, uri_rejection, utf8_lossy,
};
use vstd::prelude::*;
use vstd::string::StringExecFns;

verus! {

/// The path that every backend serves.
pub const UPSTREAM_PATH: &'static str = "/echo";

/// The content type that every upstream request declares.
pub const CONTENT_TYPE: &'static str = "application/json";

/// The member of the backend's JSON answer that holds its message.
pub const MESSAGE_FIELD: &'static str = "message";

/// The method of an upstream request. Every request is a POST.
#[derive(Debug, Clone, Copy, PartialEq, Eq, Structural)]
pub enum Method {
    Post,
}

/// What is sent to a backend for one client payload.
#[derive(Debug, Clone, PartialEq, Eq)]
pub struct UpstreamRequest {
    pub method: Method,
    /// The URI of the request: the backend's address, then `UPSTREAM_PATH`.
    pub target: String,
    /// The value of the `host` header: the backend's address.
    pub host: String,
    /// The value of the `content-type` header.
    pub content_type: String,
    /// The client's payload, read as text.
    pub body: String,
}

/// Why a payload got no answer from its backend.
#[derive(Debug, Clone, PartialEq, Eq)]
pub enum ProxyError {
    /// The backend could not be reached, or its address is no URI; with the
    /// cause in words.
    UpstreamFailure(String),
    /// The backend answered, but not with a JSON object that has a string
    /// member `message`.
    InvalidResponse,
}

/// What a backend answered: the message in its JSON body.
#[derive(Debug, Clone, PartialEq, Eq)]
pub struct UpstreamResponse {
    pub message: String,
}

/// The text that is written back to the client.
#[derive(Debug, Clone, PartialEq, Eq)]
pub struct ClientResponse {
    pub text: String,
}

/// Why no request can be made for the backend at `selected`, in words;
/// `None` where one can. The request's URI is tested first, then the value of
/// its `host` header.
pub open spec fn request_failure(selected: Seq<char>) -> Option<Seq<char>> {
    match uri_rejection(selected + UPSTREAM_PATH@) {
        Some(reason) => Some("Invalid URI: "@ + reason),
        None => if header_value_text(selected) {
            None
        } else {
            Some("Invalid host header"@)
        },
    }
}

/// `request` is the request for `payload` to the backend at `selected`.
pub open spec fn is_request_for(
    request: UpstreamRequest,
    selected: Seq<char>,
    payload: Seq<u8>,
) -> bool {
    &&& request.method == Method::Post
    &&& request.target@ == selected + UPSTREAM_PATH@
    &&& request.host@ == selected
    &&& request.content_type@ == CONTENT_TYPE@
    &&& request.body@ == utf8_lossy(payload)
}

/// The line that tells the client the backend's message.
pub open spec fn response_line(message: Seq<char>) -> Seq<char> {
    "Response from server "@ + message + ":"@
}

/// The whole text for the client: the line, and the newline that ends it.
pub open spec fn response_text(message: Seq<char>) -> Seq<char> {
    response_line(message) + "\n"@
}

/// The message in a backend's answer `body`, where it has one.
pub open spec fn body_message(body: Seq<u8>) -> Option<Seq<char>> {
    json_member_text(utf8_lossy(body), MESSAGE_FIELD@)
}

impl UpstreamResponse {
    /// Makes the answer of what was found under `message` in the body.
    pub fn from_member(member: Option<String>) -> (result: Result<UpstreamResponse, ProxyError>)
        ensures
            match member {
                Some(message) => result == Ok::<UpstreamResponse, ProxyError>(
                    UpstreamResponse { message },
                ),
                None => result == Err::<UpstreamResponse, ProxyError>(
                    ProxyError::InvalidResponse,
                ),
            },
    {
        match member {
            Some(message) => Ok(UpstreamResponse { message }),
            None => Err(ProxyError::InvalidResponse),
        }
    }

    /// Reads the body of a backend's answer: bytes to text, bad sequences
    /// replaced, and the text as a JSON object with a string member `message`.
    pub fn decode(body: &[u8]) -> (result: Result<UpstreamResponse, ProxyError>)
        ensures
            match body_message(body@) {
                Some(message) => result matches Ok(response) && response.message@ == message,
                None => result == Err::<UpstreamResponse, ProxyError>(
                    ProxyError::InvalidResponse,
                ),
            },
    {
        let text: String = lossy_text(body);
        UpstreamResponse::from_member(json_string_member(text.as_str(), MESSAGE_FIELD))
    }
}

impl ClientResponse {
    /// Words the backend's message for the client.
    pub fn render(response: &UpstreamResponse) -> (rendered: ClientResponse)
        ensures
            rendered.text@ == response_text(response.message@),
    {
        let mut text: String = "Response from server ".to_owned();
        text.append(response.message.as_str());
        text.append(":");
        text.append("\n");
        ClientResponse { text }
    }
}

/// The two halves of proxying one payload. Between them lies the exchange
/// with the backend, which the caller makes.
pub struct ProxyTranslator;

impl ProxyTranslator {
    /// The request that carries `payload` to the backend at `selected`.
    ///
    /// Fails with `UpstreamFailure` where the backend's address, followed by
    /// the path, is no URI, or the address cannot be a header's value.
    pub fn prepare(selected: &str, payload: &[u8]) -> (result: Result<
        UpstreamRequest,
        ProxyError,
    >)
        ensures
            match result {
                Ok(request) => {
                    &&& request_failure(selected@) is None
                    &&& is_request_for(request, selected@, payload@)
                },
                Err(error) => {
                    &&& error matches ProxyError::UpstreamFailure(cause)
                    &&& request_failure(selected@) == Some(cause@)
                },
            },
    {
        let mut target: String = selected.to_owned();
        target.append(UPSTREAM_PATH);
        match check_uri(target.as_str()) {
            Some(reason) => {
                let mut cause: String = "Invalid URI: ".to_owned();
                cause.append(reason.as_str());
                return Err(ProxyError::UpstreamFailure(cause));
            },
            None => {},
        }
        if !is_header_value(selected) {
            return Err(ProxyError::UpstreamFailure("Invalid host header".to_owned()));
        }
        Ok(
            UpstreamRequest {
                method: Method::Post,
                target,
                host: selected.to_owned(),
                content_type: CONTENT_TYPE.to_owned(),
                body: lossy_text(payload),
            },
        )
    }

    /// The text for the client, made of the body that the backend answered
    /// with. Fails with `InvalidResponse` where the body holds no message.
    pub fn complete(body: &[u8]) -> (result: Result<ClientResponse, ProxyError>)
        ensures
            match body_message(body@) {
                Some(message) => result matches Ok(response) && response.text@ == response_text(
                    message,
                ),
                None => result == Err::<ClientResponse, ProxyError>(ProxyError::InvalidResponse),
            },
    {
        match UpstreamResponse::decode(body) {
            Ok(response) => Ok(ClientResponse::render(&response)),
            Err(error) => Err(error),
        }
    }
}

} // verus!
