//! What a client is told when a request fails.
use crate::json::object;
use crate::json::Json;
use crate::json::JsonView;
use crate::model::Duplicate;
use vstd::prelude::*;

verus! {

/// A failed request: its HTTP status and the message for the client.
pub struct ApiError {
    pub status: u16,
    pub message: String,
}

/// What an [`ApiError`] stands for.
pub struct ApiErrorView {
    pub status: u16,
    pub message: Seq<char>,
}

impl View for ApiError {
    type V = ApiErrorView;

    open spec fn view(&self) -> ApiErrorView {
        ApiErrorView { status: self.status, message: self.message@ }
    }
}

impl Duplicate for ApiError {
    fn duplicate(&self) -> (copy: Self) {
        ApiError { status: self.status, message: self.message.clone() }
    }
}

/// The error of a status and a message.
pub open spec fn failure(status: u16, message: Seq<char>) -> ApiErrorView {
    ApiErrorView { status, message }
}

/// A request that breaks a rule of the API.
pub open spec fn bad_request(message: Seq<char>) -> ApiErrorView {
    failure(400, message)
}

/// A resource that does not exist.
pub open spec fn missing(message: Seq<char>) -> ApiErrorView {
    failure(404, message)
}

/// A failure whose cause is not shown to the client.
pub open spec fn internal_failure() -> ApiErrorView {
    failure(500, "internal API error"@)
}

/// The answer while no backend is connected.
pub open spec fn disconnected_failure() -> ApiErrorView {
    failure(503, "app-server disconnected"@)
}

/// Whether a status reports an error of the client.
pub open spec fn client_error(status: u16) -> bool {
    400 <= status < 500
}

/// Whether a status reports an error of the server.
pub open spec fn server_error(status: u16) -> bool {
    500 <= status < 600
}

impl ApiErrorView {
    /// The body of the plain form of the error.
    pub open spec fn body(self) -> JsonView {
        object().entry("error"@, JsonView::Text(self.message))
    }

    /// The body of the compatible form of the error.
    pub open spec fn public_body(self) -> JsonView {
        let kind = if server_error(self.status) {
            "server_error"@
        } else {
            "invalid_request_error"@
        };
        object().entry(
            "error"@,
            object().entry("message"@, JsonView::Text(self.message)).entry(
                "type"@,
                JsonView::Text(kind),
            ).entry("param"@, JsonView::Null).entry("code"@, JsonView::Null),
        )
    }
}

impl ApiError {
    /// The error of a status and a message.
    pub fn new(status: u16, message: &str) -> (error: ApiError)
        ensures
            error@ == failure(status, message@),
    {
        ApiError { status, message: message.to_owned() }
    }

    /// A failure whose cause is not shown to the client.
    pub fn internal() -> (error: ApiError)
        ensures
            error@ == internal_failure(),
    {
        ApiError::new(500, "internal API error")
    }

    /// The body of the response in its plain form.
    pub fn into_response(&self) -> (body: Json)
        ensures
            body@ == self@.body(),
    {
        Json::object().entry("error", Json::string(self.message.as_str()))
    }

    /// The body of the response in its compatible form.
    pub fn public_response(&self) -> (body: Json)
        ensures
            body@ == self@.public_body(),
    {
        let kind = if 500 <= self.status && self.status < 600 {
            "server_error"
        } else {
            "invalid_request_error"
        };
        let inner = Json::object()
            .entry("message", Json::string(self.message.as_str()))
            .entry("type", Json::string(kind))
            .entry("param", Json::Null)
            .entry("code", Json::Null);
        Json::object().entry("error", inner)
    }
}

/// A request that breaks a rule of the API.
pub fn invalid(message: &str) -> (error: ApiError)
    ensures
        error@ == bad_request(message@),
{
    ApiError::new(400, message)
}

/// The answer while no backend is connected.
pub fn disconnected_error() -> (error: ApiError)
    ensures
        error@ == disconnected_failure(),
{
    ApiError::new(503, "app-server disconnected")
}

} // verus!
