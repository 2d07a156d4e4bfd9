//! The error taxonomy of the client: transport failures, structured errors
//! reported by the service, and responses whose shape breaks the protocol.
use vstd::prelude::*;

verus! {

/// Mathematical model of an [`ApiError`]: the same three cases, with every
/// string abstracted to its character sequence.
pub ghost enum ApiErrorModel {
    /// The request never produced a response (DNS, connect or IO failure).
    Transport { message: Seq<char> },
    /// The service rejected the request with a structured `{error, message}` body.
    Api { error: Seq<char>, message: Seq<char> },
    /// The response violated the documented shape; `field` names the missing
    /// or invalid piece.
    MalformedResponse { field: Seq<char> },
}

/// A failed client call. Every failure is surfaced as a value of this type;
/// the library never panics and never substitutes defaults for missing data.
#[derive(Debug, Clone, PartialEq, Eq)]
pub enum ApiError {
    /// The request never produced a response (DNS, connect or IO failure).
    Transport { message: String },
    /// The service rejected the request; both fields are taken verbatim from
    /// the `{error, message}` body.
    Api { error: String, message: String },
    /// The response violated the documented shape; `field` names the missing
    /// or invalid piece.
    MalformedResponse { field: String },
}

impl View for ApiError {
    type V = ApiErrorModel;

    open spec fn view(&self) -> ApiErrorModel {
        match self {
            ApiError::Transport { message } => ApiErrorModel::Transport { message: message@ },
            ApiError::Api { error, message } => ApiErrorModel::Api {
                error: error@,
                message: message@,
            },
            ApiError::MalformedResponse { field } => ApiErrorModel::MalformedResponse {
                field: field@,
            },
        }
    }
}

impl DeepView for ApiError {
    type V = ApiErrorModel;

    open spec fn deep_view(&self) -> ApiErrorModel {
        self.view()
    }
}

/// A byte buffer that could not be decoded as an image.
#[derive(Debug, Clone, Copy, PartialEq, Eq, Structural)]
pub struct DecodeError {}

} // verus!
