//! Verified core of a bulk-import HTTP endpoint.
//!
//! A request is admitted under a body-size limit and then passes five
//! stages in a fixed order: a route-capability check, UTF-8 decoding of
//! the body, an authorization check, delegation of the decoded text to an
//! external data engine, and content-negotiated encoding of the engine's
//! result. The engine itself and the HTTP transport are
//! external collaborators; this crate holds the decisions between them as a
//! verified state machine, so that the stage order and the error taxonomy
//! are proved, not promised.

pub mod decode;
pub mod format;
pub mod pipeline;

use vstd::prelude::*;

verus! {

/// The failure taxonomy of the endpoint. Every request either succeeds or
/// ends in exactly one of these; none is retried and none panics.
#[derive(Debug, PartialEq, Eq)]
pub enum ImportError {
    /// The capability check denied the import route (the route named by
    /// [`route_target`]).
    RouteForbidden,
    /// The request body is not valid UTF-8.
    DecodeError,
    /// The session lacks edit permission at its own level.
    PermissionDenied,
    /// The engine's import operation failed; the cause is carried verbatim.
    EngineError(String),
    /// The negotiated response format is absent or not in the closed set.
    UnsupportedFormat,
}

/// Mathematical model of [`ImportError`]: the engine's failure cause as a
/// character sequence, the other kinds as themselves.
pub enum ErrorModel {
    RouteForbidden,
    DecodeError,
    PermissionDenied,
    EngineError(Seq<char>),
    UnsupportedFormat,
}

/// The route-identifier token of this endpoint: what the driver hands the
/// engine's capability check, and what a forbidden-route response names.
pub fn route_target() -> (r: String)
    ensures
        r@ == "import"@,
{
    "import".to_owned()
}

impl View for ImportError {
    type V = ErrorModel;

    open spec fn view(&self) -> ErrorModel {
        match self {
            ImportError::RouteForbidden => ErrorModel::RouteForbidden,
            ImportError::DecodeError => ErrorModel::DecodeError,
            ImportError::PermissionDenied => ErrorModel::PermissionDenied,
            ImportError::EngineError(cause) => ErrorModel::EngineError(cause@),
            ImportError::UnsupportedFormat => ErrorModel::UnsupportedFormat,
        }
    }
}

} // verus!
