use vstd::prelude::*;

verus! {

/// Why a pipeline run stopped: either the transport failed before a body
/// arrived, or a body arrived but could not be decoded.
#[derive(Clone, Copy, PartialEq, Eq, Structural, Debug)]
pub enum PipelineError {
    /// The request could not be completed (DNS, connection, timeout).
    NetworkError,
    /// The body is not valid JSON, or a required field is absent or mistyped.
    ParseError,
}

impl PipelineError {
    /// A human-readable rendering, for the caller to surface on failure.
    pub fn describe(&self) -> (s: &'static str)
        ensures
            *self == PipelineError::NetworkError ==> s@ == "network error"@,
            *self == PipelineError::ParseError ==> s@ == "malformed response"@,
    {
        match self {
            PipelineError::NetworkError => "network error",
            PipelineError::ParseError => "malformed response",
        }
    }
}

} // verus!
