//! The decisions at the edge: what a decoded (or undecodable) request answers.
use vstd::prelude::*;

use crate::analysis::{is_analysis_of, perform_analysis, AnalysisResult};
use crate::stats::EditingStats;

verus! {

/// Why a request produced an error envelope instead of a result.
#[derive(Clone, Copy, Debug, PartialEq, Eq, Structural)]
pub enum BoundaryError {
    /// The request could not be read as editing stats.
    Decode,
    /// The result could not be written out.
    Encode,
}

impl BoundaryError {
    pub open spec fn spec_message(self) -> Seq<char> {
        match self {
            BoundaryError::Decode => "Failed to parse editing stats"@,
            BoundaryError::Encode => "Failed to serialize analysis results"@,
        }
    }

    /// The fixed human-readable message of the error envelope.
    pub fn message(&self) -> (r: &'static str)
        ensures
            r@ == self.spec_message(),
    {
        match self {
            BoundaryError::Decode => "Failed to parse editing stats",
            BoundaryError::Encode => "Failed to serialize analysis results",
        }
    }
}

/// The answer to one request: a full result or an error, never both.
#[derive(Clone, Debug)]
pub enum Response {
    Success(AnalysisResult),
    Failure(BoundaryError),
}

impl Response {
    /// Whether this answer is an error envelope.
    pub fn is_error(&self) -> (r: bool)
        ensures
            r == (self is Failure),
    {
        match self {
            Response::Success(_) => false,
            Response::Failure(_) => true,
        }
    }
}

/// Answers a request that was decoded to `decoded`, or that could not be
/// decoded when `decoded` is `None`; only a decoded request is analysed.
pub fn respond(decoded: Option<EditingStats>) -> (r: Response)
    ensures
        decoded is None <==> r is Failure,
        decoded is None ==> r == Response::Failure(BoundaryError::Decode),
        decoded is Some ==> (r matches Response::Success(a) && is_analysis_of(
            a,
            decoded.unwrap(),
        )),
{
    match decoded {
        Some(stats) => Response::Success(perform_analysis(&stats)),
        None => Response::Failure(BoundaryError::Decode),
    }
}

} // verus!
