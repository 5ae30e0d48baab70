//! The ways a job can fail.
use vstd::prelude::*;

verus! {

/// Why a job stopped before its table was written.
#[derive(Clone, Copy, Debug, PartialEq, Eq, Structural)]
pub enum JobError {
    /// The request failed, or the service answered with a failure status.
    Network,
    /// A file could not be created or written.
    Io,
    /// The response body is not JSON.
    Parse,
    /// The response has no array under the dataset's key.
    Schema,
}

impl JobError {
    /// A one-line description of the failure.
    pub fn message(&self) -> (r: String)
        ensures
            r@.len() > 0,
    {
        let r = match self {
            JobError::Network => "request failed".to_owned(),
            JobError::Io => "could not write the output".to_owned(),
            JobError::Parse => "response is not valid JSON".to_owned(),
            JobError::Schema => "response has no array under the expected key".to_owned(),
        };
        proof {
            reveal_strlit("request failed");
            reveal_strlit("could not write the output");
            reveal_strlit("response is not valid JSON");
            reveal_strlit("response has no array under the expected key");
        }
        r
    }
}

} // verus!
