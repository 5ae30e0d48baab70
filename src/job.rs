//! The decisions of one fetch-and-tabulate job, as a state machine driven by
//! the outcomes of the work that its caller performs.
use vstd::prelude::*;
use crate::dataset::Dataset;
use crate::error::JobError;
use crate::parse::{json_accepts, json_doc, parse_document};
use crate::table::{tabulate, tabulate_spec};

verus! {

/// Where a job stands.
pub enum Stage {
    /// Not started.
    Pending,
    /// Waiting for the response body.
    Fetching,
    /// Waiting for the body to be saved as it came.
    Persisting { body: String },
    /// Waiting for the table to be saved.
    Writing,
    /// Done: both files are written.
    Written,
    /// Stopped by a failure.
    Failed { error: JobError },
}

/// The outcome of the work last asked for.
pub enum Event {
    Fetched { body: String },
    FetchFailed,
    RawSaved,
    RawSaveFailed,
    TableSaved,
    TableSaveFailed,
}

/// The work a job asks its caller to do next.
pub enum Action {
    /// Issue one GET request to `url`.
    Fetch { url: String },
    /// Write `body` as it is to `path`, replacing any earlier file.
    SaveRaw { path: String, body: String },
    /// Write `bytes` to `path`, replacing any earlier file.
    SaveTable { path: String, bytes: Vec<u8> },
    /// The job is over, with this outcome.
    Finish { outcome: Result<(), JobError> },
    /// The event does not belong to the current stage: nothing to do.
    Idle,
}

/// What a body yields: `Parse` for a text that serde_json rejects, else the
/// table of the document it reads (or `Schema`). A function of the dataset and
/// the body alone, so an unchanged body gives byte-identical tables.
pub open spec fn transform_spec(dataset: Dataset, body: Seq<char>) -> Result<Seq<u8>, JobError> {
    if json_accepts(body) {
        tabulate_spec(dataset, json_doc(body))
    } else {
        Err(JobError::Parse)
    }
}

/// The bytes of a result, as plain values.
pub open spec fn result_bytes(r: Result<Vec<u8>, JobError>) -> Result<Seq<u8>, JobError> {
    match r {
        Ok(b) => Ok(b@),
        Err(e) => Err(e),
    }
}

/// Parses a response body and builds the dataset's table from it.
pub fn transform(dataset: Dataset, body: &str) -> (r: Result<Vec<u8>, JobError>)
    ensures
        result_bytes(r) == transform_spec(dataset, body@),
{
    match parse_document(body) {
        Ok(doc) => tabulate(dataset, &doc),
        Err(e) => Err(e),
    }
}

/// One job over a dataset.
pub struct Job {
    pub dataset: Dataset,
    pub stage: Stage,
}

impl Job {
    /// A job over `dataset` that has not started.
    pub fn new(dataset: Dataset) -> (r: Job)
        ensures
            r.dataset == dataset,
            r.stage == Stage::Pending,
    {
        Job { dataset, stage: Stage::Pending }
    }

    /// Starts the job: it asks for the dataset's endpoint to be fetched. A job
    /// that has already started is left as it is.
    pub fn start(&mut self) -> (r: Action)
        ensures
            final(self).dataset == old(self).dataset,
            old(self).stage is Pending ==> final(self).stage == Stage::Fetching && match r {
                Action::Fetch { url } => url@ == old(self).dataset.url_spec(),
                _ => false,
            },
            !(old(self).stage is Pending) ==> *final(self) == *old(self) && r == Action::Idle,
    {
        match self.stage {
            Stage::Pending => {
                self.stage = Stage::Fetching;
                Action::Fetch { url: self.dataset.url() }
            },
            _ => Action::Idle,
        }
    }

    /// Takes the outcome of the last action and decides the next one. The body
    /// is saved as it came before it is parsed, so the raw file is asked for
    /// whatever the body holds; a failure at any step ends the job.
    pub fn handle(&mut self, event: Event) -> (r: Action)
        ensures
            final(self).dataset == old(self).dataset,
            match (old(self).stage, event) {
                (Stage::Fetching, Event::Fetched { body }) => {
                    &&& final(self).stage == (Stage::Persisting { body })
                    &&& match r {
                        Action::SaveRaw { path, body: saved } => path@ == old(self).dataset.raw_file_spec() && saved == body,
                        _ => false,
                    }
                },
                (Stage::Fetching, Event::FetchFailed) => {
                    &&& final(self).stage == (Stage::Failed { error: JobError::Network })
                    &&& r == (Action::Finish { outcome: Err(JobError::Network) })
                },
                (Stage::Persisting { body }, Event::RawSaved) => match transform_spec(old(self).dataset, body@) {
                    Ok(table) => {
                        &&& final(self).stage == Stage::Writing
                        &&& match r {
                            Action::SaveTable { path, bytes } => path@ == old(self).dataset.table_file_spec() && bytes@ == table,
                            _ => false,
                        }
                    },
                    Err(e) => {
                        &&& final(self).stage == (Stage::Failed { error: e })
                        &&& r == (Action::Finish { outcome: Err(e) })
                    },
                },
                (Stage::Persisting { body }, Event::RawSaveFailed) => {
                    &&& final(self).stage == (Stage::Failed { error: JobError::Io })
                    &&& r == (Action::Finish { outcome: Err(JobError::Io) })
                },
                (Stage::Writing, Event::TableSaved) => {
                    &&& final(self).stage == Stage::Written
                    &&& r == (Action::Finish { outcome: Ok(()) })
                },
                (Stage::Writing, Event::TableSaveFailed) => {
                    &&& final(self).stage == (Stage::Failed { error: JobError::Io })
                    &&& r == (Action::Finish { outcome: Err(JobError::Io) })
                },
                _ => *final(self) == *old(self) && r == Action::Idle,
            },
    {
        match (&self.stage, event) {
            (Stage::Fetching, Event::Fetched { body }) => {
                let saved = body.clone();
                self.stage = Stage::Persisting { body };
                Action::SaveRaw { path: self.dataset.raw_file(), body: saved }
            },
            (Stage::Fetching, Event::FetchFailed) => {
                self.stage = Stage::Failed { error: JobError::Network };
                Action::Finish { outcome: Err(JobError::Network) }
            },
            (Stage::Persisting { body }, Event::RawSaved) => match transform(self.dataset, body.as_str()) {
                Ok(bytes) => {
                    self.stage = Stage::Writing;
                    Action::SaveTable { path: self.dataset.table_file(), bytes }
                },
                Err(e) => {
                    self.stage = Stage::Failed { error: e };
                    Action::Finish { outcome: Err(e) }
                },
            },
            (Stage::Persisting { body: _ }, Event::RawSaveFailed) => {
                self.stage = Stage::Failed { error: JobError::Io };
                Action::Finish { outcome: Err(JobError::Io) }
            },
            (Stage::Writing, Event::TableSaved) => {
                self.stage = Stage::Written;
                Action::Finish { outcome: Ok(()) }
            },
            (Stage::Writing, Event::TableSaveFailed) => {
                self.stage = Stage::Failed { error: JobError::Io };
                Action::Finish { outcome: Err(JobError::Io) }
            },
            _ => Action::Idle,
        }
    }
}

} // verus!

verus! {

/// A body that serde_json rejects yields `Parse` for every dataset, so a job
/// that has saved such a body ends with that failure and never asks for its
/// table to be written.
pub proof fn lemma_rejected_body_gives_no_table(dataset: Dataset, body: Seq<char>)
    requires
        !json_accepts(body),
    ensures
        transform_spec(dataset, body) == Err::<Seq<u8>, JobError>(JobError::Parse),
{
}

} // verus!
