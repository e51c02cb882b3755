//! Error taxonomy of the engine.
//!
//! Contract-level and batch-level failures abort a command; per-page
//! application failures never do (they are folded into the batch report
//! instead).

use vstd::prelude::*;

verus! {

/// The field of a backend reply whose absence breaks the protocol contract.
#[derive(Clone, Copy, Debug, PartialEq, Eq, Structural)]
pub enum MissingField {
    /// The reply carried no payload at all.
    Data,
    /// The page listing field was absent.
    Pages,
    /// The site object was absent from a title reply.
    Site,
    /// The site configuration was absent from a title reply.
    Config,
    /// The site title itself was absent.
    Title,
}

/// The stage of a batch at which requests were classified.
#[derive(Clone, Copy, Debug, PartialEq, Eq, Structural)]
pub enum BatchPhase {
    /// Sending the requests over the network.
    Transport,
    /// Decoding the reply bodies.
    Decode,
}

/// A failure that aborts the current command.
#[derive(Clone, Copy, Debug, PartialEq, Eq, Structural)]
pub enum WikiError {
    /// The backend reply lacked an expected field: the protocol envelope
    /// cannot be trusted, so no partial result is produced.
    BackendContract(MissingField),
    /// Every request of a batch failed in the given phase.
    AllRequestsFailed(BatchPhase),
    /// Some, but not all, requests of a batch failed in the given phase:
    /// the batch may be inconsistently applied server-side.
    PartialRequestFailure(BatchPhase),
}

impl WikiError {
    /// A human-readable account of the failure.
    pub fn describe(&self) -> String {
        match self {
            WikiError::BackendContract(MissingField::Data) => "No data in response".to_owned(),
            WikiError::BackendContract(MissingField::Pages) => "No pages returned".to_owned(),
            WikiError::BackendContract(MissingField::Site) => "No site returned".to_owned(),
            WikiError::BackendContract(MissingField::Config) => "No config returned".to_owned(),
            WikiError::BackendContract(MissingField::Title) => "No title".to_owned(),
            WikiError::AllRequestsFailed(BatchPhase::Transport) => "All the requests failed.".to_owned(),
            WikiError::AllRequestsFailed(BatchPhase::Decode) => "Deserialising JSON from all responses failed.".to_owned(),
            WikiError::PartialRequestFailure(BatchPhase::Transport) => "Some, but not all, requests failed. The operation may be partially complete.".to_owned(),
            WikiError::PartialRequestFailure(BatchPhase::Decode) => "Deserialising JSON from some responses failed. The operation may be partially complete.".to_owned(),
        }
    }
}

} // verus!
