//! What a health request is answered with: the report, or the reason why
//! there is none, and the HTTP status that goes with either.

use vstd::prelude::*;
use crate::config::InvalidConfiguration;
use crate::evaluate::{evaluate, health_of};
use crate::report::KafkaHealth;
use crate::snapshot::ClusterSnapshot;

verus! {

/// HTTP status of an answer that carries a report.
pub const HTTP_OK: u16 = 200;

/// HTTP status of an answer to a request that the configuration rules out.
pub const HTTP_INTERNAL_SERVER_ERROR: u16 = 500;

/// HTTP status of an answer given while the cluster cannot be reached.
pub const HTTP_SERVICE_UNAVAILABLE: u16 = 503;

/// Why a request cannot be answered with a report.
#[derive(Clone, Copy, Debug, PartialEq, Eq, Structural)]
pub enum HealthError {
    /// The metadata could not be fetched, or not in time.
    SnapshotUnavailable,
    /// The client settings are unusable.
    InvalidConfiguration(InvalidConfiguration),
}

impl HealthError {
    /// The HTTP status that reports the error.
    pub open spec fn status(self) -> u16 {
        match self {
            HealthError::SnapshotUnavailable => HTTP_SERVICE_UNAVAILABLE,
            HealthError::InvalidConfiguration(_) => HTTP_INTERNAL_SERVER_ERROR,
        }
    }

    /// The HTTP status that reports the error: 503 while the snapshot is
    /// unavailable, 500 for a configuration that cannot be used.
    pub fn status_code(&self) -> (code: u16)
        ensures
            code == self.status(),
    {
        match self {
            HealthError::SnapshotUnavailable => HTTP_SERVICE_UNAVAILABLE,
            HealthError::InvalidConfiguration(_) => HTTP_INTERNAL_SERVER_ERROR,
        }
    }
}

/// Answers a request from the outcome of the metadata fetch.
///
/// With a snapshot the answer is its report. Without one the evaluation
/// does not run and the answer is `SnapshotUnavailable`.
pub fn answer(fetched: Option<&ClusterSnapshot>) -> (outcome: Result<KafkaHealth, HealthError>)
    ensures
        (match fetched {
            Some(snapshot) => outcome matches Ok(report) && report@ == health_of(snapshot@),
            None => outcome == Err::<KafkaHealth, HealthError>(HealthError::SnapshotUnavailable),
        }),
{
    match fetched {
        Some(snapshot) => Ok(evaluate(snapshot)),
        None => Err(HealthError::SnapshotUnavailable),
    }
}

/// The HTTP status of an answer: 200 with a report, else the status of the
/// error.
pub fn status_code_of(outcome: &Result<KafkaHealth, HealthError>) -> (code: u16)
    ensures
        code == (match outcome {
            Ok(_) => HTTP_OK,
            Err(error) => error.status(),
        }),
{
    match outcome {
        Ok(_) => HTTP_OK,
        Err(error) => error.status_code(),
    }
}

} // verus!
