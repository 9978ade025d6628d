//! Request and response models of the gateway: the classification request,
//! the classification result, and the error envelope.
//!
//! Fractional quantities of the backend (confidence, threshold) are carried
//! as integer millionths of one, and timestamps as Unix seconds, so that the
//! core states exact facts about them.

use vstd::prelude::*;
use vstd::string::StringExecFns;

verus! {

/// A caller's request: the URL to judge and the sensitivity mode to use.
pub struct URLCheckRequest {
    pub url: String,
    pub sensitivity_mode: String,
}

/// The sensitivity mode assumed when a request names none.
pub fn default_sensitivity_mode() -> (m: String)
    ensures
        m@ == "balanced"@,
{
    String::from_str("balanced")
}

/// A verdict for one URL, as produced by the classification backend or
/// reconstructed from the cache. Immutable once built but for the `cached`
/// flag, which is set when the result is served from the cache.
///
/// These fields are the whole result: backend bookkeeping beyond them
/// (auxiliary performance metrics) is dropped at receipt, and the opaque
/// `details` document is the only free-form payload carried.
pub struct ClassificationResult {
    pub url: String,
    pub is_phishing: bool,
    /// Confidence in millionths of one; at most 1_000_000.
    pub confidence_millionths: u32,
    pub threat_level: String,
    pub sensitivity_mode: String,
    /// The classifier's decision threshold in millionths of one; at most 1_000_000.
    pub threshold_millionths: u32,
    /// Opaque detail payload: an order-preserving key-value document,
    /// round-tripped without interpretation.
    pub details: Vec<(String, String)>,
    /// Latency of the classification, in microseconds.
    pub latency_micros: u64,
    pub cached: bool,
    /// Unix seconds at which the result was received from the backend.
    pub timestamp: i64,
    pub model_version: String,
}

/// Well-formedness of a result: the fractional fields lie within one.
pub open spec fn result_wf(r: ClassificationResult) -> bool {
    &&& r.confidence_millionths <= 1000000
    &&& r.threshold_millionths <= 1000000
}

/// `r` with its `cached` flag set to `flag`, all else unchanged.
pub open spec fn with_cached(r: ClassificationResult, flag: bool) -> ClassificationResult {
    ClassificationResult { cached: flag, ..r }
}

impl ClassificationResult {
    /// Marks the result as served from the cache; every other field keeps
    /// its value.
    pub fn mark_cached(&mut self)
        ensures
            *final(self) == with_cached(*old(self), true),
    {
        self.cached = true;
    }
}

/// The request-terminal failures of the gateway.
#[derive(PartialEq, Eq, Structural, Clone, Copy, Debug)]
pub enum ClassifyError {
    /// The input was rejected before any dependency was consulted.
    InvalidRequest,
    /// The classification backend was reachable but failed, or unreachable.
    ClassifierUnavailable,
    /// The classification backend gave no answer within its time budget.
    ClassifierTimeout,
}

impl ClassifyError {
    /// The wire code of the error.
    pub fn error_code(&self) -> (c: String)
        ensures
            *self == ClassifyError::InvalidRequest ==> c@ == "invalid_url"@,
            *self != ClassifyError::InvalidRequest ==> c@ == "ml_service_error"@,
    {
        match self {
            ClassifyError::InvalidRequest => String::from_str("invalid_url"),
            _ => String::from_str("ml_service_error"),
        }
    }

    /// The human-readable message of the error.
    pub fn message(&self) -> (m: String)
        ensures
            *self == ClassifyError::InvalidRequest ==> m@ == "URL must be at least 10 characters"@,
            *self == ClassifyError::ClassifierUnavailable ==> m@
                == "Failed to analyze URL: classification service unavailable"@,
            *self == ClassifyError::ClassifierTimeout ==> m@
                == "Failed to analyze URL: classification service timed out"@,
    {
        match self {
            ClassifyError::InvalidRequest => String::from_str("URL must be at least 10 characters"),
            ClassifyError::ClassifierUnavailable => String::from_str(
                "Failed to analyze URL: classification service unavailable",
            ),
            ClassifyError::ClassifierTimeout => String::from_str(
                "Failed to analyze URL: classification service timed out",
            ),
        }
    }
}

/// The error envelope returned over the wire.
pub struct ErrorResponse {
    pub error: String,
    pub message: String,
    /// Unix seconds at which the envelope was built.
    pub timestamp: i64,
}

/// Builds the error envelope for a failure, stamped with the given time.
pub fn error_response(e: &ClassifyError, now: i64) -> (r: ErrorResponse)
    ensures
        r.error@ == e.error_code_spec(),
        r.message@ == e.message_spec(),
        r.timestamp == now,
{
    ErrorResponse { error: e.error_code(), message: e.message(), timestamp: now }
}

impl ClassifyError {
    /// The wire code of the error, as a sequence of characters.
    pub open spec fn error_code_spec(&self) -> Seq<char> {
        if *self == ClassifyError::InvalidRequest {
            "invalid_url"@
        } else {
            "ml_service_error"@
        }
    }

    /// The human-readable message of the error, as a sequence of characters.
    pub open spec fn message_spec(&self) -> Seq<char> {
        match *self {
            ClassifyError::InvalidRequest => "URL must be at least 10 characters"@,
            ClassifyError::ClassifierUnavailable => "Failed to analyze URL: classification service unavailable"@,
            ClassifyError::ClassifierTimeout => "Failed to analyze URL: classification service timed out"@,
        }
    }
}

} // verus!
