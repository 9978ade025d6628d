//! Classification client model: what a backend answer becomes at receipt,
//! and the typed failures of the classify path.

use vstd::prelude::*;
use crate::model::{result_wf, ClassificationResult};

verus! {

/// The fields a successful backend answer carries.
pub struct Prediction {
    pub url: String,
    pub is_phishing: bool,
    /// Confidence in millionths of one.
    pub confidence_millionths: u32,
    pub threat_level: String,
    pub sensitivity_mode: String,
    /// Decision threshold in millionths of one.
    pub threshold_millionths: u32,
    /// Opaque detail payload, carried through without interpretation.
    pub details: Vec<(String, String)>,
    /// Latency of the backend call, in microseconds.
    pub latency_micros: u64,
    pub model_version: String,
}

/// The result built at receipt time from a backend answer: every field of
/// the answer, never marked cached, stamped with the receipt time.
pub open spec fn result_of_prediction(p: Prediction, now: i64) -> ClassificationResult {
    ClassificationResult {
        url: p.url,
        is_phishing: p.is_phishing,
        confidence_millionths: p.confidence_millionths,
        threat_level: p.threat_level,
        sensitivity_mode: p.sensitivity_mode,
        threshold_millionths: p.threshold_millionths,
        details: p.details,
        latency_micros: p.latency_micros,
        cached: false,
        timestamp: now,
        model_version: p.model_version,
    }
}

/// Builds the classification result from a backend answer received at
/// `now`. The `cached` flag is always false here; the timestamp is the
/// receipt time, not the backend's. The answer's fractions must already
/// lie within one, so the result is well formed.
pub fn received_result(p: Prediction, now: i64) -> (r: ClassificationResult)
    requires
        p.confidence_millionths <= 1000000,
        p.threshold_millionths <= 1000000,
    ensures
        r == result_of_prediction(p, now),
        result_wf(r),
{
    ClassificationResult {
        url: p.url,
        is_phishing: p.is_phishing,
        confidence_millionths: p.confidence_millionths,
        threat_level: p.threat_level,
        sensitivity_mode: p.sensitivity_mode,
        threshold_millionths: p.threshold_millionths,
        details: p.details,
        latency_micros: p.latency_micros,
        cached: false,
        timestamp: now,
        model_version: p.model_version,
    }
}

/// How one bounded classify call ended. A timeout is kept apart from an
/// explicit backend failure so that callers can retry the one and fail fast
/// on the other.
pub enum ClassifierReply {
    /// The backend answered within its budget; the result was built at
    /// receipt (see `received_result`).
    Delivered(ClassificationResult),
    /// The backend was unreachable or returned a non-success status.
    Unavailable,
    /// No response arrived within the time budget.
    TimedOut,
}

} // verus!
