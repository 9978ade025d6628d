//! The classification orchestrator: per-request decisions of the
//! cache-aside flow. Each request validates its input, consults the result
//! cache, falls back to the classification backend on a miss or a cache
//! failure, and plans a cache write for a fresh verdict — never letting a
//! cache failure fail the request.
//!
//! The functions here are pure decisions: the surrounding runtime performs
//! the cache and backend calls and feeds their outcomes back in.

use vstd::prelude::*;
use vstd::string::StrSliceExecFns;
use crate::cache::{cache_key, cache_key_spec, store_lookup, ttl_for_verdict, ttl_spec, CacheLookup, StoredEntry, store_after_set};
use crate::classifier::ClassifierReply;
use crate::model::{with_cached, ClassificationResult, ClassifyError, URLCheckRequest};

verus! {

/// The least number of characters a URL must have to be classified.
pub const MIN_URL_LEN: usize = 10;

/// A request is admitted exactly when its URL reaches the minimum length.
/// Length is deliberately counted in characters, the unit the library's
/// contracts speak of; for ASCII URLs this coincides with the byte count.
pub open spec fn request_valid(req: URLCheckRequest) -> bool {
    req.url@.len() >= MIN_URL_LEN
}

/// Validates the input before any dependency is touched.
pub fn validate_request(req: &URLCheckRequest) -> (ok: bool)
    ensures
        ok == request_valid(*req),
{
    req.url.as_str().unicode_len() >= MIN_URL_LEN
}

/// What the orchestrator does once the cache has answered.
pub enum CacheDecision {
    /// Serve the cached result, marked as served from the cache; the
    /// classification backend is not consulted.
    Serve(ClassificationResult),
    /// Miss or cache failure: consult the classification backend.
    AskClassifier,
}

/// Decides on the cache's answer: a hit is served at once with its `cached`
/// flag set; a miss and a cache failure alike fall through to the
/// classifier.
pub fn after_cache_lookup(lookup: CacheLookup) -> (d: CacheDecision)
    ensures
        match lookup {
            CacheLookup::Hit(r) => d == CacheDecision::Serve(with_cached(r, true)),
            CacheLookup::Miss => d == CacheDecision::AskClassifier,
            CacheLookup::Unavailable => d == CacheDecision::AskClassifier,
        },
{
    match lookup {
        CacheLookup::Hit(mut r) => {
            r.mark_cached();
            CacheDecision::Serve(r)
        },
        CacheLookup::Miss => CacheDecision::AskClassifier,
        CacheLookup::Unavailable => CacheDecision::AskClassifier,
    }
}

/// A cache write that is still to be performed: its key and its lifetime
/// in seconds. The verdict to be stored travels beside the plan.
pub struct CachePlan {
    pub key: String,
    pub ttl_seconds: u64,
}

/// Decides on the classifier's reply. A delivered verdict is returned
/// together with its cache plan — the key of the URL and the lifetime of
/// the verdict; a failure becomes the request's terminal error, the timeout
/// kept apart from the explicit failure.
pub fn after_classifier_reply(url: &str, reply: ClassifierReply) -> (out: Result<
    (ClassificationResult, CachePlan),
    ClassifyError,
>)
    ensures
        match reply {
            ClassifierReply::Delivered(r) => out matches Ok((res, plan)) && res == r
                && plan.key@ == cache_key_spec(url@)
                && plan.ttl_seconds == ttl_spec(r.is_phishing),
            ClassifierReply::Unavailable => out == Err::<(ClassificationResult, CachePlan), ClassifyError>(
                ClassifyError::ClassifierUnavailable,
            ),
            ClassifierReply::TimedOut => out == Err::<(ClassificationResult, CachePlan), ClassifyError>(
                ClassifyError::ClassifierTimeout,
            ),
        },
{
    match reply {
        ClassifierReply::Delivered(r) => {
            let ttl = ttl_for_verdict(r.is_phishing);
            let key = cache_key(url);
            Ok((r, CachePlan { key, ttl_seconds: ttl }))
        },
        ClassifierReply::Unavailable => Err(ClassifyError::ClassifierUnavailable),
        ClassifierReply::TimedOut => Err(ClassifyError::ClassifierTimeout),
    }
}

/// The response of one whole request, given the cache's answer and — where
/// the classifier is consulted — its reply.
pub open spec fn response_of(
    req: URLCheckRequest,
    lookup: CacheLookup,
    reply: ClassifierReply,
) -> Result<ClassificationResult, ClassifyError> {
    if !request_valid(req) {
        Err(ClassifyError::InvalidRequest)
    } else {
        match lookup {
            CacheLookup::Hit(v) => Ok(with_cached(v, true)),
            _ => match reply {
                ClassifierReply::Delivered(r) => Ok(r),
                ClassifierReply::Unavailable => Err(ClassifyError::ClassifierUnavailable),
                ClassifierReply::TimedOut => Err(ClassifyError::ClassifierTimeout),
            },
        }
    }
}

/// Whether one request reaches the classification backend: only a valid
/// request that the cache did not serve.
pub open spec fn consults_classifier(req: URLCheckRequest, lookup: CacheLookup) -> bool {
    request_valid(req) && !(lookup is Hit)
}

/// Whether one request plans a cache write: only a fresh verdict is
/// written back.
pub open spec fn writes_cache(
    req: URLCheckRequest,
    lookup: CacheLookup,
    reply: ClassifierReply,
) -> bool {
    consults_classifier(req, lookup) && reply is Delivered
}

/// Everything one request decided: the response, whether the backend was
/// consulted, and the planned cache write, if any.
pub struct ClassifyOutcome {
    pub response: Result<ClassificationResult, ClassifyError>,
    pub classifier_consulted: bool,
    pub cache_plan: Option<CachePlan>,
}

/// The whole per-request decision, with the two dependency outcomes handed
/// in: `lookup` is what the cache read yielded, `reply` what the classifier
/// would deliver were it consulted. The backend is consulted, and its reply
/// read, only on a valid request the cache did not serve; the cache write
/// is planned only for a fresh verdict, under the URL's key, with the
/// verdict's lifetime.
pub fn classify_with(req: &URLCheckRequest, lookup: CacheLookup, reply: ClassifierReply) -> (out:
    ClassifyOutcome)
    ensures
        out.response == response_of(*req, lookup, reply),
        out.classifier_consulted == consults_classifier(*req, lookup),
        out.cache_plan is Some <==> writes_cache(*req, lookup, reply),
        out.cache_plan matches Some(plan) ==> plan.key@ == cache_key_spec(req.url@) && (
        out.response matches Ok(r) && plan.ttl_seconds == ttl_spec(r.is_phishing)),
{
    if !validate_request(req) {
        return ClassifyOutcome {
            response: Err(ClassifyError::InvalidRequest),
            classifier_consulted: false,
            cache_plan: None,
        };
    }
    match after_cache_lookup(lookup) {
        CacheDecision::Serve(r) => ClassifyOutcome {
            response: Ok(r),
            classifier_consulted: false,
            cache_plan: None,
        },
        CacheDecision::AskClassifier => match after_classifier_reply(req.url.as_str(), reply) {
            Ok((r, plan)) => ClassifyOutcome {
                response: Ok(r),
                classifier_consulted: true,
                cache_plan: Some(plan),
            },
            Err(e) => ClassifyOutcome {
                response: Err(e),
                classifier_consulted: true,
                cache_plan: None,
            },
        },
    }
}

/// A failed cache read is treated exactly like a miss: the response and
/// the decision to consult the classifier are the same in both cases.
pub proof fn lemma_unavailable_like_miss(req: URLCheckRequest, reply: ClassifierReply)
    ensures
        response_of(req, CacheLookup::Unavailable, reply) == response_of(
            req,
            CacheLookup::Miss,
            reply,
        ),
        consults_classifier(req, CacheLookup::Unavailable) == consults_classifier(
            req,
            CacheLookup::Miss,
        ),
{
}

/// Cache-failure resilience: with the cache unavailable and the classifier
/// delivering a result, a valid request is answered with that result — the
/// cache failure never fails the request.
pub proof fn lemma_cache_failure_resilient(req: URLCheckRequest, r: ClassificationResult)
    requires
        request_valid(req),
    ensures
        response_of(req, CacheLookup::Unavailable, ClassifierReply::Delivered(r))
            == Ok::<ClassificationResult, ClassifyError>(r),
        consults_classifier(req, CacheLookup::Unavailable),
{
}

/// Idempotence within a result's lifetime: once a fresh verdict `r` for a
/// valid request is written back at `t0`, any repeat of the request before
/// the entry expires is served from the cache — the response is `r` marked
/// as cached, and the classification backend is not consulted again,
/// whatever it would reply.
pub proof fn lemma_repeat_served_from_cache(
    store: Map<Seq<char>, StoredEntry>,
    req: URLCheckRequest,
    r: ClassificationResult,
    reply2: ClassifierReply,
    t0: int,
    t1: int,
)
    requires
        request_valid(req),
        t0 <= t1 < t0 + ttl_spec(r.is_phishing),
    ensures
        ({
            let key = cache_key_spec(req.url@);
            let store1 = store_after_set(store, key, r, ttl_spec(r.is_phishing), t0);
            let lookup2 = store_lookup(store1, key, t1);
            &&& lookup2 == CacheLookup::Hit(r)
            &&& response_of(req, lookup2, reply2) == Ok::<ClassificationResult, ClassifyError>(
                with_cached(r, true),
            )
            &&& !consults_classifier(req, lookup2)
        }),
{
}

} // verus!
