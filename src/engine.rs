use vstd::prelude::*;
use vstd::string::*;
use std::time::Instant;
use crate::bucket::{Bucket, RateLimitConfig, admits, after_debit};
use crate::store::{BucketStore, store_debit, stored_or_fresh};

verus! {

#[verifier::external_type_specification]
#[verifier::external_body]
pub struct ExInstant(Instant);

/// Relies on `Instant::now`: a reading of the monotonic clock.
#[verifier::external_body]
fn clock_now() -> (t: Instant) {
    Instant::now()
}

/// Relies on `Instant::elapsed`: whole milliseconds since `origin`, on the
/// monotonic clock.
#[verifier::external_body]
fn millis_since(origin: &Instant) -> (ms: u64) {
    origin.elapsed().as_millis() as u64
}

/// An admission request: an identifier and the tokens it asks for.
#[derive(Clone, Debug, PartialEq, Eq, Default)]
pub struct RateLimitRequest {
    pub id: String,
    /// Zero or less stands for one token.
    pub tokens_requested: i32,
}

/// The reply to an allowed request.
#[derive(Clone, Debug, PartialEq, Eq, Default)]
pub struct RateLimitResponse {
    pub status: String,
}

#[derive(Clone, Copy, Debug, PartialEq, Eq, Default)]
pub struct HeartBeatRequest {}

#[derive(Clone, Copy, Debug, PartialEq, Eq, Default)]
pub struct HeartBeatResponse {}

#[derive(Clone, Debug, PartialEq, Eq, Default)]
pub struct PingRequest {
    pub message: String,
}

#[derive(Clone, Debug, PartialEq, Eq, Default)]
pub struct PingResponse {
    pub status: String,
    pub message: String,
}

/// A malformed request, refused before any rate-limit state is read.
#[derive(Clone, Copy, Debug, PartialEq, Eq, Structural)]
pub enum AdmissionError {
    /// The identifier is empty.
    InvalidArgument,
}

/// Outcome of a well-formed request.
#[derive(Clone, Copy, Debug, PartialEq, Eq, Structural)]
pub enum Outcome {
    Allowed,
    /// Over budget for the current window.
    ResourceExhausted,
}

/// The decision on a well-formed request, with what an audit record needs.
#[derive(Clone, Debug, PartialEq, Eq)]
pub struct Decision {
    pub outcome: Outcome,
    pub id: String,
    /// The token count after normalization.
    pub tokens: i32,
    /// Tokens left in the identifier's bucket after the decision.
    pub remaining: i32,
}

impl Decision {
    pub fn is_allowed(&self) -> (r: bool)
        ensures
            r == (self.outcome == Outcome::Allowed),
    {
        match self.outcome {
            Outcome::Allowed => true,
            Outcome::ResourceExhausted => false,
        }
    }
}

/// The token count a request stands for: one when it asks for none or fewer.
pub open spec fn normalized(requested: i32) -> i32 {
    if requested <= 0 {
        1
    } else {
        requested
    }
}

/// The decision that the store's reply `allowed` with bucket `before` yields.
pub open spec fn decision_matches(
    d: Decision,
    req: RateLimitRequest,
    before: Bucket,
    now: u64,
    cfg: RateLimitConfig,
) -> bool {
    let tokens = normalized(req.tokens_requested);
    &&& d.id@ == req.id@
    &&& d.tokens == tokens
    &&& (d.outcome == Outcome::Allowed) == admits(before, tokens, now, cfg)
    &&& d.remaining == after_debit(before, tokens, now, cfg).tokens
}

impl RateLimitResponse {
    pub fn success() -> (r: RateLimitResponse)
        ensures
            r.status@ == "success"@,
    {
        RateLimitResponse { status: String::from_str("success") }
    }
}

/// The admission engine: validates, normalizes, and decides each request
/// against the bucket store.
pub struct RateLimiterService {
    store: BucketStore,
    origin: Instant,
}

impl View for RateLimiterService {
    type V = Map<Seq<char>, Bucket>;

    closed spec fn view(&self) -> Map<Seq<char>, Bucket> {
        self.store@
    }
}

impl RateLimiterService {
    pub closed spec fn wf(&self) -> bool {
        self.store.wf()
    }

    pub closed spec fn settings(&self) -> RateLimitConfig {
        self.store.settings()
    }

    pub fn new(config: RateLimitConfig) -> (r: RateLimiterService)
        requires
            config.wf(),
        ensures
            r.wf(),
            r.settings() == config,
            r@.dom() == Set::<Seq<char>>::empty(),
    {
        RateLimiterService { store: BucketStore::new(config), origin: clock_now() }
    }

    pub fn config(&self) -> (r: RateLimitConfig)
        ensures
            r == self.settings(),
    {
        self.store.config()
    }

    /// Refuses an empty identifier; otherwise returns the token count that
    /// the request stands for.
    pub fn validate_and_normalize_request(&self, req: &RateLimitRequest) -> (r: Result<i32, AdmissionError>)
        ensures
            req.id@.len() == 0 ==> r == Err::<i32, AdmissionError>(AdmissionError::InvalidArgument),
            req.id@.len() > 0 ==> r == Ok::<i32, AdmissionError>(normalized(req.tokens_requested)),
    {
        if req.id.as_str().is_empty() {
            return Err(AdmissionError::InvalidArgument);
        }
        if req.tokens_requested <= 0 {
            Ok(1)
        } else {
            Ok(req.tokens_requested)
        }
    }

    /// Decides `req` at clock reading `now` (milliseconds since the service
    /// started), starting from the identifier's stored bucket, or a fresh one
    /// on its first request.
    pub fn decide(&mut self, req: &RateLimitRequest, now: u64) -> (r: Result<Decision, AdmissionError>)
        requires
            old(self).wf(),
        ensures
            final(self).wf(),
            final(self).settings() == old(self).settings(),
            final(self)@ == request_step(old(self)@, req.id@, req.tokens_requested, now, old(self).settings()).0,
            req.id@.len() == 0 ==> r == Err::<Decision, AdmissionError>(AdmissionError::InvalidArgument),
            req.id@.len() > 0 ==> r is Ok,
            r matches Ok(d) ==> decision_matches(
                d,
                *req,
                stored_or_fresh(old(self)@, req.id@, now, old(self).settings()),
                now,
                old(self).settings(),
            ),
    {
        let tokens = match self.validate_and_normalize_request(req) {
            Ok(t) => t,
            Err(e) => return Err(e),
        };
        let debit = self.store.try_debit(&req.id, tokens, now);
        let outcome = if debit.allowed {
            Outcome::Allowed
        } else {
            Outcome::ResourceExhausted
        };
        Ok(Decision { outcome, id: req.id.clone(), tokens, remaining: debit.after.tokens })
    }

    /// Decides `req` now, on the service's clock: as `decide` at some clock
    /// reading, the same for the decision and the new state.
    pub fn check_rate_limit(&mut self, req: &RateLimitRequest) -> (r: Result<Decision, AdmissionError>)
        requires
            old(self).wf(),
        ensures
            final(self).wf(),
            final(self).settings() == old(self).settings(),
            req.id@.len() == 0 ==> r == Err::<Decision, AdmissionError>(AdmissionError::InvalidArgument),
            req.id@.len() > 0 ==> r is Ok,
            exists|now: u64|
                #[trigger] request_step(old(self)@, req.id@, req.tokens_requested, now, old(self).settings()).0
                    == final(self)@ && (r matches Ok(d) ==> decision_matches(
                    d,
                    *req,
                    stored_or_fresh(old(self)@, req.id@, now, old(self).settings()),
                    now,
                    old(self).settings(),
                )),
    {
        let now = millis_since(&self.origin);
        self.decide(req, now)
    }

    /// Liveness probe: always answers, reads and changes no rate-limit state.
    pub fn heart_beat(&self, req: &HeartBeatRequest) -> (r: HeartBeatResponse)
        ensures
            r == (HeartBeatResponse {}),
    {
        HeartBeatResponse {}
    }

    /// Echo probe: answers `"Pong: "` followed by the message.
    pub fn ping(&self, req: &PingRequest) -> (r: PingResponse)
        ensures
            r.status@ == "success"@,
            r.message@ == "Pong: "@ + req.message@,
    {
        let mut message = String::from_str("Pong: ");
        message.append(req.message.as_str());
        PingResponse { status: String::from_str("success"), message }
    }
}

impl Default for RateLimiterService {
    /// Ten tokens per sixty-second window.
    fn default() -> (r: RateLimiterService)
        ensures
            r.wf(),
            r.settings() == RateLimitConfig::spec_standard(),
            r@.dom() == Set::<Seq<char>>::empty(),
    {
        RateLimiterService::new(RateLimitConfig::standard())
    }
}

/// One request as a step on the store's contents `m`: the new contents and
/// the reply, `Ok(allowed)` or the validation error.
pub open spec fn request_step(
    m: Map<Seq<char>, Bucket>,
    id: Seq<char>,
    requested: i32,
    now: u64,
    cfg: RateLimitConfig,
) -> (Map<Seq<char>, Bucket>, Result<bool, AdmissionError>) {
    if id.len() == 0 {
        (m, Err(AdmissionError::InvalidArgument))
    } else {
        let s = store_debit(m, id, normalized(requested), now, cfg);
        (s.0, Ok(s.1))
    }
}

/// Default normalization: asking for zero or fewer tokens is the same
/// request as asking for one.
pub proof fn lemma_default_normalization(
    m: Map<Seq<char>, Bucket>,
    id: Seq<char>,
    requested: i32,
    now: u64,
    cfg: RateLimitConfig,
)
    requires
        requested <= 0,
    ensures
        request_step(m, id, requested, now, cfg) == request_step(m, id, 1, now, cfg),
{
}

/// Validation: an empty identifier is refused as an invalid argument,
/// whatever the token count, and leaves the store as it was.
pub proof fn lemma_empty_id_invalid(
    m: Map<Seq<char>, Bucket>,
    id: Seq<char>,
    requested: i32,
    now: u64,
    cfg: RateLimitConfig,
)
    requires
        id.len() == 0,
    ensures
        request_step(m, id, requested, now, cfg) == (m, Err::<bool, AdmissionError>(AdmissionError::InvalidArgument)),
{
}

} // verus!
