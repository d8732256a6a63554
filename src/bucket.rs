use vstd::prelude::*;

verus! {

/// Tokens granted per window when nothing else is configured.
pub const DEFAULT_CAPACITY: i32 = 10;

/// Length of a refill window, in milliseconds, when nothing else is configured.
pub const DEFAULT_WINDOW_MILLIS: u64 = 60_000;

/// Process-wide rate-limit settings: fixed after construction.
#[derive(Clone, Copy, Debug, PartialEq, Eq, Structural)]
pub struct RateLimitConfig {
    /// Tokens restored at the start of every window.
    pub capacity: i32,
    /// Window length in milliseconds.
    pub window: u64,
}

impl RateLimitConfig {
    pub open spec fn wf(&self) -> bool {
        self.capacity >= 0
    }

    pub fn new(capacity: i32, window: u64) -> (r: RateLimitConfig)
        requires
            capacity >= 0,
        ensures
            r.capacity == capacity,
            r.window == window,
            r.wf(),
    {
        RateLimitConfig { capacity, window }
    }

    pub open spec fn spec_standard() -> RateLimitConfig {
        RateLimitConfig { capacity: DEFAULT_CAPACITY, window: DEFAULT_WINDOW_MILLIS }
    }

    /// Ten tokens per sixty-second window.
    pub fn standard() -> (r: RateLimitConfig)
        ensures
            r == Self::spec_standard(),
            r.wf(),
    {
        RateLimitConfig { capacity: DEFAULT_CAPACITY, window: DEFAULT_WINDOW_MILLIS }
    }
}

/// One identifier's rate-limit state.
#[derive(Clone, Copy, Debug, PartialEq, Eq, Structural)]
pub struct Bucket {
    /// Tokens still available in the current window.
    pub tokens: i32,
    /// Instant (milliseconds on the service clock) of the last reset to full.
    pub last_refill: u64,
}

/// A bucket created at `now`: full, with its window starting at `now`.
pub open spec fn fresh_bucket(now: u64, cfg: RateLimitConfig) -> Bucket {
    Bucket { tokens: cfg.capacity, last_refill: now }
}

/// The window of `b` is over at `now`. A clock reading before the last
/// refill counts as no time elapsed.
pub open spec fn window_elapsed(b: Bucket, now: u64, cfg: RateLimitConfig) -> bool {
    now >= b.last_refill && now - b.last_refill >= cfg.window
}

/// The bucket as seen at `now`: reset to full once its window is over,
/// never more than full however long it sat idle.
pub open spec fn refreshed(b: Bucket, now: u64, cfg: RateLimitConfig) -> Bucket {
    if window_elapsed(b, now, cfg) {
        fresh_bucket(now, cfg)
    } else {
        b
    }
}

/// Whether a request of `requested` tokens at `now` is allowed.
pub open spec fn admits(b: Bucket, requested: i32, now: u64, cfg: RateLimitConfig) -> bool {
    refreshed(b, now, cfg).tokens >= requested
}

/// The bucket after a request of `requested` tokens at `now`: refreshed, and
/// debited only when the request is allowed.
pub open spec fn after_debit(b: Bucket, requested: i32, now: u64, cfg: RateLimitConfig) -> Bucket {
    let r = refreshed(b, now, cfg);
    if r.tokens >= requested {
        Bucket { tokens: (r.tokens - requested) as i32, ..r }
    } else {
        r
    }
}

impl Bucket {
    pub fn fresh(now: u64, cfg: RateLimitConfig) -> (r: Bucket)
        ensures
            r == fresh_bucket(now, cfg),
    {
        Bucket { tokens: cfg.capacity, last_refill: now }
    }

    /// Resets the bucket if its window is over, then takes `requested`
    /// tokens if that many are left. Returns whether the request is allowed.
    pub fn try_debit(&mut self, requested: i32, now: u64, cfg: RateLimitConfig) -> (allowed: bool)
        requires
            requested >= 0,
            cfg.wf(),
        ensures
            allowed == admits(*old(self), requested, now, cfg),
            *final(self) == after_debit(*old(self), requested, now, cfg),
    {
        if now >= self.last_refill && now - self.last_refill >= cfg.window {
            self.tokens = cfg.capacity;
            self.last_refill = now;
        }
        if self.tokens >= requested {
            self.tokens = self.tokens - requested;
            true
        } else {
            false
        }
    }
}

/// Replays one-token requests at the instants `times` on `b`: the bucket
/// left at the end and how many of the requests were allowed.
pub open spec fn unit_run(b: Bucket, times: Seq<u64>, cfg: RateLimitConfig) -> (Bucket, nat)
    decreases times.len(),
{
    if times.len() == 0 {
        (b, 0)
    } else {
        let rest = unit_run(after_debit(b, 1, times[0], cfg), times.drop_first(), cfg);
        (rest.0, rest.1 + if admits(b, 1, times[0], cfg) { 1nat } else { 0nat })
    }
}

/// Every instant of `times` lies in the window that starts at `start`.
pub open spec fn within_window(times: Seq<u64>, start: u64, cfg: RateLimitConfig) -> bool {
    forall|i: int| 0 <= i < times.len() ==> start <= #[trigger] times[i] && times[i] - start < cfg.window
}

proof fn lemma_run_takes_available_tokens(b: Bucket, times: Seq<u64>, cfg: RateLimitConfig)
    requires
        cfg.wf(),
        b.tokens >= 0,
        within_window(times, b.last_refill, cfg),
    ensures
        unit_run(b, times, cfg).1 == if times.len() <= b.tokens {
            times.len() as int
        } else {
            b.tokens as int
        },
    decreases times.len(),
{
    if times.len() > 0 {
        let next = after_debit(b, 1, times[0], cfg);
        assert(refreshed(b, times[0], cfg) == b);
        let rest = times.drop_first();
        assert forall|i: int| 0 <= i < rest.len() implies next.last_refill <= #[trigger] rest[i]
            && rest[i] - next.last_refill < cfg.window by {
            assert(rest[i] == times[i + 1]);
        }
        lemma_run_takes_available_tokens(next, rest, cfg);
    }
}

/// No double-spend: starting from a full bucket, of any number of one-token
/// requests within one window exactly as many are allowed as there are
/// tokens, or all of them when they are fewer.
pub proof fn lemma_no_double_spend(b: Bucket, times: Seq<u64>, cfg: RateLimitConfig)
    requires
        cfg.wf(),
        b.tokens == cfg.capacity,
        within_window(times, b.last_refill, cfg),
    ensures
        unit_run(b, times, cfg).1 <= cfg.capacity,
        unit_run(b, times, cfg).1 == if times.len() <= cfg.capacity {
            times.len() as int
        } else {
            cfg.capacity as int
        },
{
    lemma_run_takes_available_tokens(b, times, cfg);
}

/// A bucket holds between none and `capacity` tokens.
pub open spec fn within_capacity(b: Bucket, cfg: RateLimitConfig) -> bool {
    0 <= b.tokens <= cfg.capacity
}

/// Window reset: once the window of `b` is over, a request sees a bucket of
/// exactly `capacity` tokens, whatever `b` held, and is decided against it.
pub proof fn lemma_window_reset(b: Bucket, requested: i32, now: u64, cfg: RateLimitConfig)
    requires
        cfg.wf(),
        requested >= 0,
        now >= b.last_refill,
        now - b.last_refill >= cfg.window,
    ensures
        refreshed(b, now, cfg) == fresh_bucket(now, cfg),
        admits(b, requested, now, cfg) == (cfg.capacity >= requested),
        after_debit(b, requested, now, cfg).last_refill == now,
        after_debit(b, requested, now, cfg).tokens == if cfg.capacity >= requested {
            cfg.capacity - requested
        } else {
            cfg.capacity as int
        },
{
}

} // verus!
