use vstd::prelude::*;
use dashmap::DashMap;
use crate::bucket::{
    Bucket, RateLimitConfig, admits, after_debit, fresh_bucket, lemma_no_double_spend, unit_run,
    within_capacity, within_window,
};

verus! {

#[verifier::external_type_specification]
#[verifier::external_body]
#[verifier::reject_recursive_types(K)]
#[verifier::reject_recursive_types(V)]
#[verifier::reject_recursive_types(S)]
pub struct ExDashMap<K, V, S>(DashMap<K, V, S>);

/// Concurrent map from identifier to bucket.
pub type BucketMap = DashMap<String, Bucket>;

/// The buckets that a map holds, by identifier.
pub uninterp spec fn buckets_of(m: BucketMap) -> Map<Seq<char>, Bucket>;

/// Relies on `DashMap::new`: a map with no entries.
#[verifier::external_body]
fn empty_map() -> (r: BucketMap)
    ensures
        buckets_of(r).dom() == Set::<Seq<char>>::empty(),
{
    DashMap::new()
}

/// Relies on `DashMap::entry` followed by `Entry::or_insert`: returns the
/// bucket stored under `id`, after storing `fresh` there when there was none.
#[verifier::external_body]
fn entry_or_insert(map: &mut BucketMap, id: &String, fresh: Bucket) -> (b: Bucket)
    ensures
        b == (if buckets_of(*old(map)).contains_key(id@) {
            buckets_of(*old(map))[id@]
        } else {
            fresh
        }),
        buckets_of(*final(map)) == buckets_of(*old(map)).insert(id@, b),
{
    *map.entry(id.clone()).or_insert(fresh)
}

/// Relies on `DashMap::insert`: stores `b` under `id`, replacing any bucket
/// stored there.
#[verifier::external_body]
fn store_bucket(map: &mut BucketMap, id: &String, b: Bucket)
    ensures
        buckets_of(*final(map)) == buckets_of(*old(map)).insert(id@, b),
{
    map.insert(id.clone(), b);
}

/// What one debit on the store saw and left behind, for one identifier.
#[derive(Clone, Copy, Debug, PartialEq, Eq, Structural)]
pub struct Debit {
    pub allowed: bool,
    /// The identifier's bucket before the request.
    pub before: Bucket,
    /// The bucket stored back.
    pub after: Bucket,
}

/// Identifier-to-bucket map. Buckets are created on an identifier's first
/// request and never removed.
pub struct BucketStore {
    map: BucketMap,
    config: RateLimitConfig,
}

impl View for BucketStore {
    type V = Map<Seq<char>, Bucket>;

    closed spec fn view(&self) -> Map<Seq<char>, Bucket> {
        buckets_of(self.map)
    }
}

impl BucketStore {
    pub closed spec fn settings(&self) -> RateLimitConfig {
        self.config
    }

    pub closed spec fn wf(&self) -> bool {
        &&& self.config.wf()
        &&& all_within_capacity(buckets_of(self.map), self.config)
    }

    pub fn new(config: RateLimitConfig) -> (r: BucketStore)
        requires
            config.wf(),
        ensures
            r.wf(),
            r.settings() == config,
            all_within_capacity(r@, config),
            r@.dom() == Set::<Seq<char>>::empty(),
    {
        BucketStore { map: empty_map(), config }
    }

    pub fn config(&self) -> (r: RateLimitConfig)
        ensures
            r == self.settings(),
    {
        self.config
    }

    /// Looks up or creates the bucket of `id`, resets it if its window is
    /// over, and debits `requested` tokens if enough are left.
    pub fn try_debit(&mut self, id: &String, requested: i32, now: u64) -> (r: Debit)
        requires
            old(self).wf(),
            requested >= 0,
        ensures
            final(self).wf(),
            final(self).settings() == old(self).settings(),
            all_within_capacity(final(self)@, final(self).settings()),
            r.before == stored_or_fresh(old(self)@, id@, now, old(self).settings()),
            r.after == after_debit(r.before, requested, now, old(self).settings()),
            (final(self)@, r.allowed) == store_debit(old(self)@, id@, requested, now, old(self).settings()),
    {
        let before = entry_or_insert(&mut self.map, id, Bucket::fresh(now, self.config));
        let mut bucket = before;
        let allowed = bucket.try_debit(requested, now, self.config);
        store_bucket(&mut self.map, id, bucket);
        proof {
            let m = store_debit(old(self)@, id@, requested, now, self.config).0;
            assert(self@ =~= m);
            assert(within_capacity(before, self.config));
        }
        Debit { allowed, before, after: bucket }
    }
}

/// Every stored bucket holds between none and `capacity` tokens.
pub open spec fn all_within_capacity(m: Map<Seq<char>, Bucket>, cfg: RateLimitConfig) -> bool {
    forall|k: Seq<char>| m.contains_key(k) ==> within_capacity(#[trigger] m[k], cfg)
}

/// The bucket that a request for `id` starts from: the stored one, or a
/// fresh one on the identifier's first request.
pub open spec fn stored_or_fresh(
    m: Map<Seq<char>, Bucket>,
    id: Seq<char>,
    now: u64,
    cfg: RateLimitConfig,
) -> Bucket {
    if m.contains_key(id) {
        m[id]
    } else {
        fresh_bucket(now, cfg)
    }
}

/// One debit as a step on the store's contents `m`: the new contents and
/// whether the request was allowed.
pub open spec fn store_debit(
    m: Map<Seq<char>, Bucket>,
    id: Seq<char>,
    requested: i32,
    now: u64,
    cfg: RateLimitConfig,
) -> (Map<Seq<char>, Bucket>, bool) {
    let b = stored_or_fresh(m, id, now, cfg);
    (m.insert(id, after_debit(b, requested, now, cfg)), admits(b, requested, now, cfg))
}

/// Partitioning: a debit for `b` leaves what a request for any other
/// identifier `a` starts from, and how it is decided, as they were.
pub proof fn lemma_partitioned(
    m: Map<Seq<char>, Bucket>,
    a: Seq<char>,
    b: Seq<char>,
    requested_a: i32,
    now_a: u64,
    requested_b: i32,
    now_b: u64,
    cfg: RateLimitConfig,
)
    requires
        a != b,
    ensures
        ({
            let m2 = store_debit(m, b, requested_b, now_b, cfg).0;
            &&& stored_or_fresh(m2, a, now_a, cfg) == stored_or_fresh(m, a, now_a, cfg)
            &&& store_debit(m2, a, requested_a, now_a, cfg).1 == store_debit(m, a, requested_a, now_a, cfg).1
            &&& store_debit(m2, a, requested_a, now_a, cfg).0[a] == store_debit(m, a, requested_a, now_a, cfg).0[a]
        }),
{
}

/// Replays one-token requests for `id` at the instants `times` on the
/// store's contents `m`: how many of them are allowed.
pub open spec fn unit_requests(
    m: Map<Seq<char>, Bucket>,
    id: Seq<char>,
    times: Seq<u64>,
    cfg: RateLimitConfig,
) -> nat
    decreases times.len(),
{
    if times.len() == 0 {
        0
    } else {
        let s = store_debit(m, id, 1, times[0], cfg);
        unit_requests(s.0, id, times.drop_first(), cfg) + if s.1 { 1nat } else { 0nat }
    }
}

proof fn lemma_unit_requests_follow_bucket(
    m: Map<Seq<char>, Bucket>,
    id: Seq<char>,
    times: Seq<u64>,
    cfg: RateLimitConfig,
)
    requires
        m.contains_key(id),
    ensures
        unit_requests(m, id, times, cfg) == unit_run(m[id], times, cfg).1,
    decreases times.len(),
{
    if times.len() > 0 {
        let s = store_debit(m, id, 1, times[0], cfg);
        lemma_unit_requests_follow_bucket(s.0, id, times.drop_first(), cfg);
    }
}

/// No double-spend on the store: when `id` is new or its bucket is full,
/// of one-token requests for `id` that all fall in the window of that
/// bucket, exactly `min(n, capacity)` are allowed, never more than
/// `capacity`.
pub proof fn lemma_store_no_double_spend(
    m: Map<Seq<char>, Bucket>,
    id: Seq<char>,
    times: Seq<u64>,
    cfg: RateLimitConfig,
)
    requires
        cfg.wf(),
        times.len() > 0,
        stored_or_fresh(m, id, times[0], cfg).tokens == cfg.capacity,
        within_window(times, stored_or_fresh(m, id, times[0], cfg).last_refill, cfg),
    ensures
        unit_requests(m, id, times, cfg) <= cfg.capacity,
        unit_requests(m, id, times, cfg) == if times.len() <= cfg.capacity {
            times.len() as int
        } else {
            cfg.capacity as int
        },
{
    let b = stored_or_fresh(m, id, times[0], cfg);
    let m1 = m.insert(id, b);
    let s = store_debit(m, id, 1, times[0], cfg);
    let s1 = store_debit(m1, id, 1, times[0], cfg);
    assert(s.0 =~= s1.0);
    assert(unit_requests(m, id, times, cfg) == unit_requests(m1, id, times, cfg));
    lemma_unit_requests_follow_bucket(m1, id, times, cfg);
    lemma_no_double_spend(b, times, cfg);
}

} // verus!
