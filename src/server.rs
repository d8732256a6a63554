use vstd::prelude::*;

verus! {

/// The service as handed to the transport: owns the handler it routes to.
pub struct RateLimiterServer<T> {
    inner: T,
}

impl<T> RateLimiterServer<T> {
    pub closed spec fn handler(&self) -> T {
        self.inner
    }

    pub fn new(inner: T) -> (r: RateLimiterServer<T>)
        ensures
            r.handler() == inner,
    {
        RateLimiterServer { inner }
    }

    pub fn inner(&self) -> (r: &T)
        ensures
            *r == self.handler(),
    {
        &self.inner
    }
}

} // verus!
