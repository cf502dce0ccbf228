use vstd::prelude::*;

verus! {

/// A service bound to the context it serves requests in; each request is
/// served by a copy of both.
#[derive(Debug, Clone)]
pub struct HyperService<S, T> {
    ctx: S,
    inner: T,
}

impl<S, T> HyperService<S, T> {
    /// The context the service runs in.
    pub closed spec fn spec_ctx(&self) -> S {
        self.ctx
    }

    /// The wrapped service.
    pub closed spec fn spec_inner(&self) -> T {
        self.inner
    }

    /// Binds `inner` to `ctx`.
    pub fn new(ctx: S, inner: T) -> (r: Self)
        ensures
            r.spec_ctx() == ctx,
            r.spec_inner() == inner,
    {
        HyperService { ctx, inner }
    }

    /// The context the service runs in.
    pub fn ctx(&self) -> (r: &S)
        ensures
            *r == self.spec_ctx(),
    {
        &self.ctx
    }

    /// The wrapped service.
    pub fn inner(&self) -> (r: &T)
        ensures
            *r == self.spec_inner(),
    {
        &self.inner
    }
}

} // verus!
