//! Middleware that runs only for the requests that a predicate accepts.

use vstd::prelude::*;

verus! {

/// A test on requests, implemented by users of the library.
pub trait Predicate<T> {
    /// Whether the predicate accepts the request.
    spec fn spec_matches(&self, request: T) -> bool;

    /// Tests the request.
    fn matches(&self, request: &T) -> (r: bool)
        ensures
            r == self.spec_matches(*request);
}

/// Runs `middleware` for the requests that `predicate` accepts and passes
/// the others on to the next middleware.
#[derive(Debug)]
pub struct Filter<P, M> {
    predicate: P,
    middleware: M,
}

/// Where a filter sends a request.
#[derive(Clone, Copy, Debug, PartialEq, Eq, Structural)]
pub enum Route {
    /// To the filtered middleware.
    Middleware,
    /// Past it, to the next middleware.
    Next,
}

/// A filter that runs `middleware` only for the requests that `predicate`
/// accepts.
pub fn filter<M, T, P: Predicate<T>>(predicate: P, middleware: M) -> (r: Filter<P, M>)
    ensures
        r.spec_predicate() == predicate,
        r.spec_middleware() == middleware,
{
    Filter { predicate, middleware }
}

impl<P, M> Filter<P, M> {
    /// The predicate of the filter.
    pub closed spec fn spec_predicate(&self) -> P {
        self.predicate
    }

    /// The filtered middleware.
    pub closed spec fn spec_middleware(&self) -> M {
        self.middleware
    }

    /// Where the request goes: to the middleware when the predicate
    /// accepts it, past it otherwise.
    pub fn route<T>(&self, request: &T) -> (r: Route) where P: Predicate<T>
        ensures
            (r == Route::Middleware) == self.spec_predicate().spec_matches(*request),
    {
        if self.predicate.matches(request) {
            Route::Middleware
        } else {
            Route::Next
        }
    }

    /// The filtered middleware, to be called for the requests routed to it.
    pub fn middleware(&self) -> (r: &M)
        ensures
            *r == self.spec_middleware(),
    {
        &self.middleware
    }
}

} // verus!
