//! Middleware that catches the errors of the rest of the chain.

use vstd::prelude::*;

use crate::error::{responds_with, Error, ErrorResponse};

verus! {

/// Calls a closure on each error of the rest of the chain before the error
/// is turned into a response.
#[derive(Debug)]
pub struct Inspect<F> {
    inspect: F,
}

/// Maps each error of the rest of the chain to another error, which is
/// turned into the response.
#[derive(Debug)]
pub struct MapError<F> {
    map: F,
}

/// A middleware that inspects the errors of the rest of the chain.
pub fn inspect<F>(f: F) -> (r: Inspect<F>)
    ensures
        r.spec_inspect() == f,
{
    Inspect { inspect: f }
}

/// A middleware that maps the errors of the rest of the chain.
pub fn map<F>(f: F) -> (r: MapError<F>)
    ensures
        r.spec_map() == f,
{
    MapError { map: f }
}

/// What a middleware that catches errors answers with.
#[derive(Debug)]
pub enum Rescued<R> {
    /// The response of the rest of the chain, passed on.
    Response(R),
    /// The response made from the error of the rest of the chain.
    Recovered(ErrorResponse),
}

impl<F: Fn(&Error)> Inspect<F> {
    /// The answer to the outcome of the rest of the chain: a response is
    /// passed on; an error is handed to the closure and then becomes its
    /// response. No error gets through.
    pub fn rescue<R>(&self, outcome: Result<R, Error>) -> (r: Rescued<R>)
        requires
            forall|e: &Error| self.spec_inspect().requires((e,)),
        ensures
            match outcome {
                Ok(response) => r == Rescued::Response(response),
                Err(e) => {
                    &&& self.spec_inspect().ensures((&e,), ())
                    &&& r matches Rescued::Recovered(x) && responds_with(e.view(), x)
                },
            },
    {
        match outcome {
            Ok(response) => Rescued::Response(response),
            Err(error) => {
                let inspect = &self.inspect;
                assert(self.spec_inspect().requires((&error,)));
                inspect(&error);
                Rescued::Recovered(error.into_response())
            },
        }
    }
}

impl<F: Fn(Error) -> Error> MapError<F> {
    /// The answer to the outcome of the rest of the chain: a response is
    /// passed on; an error is mapped by the closure, and what it maps to
    /// becomes the response. No error gets through.
    pub fn rescue<R>(&self, outcome: Result<R, Error>) -> (r: Rescued<R>)
        requires
            forall|e: Error| self.spec_map().requires((e,)),
        ensures
            match outcome {
                Ok(response) => r == Rescued::Response(response),
                Err(e) => exists|m: Error|
                    {
                        &&& self.spec_map().ensures((e,), m)
                        &&& r matches Rescued::Recovered(x) && responds_with(m.view(), x)
                    },
            },
    {
        match outcome {
            Ok(response) => Rescued::Response(response),
            Err(error) => {
                let map = &self.map;
                assert(self.spec_map().requires((error,)));
                let mapped = map(error);
                Rescued::Recovered(mapped.into_response())
            },
        }
    }
}

impl<F> Inspect<F> {
    /// The closure that inspects errors.
    pub closed spec fn spec_inspect(&self) -> F {
        self.inspect
    }

    /// The closure that inspects errors.
    pub fn inspector(&self) -> (r: &F)
        ensures
            *r == self.spec_inspect(),
    {
        &self.inspect
    }
}

impl<F> MapError<F> {
    /// The closure that maps errors.
    pub closed spec fn spec_map(&self) -> F {
        self.map
    }

    /// The closure that maps errors.
    pub fn mapper(&self) -> (r: &F)
        ensures
            *r == self.spec_map(),
    {
        &self.map
    }
}

} // verus!
