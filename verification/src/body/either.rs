//! A body that is one of two kinds.

use vstd::prelude::*;

verus! {

/// One of two bodies.
#[derive(Debug)]
pub enum Either<L, R> {
    Left(L),
    Right(R),
}

/// A mutable borrow of the body that an `Either` holds.
#[derive(Debug)]
pub enum EitherProjection<'a, L, R> {
    Left(&'a mut L),
    Right(&'a mut R),
}

impl<L, R> Either<L, R> {
    /// The left body, if that is the one held.
    pub open spec fn spec_left(&self) -> Option<L> {
        match self {
            Either::Left(l) => Some(*l),
            Either::Right(_) => None,
        }
    }

    /// The right body, if that is the one held.
    pub open spec fn spec_right(&self) -> Option<R> {
        match self {
            Either::Left(_) => None,
            Either::Right(x) => Some(*x),
        }
    }

    /// Borrows the body held, to be polled in place.
    pub fn project(&mut self) -> (r: EitherProjection<'_, L, R>)
        ensures
            match r {
                EitherProjection::Left(l) => {
                    &&& old(self).spec_left() == Some(*l)
                    &&& final(self).spec_left() == Some(*final(l))
                },
                EitherProjection::Right(x) => {
                    &&& old(self).spec_right() == Some(*x)
                    &&& final(self).spec_right() == Some(*final(x))
                },
            },
    {
        match self {
            Either::Left(left) => EitherProjection::Left(left),
            Either::Right(right) => EitherProjection::Right(right),
        }
    }
}

} // verus!
