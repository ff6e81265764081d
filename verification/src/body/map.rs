//! Bodies whose data frames are passed through functions.

use bytes::Bytes;
use std::marker::PhantomData;
use vstd::prelude::*;

use crate::error::Error;
use super::buffered::Buffered;
use super::either::Either;

verus! {

/// A body whose data frames are passed through a function; a frame that
/// the function fails on ends in the function's error.
pub struct MapBody<F, B, E> {
    body: B,
    map_fn: F,
    error: PhantomData<E>,
}

/// A response body whose data frames are passed through a queue of
/// functions, the last one pushed first.
pub struct Mapped<S, F> {
    body: Either<Buffered, S>,
    queue: Vec<F>,
}

/// What passing `input` through the functions of `queue`, from the last to
/// the first, may give: each function gets what the one after it gave,
/// and the first failure is the outcome.
pub open spec fn mapped_through<F: Fn(Bytes) -> Result<Bytes, Error>>(
    queue: Seq<F>,
    input: Bytes,
    output: Result<Bytes, Error>,
) -> bool
    decreases queue.len(),
{
    if queue.len() == 0 {
        output == Ok::<Bytes, Error>(input)
    } else {
        exists|mid: Result<Bytes, Error>|
            #[trigger] call_ensures(queue.last(), (input,), mid) && match mid {
                Ok(b) => mapped_through(queue.drop_last(), b, output),
                Err(e) => output == Err::<Bytes, Error>(e),
            }
    }
}

impl<F: Fn(Bytes) -> Result<Bytes, E>, B, E> MapBody<F, B, E> {
    /// The body whose frames are mapped.
    pub closed spec fn spec_body(&self) -> B {
        self.body
    }

    /// The function frames are passed through.
    pub closed spec fn spec_map_fn(&self) -> F {
        self.map_fn
    }

    /// A body passing the data frames of `body` through `map_fn`.
    pub fn new(body: B, map_fn: F) -> (r: MapBody<F, B, E>)
        ensures
            r.spec_body() == body,
            r.spec_map_fn() == map_fn,
    {
        MapBody { body, map_fn, error: PhantomData }
    }

    /// The body, to be polled for its next frame.
    pub fn body_mut(&mut self) -> (r: &mut B)
        ensures
            *r == old(self).spec_body(),
            final(self).spec_body() == *final(r),
            final(self).spec_map_fn() == old(self).spec_map_fn(),
    {
        &mut self.body
    }

    /// Passes the data of a frame through the function.
    pub fn map_data(&self, data: Bytes) -> (r: Result<Bytes, E>)
        requires
            call_requires(self.spec_map_fn(), (data,)),
        ensures
            call_ensures(self.spec_map_fn(), (data,), r),
    {
        (self.map_fn)(data)
    }
}

impl<S, F: Fn(Bytes) -> Result<Bytes, Error>> Mapped<S, F> {
    /// The body whose frames are mapped.
    pub closed spec fn spec_body(&self) -> Either<Buffered, S> {
        self.body
    }

    /// The functions frames are passed through, in the order pushed.
    pub closed spec fn spec_queue(&self) -> Seq<F> {
        self.queue@
    }

    /// A body with no functions yet.
    pub fn new(body: Either<Buffered, S>) -> (r: Mapped<S, F>)
        ensures
            r.spec_body() == body,
            r.spec_queue().len() == 0,
    {
        Mapped { body, queue: Vec::new() }
    }

    /// Adds a function; it runs before those pushed earlier.
    pub fn push(&mut self, map: F)
        ensures
            final(self).spec_body() == old(self).spec_body(),
            final(self).spec_queue() == old(self).spec_queue().push(map),
    {
        self.queue.push(map);
    }

    /// True when the body is buffered and holds no data.
    pub fn is_empty(&self) -> (r: bool)
        ensures
            r == (self.spec_body() matches Either::Left(b) && b.spec_data().len() == 0),
    {
        match &self.body {
            Either::Left(buffered) => buffered.is_empty(),
            Either::Right(_) => false,
        }
    }

    /// The number of bytes of a buffered body; none for a streaming one.
    pub fn len(&self) -> (r: Option<usize>)
        ensures
            match self.spec_body() {
                Either::Left(b) => r == Some(b.spec_data().len() as usize),
                Either::Right(_) => r is None,
            },
    {
        match &self.body {
            Either::Left(buffered) => Some(buffered.len()),
            Either::Right(_) => None,
        }
    }

    /// The body, to be polled for its next frame.
    pub fn body_mut(&mut self) -> (r: &mut Either<Buffered, S>)
        ensures
            *r == old(self).spec_body(),
            final(self).spec_body() == *final(r),
            final(self).spec_queue() == old(self).spec_queue(),
    {
        &mut self.body
    }

    /// Passes the data of a frame through the functions, the last pushed
    /// first; the first failure is the outcome.
    pub fn map_data(&self, data: Bytes) -> (r: Result<Bytes, Error>)
        requires
            forall|i: int, d: Bytes| 0 <= i < self.spec_queue().len() ==> #[trigger] call_requires(
                self.spec_queue()[i],
                (d,),
            ),
        ensures
            mapped_through(self.spec_queue(), data, r),
    {
        let ghost queue = self.spec_queue();
        let mut current = data;
        let mut i: usize = self.queue.len();
        assert(queue.take(i as int) =~= queue);
        while i > 0
            invariant
                i <= self.queue@.len(),
                queue == self.queue@,
                forall|j: int, d: Bytes| 0 <= j < queue.len() ==> #[trigger] call_requires(queue[j], (d,)),
                forall|out: Result<Bytes, Error>|
                    mapped_through(queue.take(i as int), current, out) ==> mapped_through(queue, data, out),
            decreases i,
        {
            i -= 1;
            let ghost before = current;
            let step = (self.queue[i])(current);
            proof {
                assert(queue.take(i + 1).last() == queue[i as int]);
                assert(queue.take(i + 1).drop_last() =~= queue.take(i as int));
            }
            match step {
                Ok(next) => {
                    proof {
                        assert forall|out: Result<Bytes, Error>|
                            mapped_through(queue.take(i as int), next, out) implies mapped_through(queue, data, out) by {
                            assert(call_ensures(queue.take(i + 1).last(), (before,), Ok::<Bytes, Error>(next)));
                            assert(mapped_through(queue.take(i + 1), before, out));
                        }
                    }
                    current = next;
                },
                Err(e) => {
                    proof {
                        assert(call_ensures(queue.take(i + 1).last(), (before,), Err::<Bytes, Error>(e)));
                        assert(mapped_through(queue.take(i + 1), before, Err::<Bytes, Error>(e)));
                    }
                    return Err(e);
                },
            }
        }
        assert(queue.take(0) =~= Seq::<F>::empty());
        Ok(current)
    }
}

/// The function pushed last runs first: mapping through a queue with one
/// more function pushed hands the input to that function, and passes what
/// it gives on to the queue as it was, or ends with its failure.
pub proof fn lemma_last_pushed_runs_first<F: Fn(Bytes) -> Result<Bytes, Error>>(
    queue: Seq<F>,
    f: F,
    input: Bytes,
    output: Result<Bytes, Error>,
)
    ensures
        mapped_through(queue.push(f), input, output) <==> exists|mid: Result<Bytes, Error>|
            #[trigger] call_ensures(f, (input,), mid) && match mid {
                Ok(b) => mapped_through(queue, b, output),
                Err(e) => output == Err::<Bytes, Error>(e),
            },
{
    assert(queue.push(f).drop_last() =~= queue);
    assert(queue.push(f).last() == f);
}

} // verus!
