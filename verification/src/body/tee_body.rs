//! A body that copies each data frame of a source body into a writer before
//! handing the frame on.
//!
//! The polling itself (of the source body, of the writer's `poll_write` and
//! `poll_shutdown`) happens outside the library: [`TeeBody`] decides, from its
//! state and the outcome of the last outside operation, what to do next.

use bytes::Bytes;
use vstd::prelude::*;

use crate::bindings::byte_buf::{bytes_view, bytes_len, bytes_clone, bytes_split_off};
use http_body::SizeHint;
use crate::bindings::body_hint::{size_hint_bounds, size_hint_lower, size_hint_new, size_hint_set_lower};
use super::frames::{concat_bytes, lemma_concat_bytes_push};

verus! {

/// A frame handed on by the tee: data, or the trailers of the source.
pub enum TeeFrame<H> {
    Data(Bytes),
    Trailers(H),
}

/// Why the tee failed: an error of the source or the writer, or a writer
/// that accepted no bytes of a non-empty frame.
pub enum TeeFault<E> {
    Failed(E),
    BrokenPipe,
}

/// What the tee yields when it is ready: `None` at the end of the stream.
pub type TeeItem<H, E> = Option<Result<TeeFrame<H>, TeeFault<E>>>;

/// The state of the tee between polls.
pub enum TeeStatus<H, E> {
    /// Frames are being read from the source and written.
    Open,
    /// The writer has been shut down; the stream has ended.
    Closed,
    /// No frame has been read yet.
    Pending,
    /// The writer must be shut down; the item, if any, is yielded once it is.
    Shutdown(TeeItem<H, E>),
}

/// Which outside operation the tee is waiting for.
#[derive(Clone, Copy, PartialEq, Eq, Debug)]
pub enum TeePhase {
    Idle,
    AwaitShutdown,
    AwaitSource,
    AwaitWrite,
}

/// What the driver of the tee must do next.
pub enum TeeAction<H, E> {
    /// Call `poll_shutdown` on the writer and report it with `on_shutdown`.
    PollShutdown,
    /// Poll the source for a frame and report it with `on_source`.
    PollSource,
    /// Call `poll_write` with these bytes and report it with `on_write`.
    Write(Bytes),
    /// The poll is over and is ready with this item.
    Ready(TeeItem<H, E>),
    /// The poll is over and pending; when the flag is set the task must be
    /// woken again at once.
    Pending(bool),
}

/// The outcome of polling the source body.
pub enum SourceEvent<H, E> {
    Pending,
    End,
    Data(Bytes),
    Trailers(H),
    Failed(E),
}

/// The outcome of `poll_write` on the writer.
pub enum WriteEvent<E> {
    Pending,
    Written(usize),
    Failed(E),
}

/// The outcome of `poll_shutdown` on the writer.
pub enum ShutdownEvent<E> {
    Pending,
    Done,
    Failed(E),
}

/// A body that writes each data frame of `src` into `dest` and yields the
/// part of the frame that `dest` accepted.
pub struct TeeBody<S, D, H, E> {
    src: S,
    dest: D,
    status: TeeStatus<H, E>,
    backlog: Vec<Bytes>,
    done: bool,
    phase: TeePhase,
    in_flight: Option<Bytes>,
    last: TeeItem<H, E>,
    received: Ghost<Seq<u8>>,
    written: Ghost<Seq<u8>>,
    emitted: Ghost<Seq<u8>>,
    lossless: Ghost<bool>,
}

/// The phase that follows an action: the outside operation that the driver
/// is to report next, or `Idle` once the poll is over.
pub open spec fn phase_after<H, E>(action: TeeAction<H, E>) -> TeePhase {
    match action {
        TeeAction::PollShutdown => TeePhase::AwaitShutdown,
        TeeAction::PollSource => TeePhase::AwaitSource,
        TeeAction::Write(_) => TeePhase::AwaitWrite,
        TeeAction::Ready(_) => TeePhase::Idle,
        TeeAction::Pending(_) => TeePhase::Idle,
    }
}

/// How many more outside operations a poll may still wait for from a
/// phase: the source, then a write, then the shutdown of the writer. Each
/// reported outcome lowers it, so a poll of the tee ends after at most
/// three of them.
pub open spec fn steps_left(phase: TeePhase) -> nat {
    match phase {
        TeePhase::AwaitSource => 3,
        TeePhase::AwaitWrite => 2,
        TeePhase::AwaitShutdown => 1,
        TeePhase::Idle => 0,
    }
}

/// The frame being written holds the bytes that a `Write` action hands
/// out.
pub open spec fn writes_in_flight<S, D, H, E>(tee: TeeBody<S, D, H, E>, action: TeeAction<H, E>) -> bool {
    action matches TeeAction::Write(w) ==> (tee.in_flight() matches Some(f) && bytes_view(f)
        == bytes_view(w))
}

/// The data bytes held by an item, if it is a data frame.
pub open spec fn item_data<H, E>(item: TeeItem<H, E>) -> Seq<u8> {
    match item {
        Some(Ok(TeeFrame::Data(b))) => bytes_view(b),
        _ => Seq::empty(),
    }
}

/// The data bytes held by a status, if it waits to yield a data frame.
pub open spec fn status_data<H, E>(status: TeeStatus<H, E>) -> Seq<u8> {
    match status {
        TeeStatus::Shutdown(item) => item_data(item),
        _ => Seq::empty(),
    }
}

/// The bytes of an optional buffer.
pub open spec fn opt_bytes(b: Option<Bytes>) -> Seq<u8> {
    match b {
        Some(x) => bytes_view(x),
        None => Seq::empty(),
    }
}

impl<S, D, H, E> TeeBody<S, D, H, E> {
    /// The status of the tee.
    pub closed spec fn status(&self) -> TeeStatus<H, E> {
        self.status
    }

    /// The phase of the tee.
    pub closed spec fn spec_phase(&self) -> TeePhase {
        self.phase
    }

    /// The frames read from the source that have not been written yet.
    pub closed spec fn backlog(&self) -> Seq<Bytes> {
        self.backlog@
    }

    /// The frame being written, while a write is awaited.
    pub closed spec fn in_flight(&self) -> Option<Bytes> {
        self.in_flight
    }

    /// The item taken out of the status while a shutdown is awaited.
    pub closed spec fn last(&self) -> TeeItem<H, E> {
        self.last
    }

    /// Whether the source ended during the current poll.
    pub closed spec fn done(&self) -> bool {
        self.done
    }

    /// All data bytes read from the source.
    pub closed spec fn received(&self) -> Seq<u8> {
        self.received@
    }

    /// All bytes that the writer accepted.
    pub closed spec fn written(&self) -> Seq<u8> {
        self.written@
    }

    /// All data bytes yielded to the caller.
    pub closed spec fn emitted(&self) -> Seq<u8> {
        self.emitted@
    }

    /// No data read from the source has been dropped.
    pub closed spec fn lossless(&self) -> bool {
        self.lossless@
    }

    /// The source body.
    pub closed spec fn source(&self) -> S {
        self.src
    }

    /// The writer.
    pub closed spec fn dest(&self) -> D {
        self.dest
    }

    /// The relations between the parts of the state that hold at every
    /// phase.
    pub closed spec fn core_inv(&self) -> bool {
        &&& self.written@ == self.emitted@ + status_data(self.status) + item_data(self.last)
        &&& self.lossless@ ==> self.received@ == self.written@ + opt_bytes(self.in_flight)
            + concat_bytes(self.backlog@)
    }

    /// The state of the tee is well formed.
    pub closed spec fn wf(&self) -> bool {
        &&& self.core_inv()
        &&& (self.phase == TeePhase::AwaitWrite) == (self.in_flight is Some)
        &&& self.phase != TeePhase::AwaitShutdown ==> self.last is None
        &&& self.phase == TeePhase::AwaitShutdown ==> (self.status matches TeeStatus::Shutdown(None))
        &&& self.phase == TeePhase::AwaitWrite ==> status_data(self.status) == Seq::<u8>::empty()
        &&& self.phase == TeePhase::AwaitSource ==> (self.status is Open || self.status is Pending)
    }

    /// A tee from `src` into `dest` that has read nothing yet.
    pub fn new(src: S, dest: D) -> (r: Self)
        ensures
            r.wf(),
            r.source() == src,
            r.dest() == dest,
            r.status() is Pending,
            r.spec_phase() == TeePhase::Idle,
            r.backlog() == Seq::<Bytes>::empty(),
            r.received() == Seq::<u8>::empty(),
            r.written() == Seq::<u8>::empty(),
            r.emitted() == Seq::<u8>::empty(),
            r.lossless(),
    {
        TeeBody {
            src,
            dest,
            status: TeeStatus::Pending,
            backlog: Vec::new(),
            done: false,
            phase: TeePhase::Idle,
            in_flight: None,
            last: None,
            received: Ghost(Seq::empty()),
            written: Ghost(Seq::empty()),
            emitted: Ghost(Seq::empty()),
            lossless: Ghost(true),
        }
    }

    /// The phase of the tee: which outside operation it waits for.
    pub fn phase(&self) -> (r: TeePhase)
        ensures
            r == self.spec_phase(),
    {
        self.phase
    }

    /// The source body, to read its size hint.
    pub fn source_body(&self) -> (r: &S)
        ensures
            *r == self.source(),
    {
        &self.src
    }

    /// The source body.
    pub fn source_mut(&mut self) -> (r: &mut S)
        ensures
            *r == old(self).source(),
            final(self).source() == *final(r),
            final(self).dest() == old(self).dest(),
            final(self).status() == old(self).status(),
            final(self).spec_phase() == old(self).spec_phase(),
            final(self).backlog() == old(self).backlog(),
            final(self).in_flight() == old(self).in_flight(),
            final(self).last() == old(self).last(),
            final(self).done() == old(self).done(),
            final(self).received() == old(self).received(),
            final(self).written() == old(self).written(),
            final(self).emitted() == old(self).emitted(),
            final(self).lossless() == old(self).lossless(),
            old(self).wf() ==> final(self).wf(),
    {
        &mut self.src
    }

    /// The writer.
    pub fn dest_mut(&mut self) -> (r: &mut D)
        ensures
            *r == old(self).dest(),
            final(self).dest() == *final(r),
            final(self).source() == old(self).source(),
            final(self).status() == old(self).status(),
            final(self).spec_phase() == old(self).spec_phase(),
            final(self).backlog() == old(self).backlog(),
            final(self).in_flight() == old(self).in_flight(),
            final(self).last() == old(self).last(),
            final(self).done() == old(self).done(),
            final(self).received() == old(self).received(),
            final(self).written() == old(self).written(),
            final(self).emitted() == old(self).emitted(),
            final(self).lossless() == old(self).lossless(),
            old(self).wf() ==> final(self).wf(),
    {
        &mut self.dest
    }

    /// The stream has ended: the writer has been shut down.
    pub fn is_end_stream(&self) -> (r: bool)
        ensures
            r == (self.status() is Closed),
    {
        match &self.status {
            TeeStatus::Closed => true,
            _ => false,
        }
    }

    /// The size hint of the tee: the lower bound of the source, no upper
    /// bound.
    pub fn size_hint(source_hint: &SizeHint) -> (r: SizeHint)
        ensures
            size_hint_bounds(r) == (size_hint_bounds(*source_hint).0, None::<u64>),
    {
        let mut hint = size_hint_new();
        size_hint_set_lower(&mut hint, size_hint_lower(source_hint));
        hint
    }

    /// The head of the polling loop: poll the source while open, shut the
    /// writer down when a shutdown is due, and end the stream once closed.
    fn advance(&mut self) -> (r: TeeAction<H, E>)
        requires
            old(self).core_inv(),
            old(self).last is None,
            old(self).in_flight is None,
        ensures
            final(self).wf(),
            final(self).spec_phase() == phase_after(r),
            writes_in_flight(*final(self), r),
            final(self).source() == old(self).source(),
            final(self).dest() == old(self).dest(),
            final(self).backlog() == old(self).backlog(),
            final(self).in_flight() is None,
            final(self).done() == old(self).done(),
            final(self).received() == old(self).received(),
            final(self).written() == old(self).written(),
            final(self).emitted() == old(self).emitted(),
            final(self).lossless() == old(self).lossless(),
            match old(self).status() {
                TeeStatus::Open | TeeStatus::Pending => {
                    &&& r is PollSource
                    &&& final(self).spec_phase() == TeePhase::AwaitSource
                    &&& final(self).status() == old(self).status()
                    &&& final(self).last() is None
                },
                TeeStatus::Shutdown(item) => {
                    &&& r is PollShutdown
                    &&& final(self).spec_phase() == TeePhase::AwaitShutdown
                    &&& final(self).status() matches TeeStatus::Shutdown(None)
                    &&& final(self).last() == item
                },
                TeeStatus::Closed => {
                    &&& r matches TeeAction::Ready(None)
                    &&& final(self).spec_phase() == TeePhase::Idle
                    &&& final(self).status() is Closed
                    &&& final(self).last() is None
                },
            },
    {
        match &mut self.status {
            TeeStatus::Open | TeeStatus::Pending => {
                self.phase = TeePhase::AwaitSource;
                TeeAction::PollSource
            },
            TeeStatus::Shutdown(item) => {
                let taken = item.take();
                self.last = taken;
                self.phase = TeePhase::AwaitShutdown;
                TeeAction::PollShutdown
            },
            TeeStatus::Closed => {
                self.phase = TeePhase::Idle;
                TeeAction::Ready(None)
            },
        }
    }

    /// Begins a poll of the tee.
    pub fn start_poll(&mut self) -> (r: TeeAction<H, E>)
        requires
            old(self).wf(),
            old(self).spec_phase() == TeePhase::Idle,
        ensures
            final(self).wf(),
            final(self).spec_phase() == phase_after(r),
            writes_in_flight(*final(self), r),
            final(self).source() == old(self).source(),
            final(self).dest() == old(self).dest(),
            final(self).backlog() == old(self).backlog(),
            !final(self).done(),
            final(self).received() == old(self).received(),
            final(self).written() == old(self).written(),
            final(self).emitted() == old(self).emitted(),
            final(self).lossless() == old(self).lossless(),
            match old(self).status() {
                TeeStatus::Open | TeeStatus::Pending => {
                    &&& r is PollSource
                    &&& final(self).spec_phase() == TeePhase::AwaitSource
                    &&& final(self).status() == old(self).status()
                },
                TeeStatus::Shutdown(item) => {
                    &&& r is PollShutdown
                    &&& final(self).spec_phase() == TeePhase::AwaitShutdown
                    &&& final(self).last() == item
                },
                TeeStatus::Closed => {
                    &&& r matches TeeAction::Ready(None)
                    &&& final(self).spec_phase() == TeePhase::Idle
                    &&& final(self).status() is Closed
                },
            },
    {
        self.done = false;
        self.advance()
    }

    /// Reports the outcome of `poll_shutdown`. Once the writer is shut down
    /// the tee is closed and yields the item it held, or the shutdown error
    /// when it held none.
    pub fn on_shutdown(&mut self, event: ShutdownEvent<E>) -> (r: TeeAction<H, E>)
        requires
            old(self).wf(),
            old(self).spec_phase() == TeePhase::AwaitShutdown,
        ensures
            final(self).wf(),
            final(self).spec_phase() == phase_after(r),
            writes_in_flight(*final(self), r),
            steps_left(final(self).spec_phase()) < steps_left(old(self).spec_phase()),
            final(self).spec_phase() == TeePhase::Idle,
            final(self).source() == old(self).source(),
            final(self).dest() == old(self).dest(),
            final(self).backlog() == old(self).backlog(),
            final(self).received() == old(self).received(),
            final(self).written() == old(self).written(),
            final(self).lossless() == old(self).lossless(),
            match event {
                ShutdownEvent::Pending => {
                    &&& r matches TeeAction::Pending(false)
                    &&& final(self).status() == TeeStatus::Shutdown(old(self).last())
                    &&& final(self).emitted() == old(self).emitted()
                },
                ShutdownEvent::Done => {
                    &&& r == TeeAction::<H, E>::Ready(old(self).last())
                    &&& final(self).status() is Closed
                    &&& final(self).emitted() == old(self).emitted() + item_data(old(self).last())
                },
                ShutdownEvent::Failed(e) => {
                    &&& r == TeeAction::<H, E>::Ready(
                        if old(self).last() is Some {
                            old(self).last()
                        } else {
                            Some(Err(TeeFault::Failed(e)))
                        },
                    )
                    &&& final(self).status() is Closed
                    &&& final(self).emitted() == old(self).emitted() + item_data(old(self).last())
                },
            },
    {
        let last = self.last.take();
        match event {
            ShutdownEvent::Pending => {
                self.status = TeeStatus::Shutdown(last);
                self.phase = TeePhase::Idle;
                TeeAction::Pending(false)
            },
            ShutdownEvent::Done => {
                self.status = TeeStatus::Closed;
                proof { self.emitted@ = self.emitted@ + item_data(last); }
                self.phase = TeePhase::Idle;
                TeeAction::Ready(last)
            },
            ShutdownEvent::Failed(e) => {
                self.status = TeeStatus::Closed;
                proof { self.emitted@ = self.emitted@ + item_data(last); }
                self.phase = TeePhase::Idle;
                match last {
                    Some(item) => TeeAction::Ready(Some(item)),
                    None => TeeAction::Ready(Some(Err(TeeFault::Failed(e)))),
                }
            },
        }
    }

    /// After the source has been polled: the first poll only arms the tee,
    /// otherwise the oldest backlog frame is written, or the loop goes on.
    fn after_source(&mut self) -> (r: TeeAction<H, E>)
        requires
            old(self).core_inv(),
            old(self).last is None,
            old(self).in_flight is None,
            status_data(old(self).status()) == Seq::<u8>::empty(),
            !(old(self).status() is Closed),
        ensures
            final(self).wf(),
            final(self).spec_phase() == phase_after(r),
            writes_in_flight(*final(self), r),
            final(self).source() == old(self).source(),
            final(self).dest() == old(self).dest(),
            final(self).done() == old(self).done(),
            final(self).received() == old(self).received(),
            final(self).written() == old(self).written(),
            final(self).emitted() == old(self).emitted(),
            final(self).lossless() == old(self).lossless(),
            old(self).status() is Pending ==> {
                &&& r matches TeeAction::Pending(true)
                &&& final(self).status() is Open
                &&& final(self).spec_phase() == TeePhase::Idle
                &&& final(self).backlog() == old(self).backlog()
            },
            !(old(self).status() is Pending) && old(self).backlog().len() > 0 ==> {
                &&& r matches TeeAction::Write(b) && bytes_view(b) == bytes_view(
                    old(self).backlog()[0],
                )
                &&& final(self).in_flight() == Some(old(self).backlog()[0])
                &&& final(self).backlog() == old(self).backlog().drop_first()
                &&& final(self).status() == old(self).status()
                &&& final(self).spec_phase() == TeePhase::AwaitWrite
            },
            !(old(self).status() is Pending) && old(self).backlog().len() == 0 ==> {
                &&& final(self).backlog() == old(self).backlog()
                &&& match old(self).status() {
                    TeeStatus::Shutdown(item) => {
                        &&& r is PollShutdown
                        &&& final(self).spec_phase() == TeePhase::AwaitShutdown
                        &&& final(self).last() == item
                    },
                    _ => if old(self).done() {
                        &&& r is PollShutdown
                        &&& final(self).spec_phase() == TeePhase::AwaitShutdown
                        &&& final(self).last() is None
                        &&& final(self).status() matches TeeStatus::Shutdown(None)
                    } else {
                        &&& r is PollSource
                        &&& final(self).spec_phase() == TeePhase::AwaitSource
                        &&& final(self).status() == old(self).status()
                    },
                }
            },
    {
        if let TeeStatus::Pending = self.status {
            self.status = TeeStatus::Open;
            self.phase = TeePhase::Idle;
            return TeeAction::Pending(true);
        }
        if self.backlog.len() > 0 {
            let ghost old_backlog = self.backlog@;
            let front = self.backlog.remove(0);
            assert(old_backlog.remove(0) =~= old_backlog.drop_first());
            assert(concat_bytes(old_backlog) == bytes_view(front) + concat_bytes(self.backlog@));
            assert(self.written@ + concat_bytes(old_backlog) =~= self.written@ + bytes_view(front)
                + concat_bytes(self.backlog@));
            let copy = bytes_clone(&front);
            self.in_flight = Some(front);
            self.phase = TeePhase::AwaitWrite;
            TeeAction::Write(copy)
        } else {
            if self.done {
                if let TeeStatus::Open = self.status {
                    self.status = TeeStatus::Shutdown(None);
                }
            }
            self.advance()
        }
    }

    /// Reports the outcome of polling the source body. Once the source has
    /// ended and nothing is left to write, the writer is shut down and the
    /// stream ends.
    pub fn on_source(&mut self, event: SourceEvent<H, E>) -> (r: TeeAction<H, E>)
        requires
            old(self).wf(),
            old(self).spec_phase() == TeePhase::AwaitSource,
        ensures
            final(self).wf(),
            final(self).spec_phase() == phase_after(r),
            writes_in_flight(*final(self), r),
            steps_left(final(self).spec_phase()) < steps_left(old(self).spec_phase()),
            final(self).source() == old(self).source(),
            final(self).dest() == old(self).dest(),
            final(self).written() == old(self).written(),
            final(self).emitted() == old(self).emitted(),
            match event {
                SourceEvent::Pending => {
                    &&& r matches TeeAction::Pending(false)
                    &&& final(self).spec_phase() == TeePhase::Idle
                    &&& final(self).status() == old(self).status()
                    &&& final(self).backlog() == old(self).backlog()
                    &&& final(self).received() == old(self).received()
                    &&& final(self).lossless() == old(self).lossless()
                },
                SourceEvent::Failed(e) => {
                    &&& r is PollShutdown
                    &&& final(self).spec_phase() == TeePhase::AwaitShutdown
                    &&& final(self).last() == Some(Err::<TeeFrame<H>, TeeFault<E>>(
                        TeeFault::Failed(e),
                    ))
                    &&& final(self).backlog() == Seq::<Bytes>::empty()
                    &&& final(self).received() == old(self).received()
                    &&& final(self).lossless() == (old(self).lossless()
                        && old(self).backlog().len() == 0)
                },
                SourceEvent::Data(b) => {
                    &&& final(self).received() == old(self).received() + bytes_view(b)
                    &&& final(self).lossless() == old(self).lossless()
                    &&& final(self).done() == old(self).done()
                    &&& old(self).status() is Pending ==> {
                        &&& r matches TeeAction::Pending(true)
                        &&& final(self).status() is Open
                        &&& final(self).backlog() == old(self).backlog().push(b)
                    }
                    &&& old(self).status() is Open ==> {
                        &&& r matches TeeAction::Write(w) && bytes_view(w) == bytes_view(
                            old(self).backlog().push(b)[0],
                        )
                        &&& final(self).spec_phase() == TeePhase::AwaitWrite
                        &&& final(self).backlog() == old(self).backlog().push(b).drop_first()
                        &&& final(self).status() == old(self).status()
                    }
                },
                SourceEvent::Trailers(h) => {
                    &&& final(self).received() == old(self).received()
                    &&& final(self).lossless() == old(self).lossless()
                    &&& old(self).backlog().len() > 0 ==> {
                        &&& r matches TeeAction::Write(w) && bytes_view(w) == bytes_view(
                            old(self).backlog()[0],
                        )
                        &&& final(self).backlog() == old(self).backlog().drop_first()
                        &&& final(self).status() == TeeStatus::<H, E>::Shutdown(
                            Some(Ok(TeeFrame::Trailers(h))),
                        )
                    }
                    &&& old(self).backlog().len() == 0 ==> {
                        &&& r is PollShutdown
                        &&& final(self).last() == Some(Ok::<TeeFrame<H>, TeeFault<E>>(
                            TeeFrame::Trailers(h),
                        ))
                        &&& final(self).status() matches TeeStatus::Shutdown(None)
                    }
                },
                SourceEvent::End => {
                    &&& final(self).done()
                    &&& final(self).received() == old(self).received()
                    &&& final(self).lossless() == old(self).lossless()
                    &&& old(self).status() is Pending ==> {
                        &&& r matches TeeAction::Pending(true)
                        &&& final(self).status() is Open
                        &&& final(self).backlog() == old(self).backlog()
                    }
                    &&& old(self).status() is Open && old(self).backlog().len() > 0 ==> {
                        &&& r matches TeeAction::Write(w) && bytes_view(w) == bytes_view(
                            old(self).backlog()[0],
                        )
                        &&& final(self).backlog() == old(self).backlog().drop_first()
                        &&& final(self).status() == old(self).status()
                    }
                    &&& old(self).status() is Open && old(self).backlog().len() == 0 ==> {
                        &&& r is PollShutdown
                        &&& final(self).backlog() == old(self).backlog()
                        &&& final(self).last() is None
                        &&& final(self).status() matches TeeStatus::Shutdown(None)
                    }
                },
            },
    {
        match event {
            SourceEvent::Pending => {
                self.phase = TeePhase::Idle;
                TeeAction::Pending(false)
            },
            SourceEvent::Failed(e) => {
                proof { self.lossless@ = self.lossless@ && self.backlog@.len() == 0; }
                self.backlog.clear();
                self.status = TeeStatus::Shutdown(Some(Err(TeeFault::Failed(e))));
                self.advance()
            },
            SourceEvent::Data(b) => {
                proof {
                    lemma_concat_bytes_push(self.backlog@, b);
                    if self.lossless@ {
                        assert(self.received@ + bytes_view(b) =~= self.written@ + opt_bytes(
                            self.in_flight,
                        ) + concat_bytes(self.backlog@.push(b)));
                    }
                }
                proof { self.received@ = self.received@ + bytes_view(b); }
                self.backlog.push(b);
                self.after_source()
            },
            SourceEvent::Trailers(h) => {
                self.status = TeeStatus::Shutdown(Some(Ok(TeeFrame::Trailers(h))));
                self.after_source()
            },
            SourceEvent::End => {
                self.done = true;
                self.after_source()
            },
        }
    }

    /// Reports the outcome of `poll_write` for the frame being written. The
    /// accepted part of the frame is yielded (or, when the source has ended
    /// and nothing is left to write, kept to be yielded after the shutdown);
    /// the rest goes back to the front of the backlog, as does the whole
    /// frame when the write is pending.
    pub fn on_write(&mut self, event: WriteEvent<E>) -> (r: TeeAction<H, E>)
        requires
            old(self).wf(),
            old(self).spec_phase() == TeePhase::AwaitWrite,
        ensures
            final(self).wf(),
            final(self).spec_phase() == phase_after(r),
            writes_in_flight(*final(self), r),
            steps_left(final(self).spec_phase()) < steps_left(old(self).spec_phase()),
            final(self).source() == old(self).source(),
            final(self).dest() == old(self).dest(),
            final(self).received() == old(self).received(),
            final(self).in_flight() is None,
            ({
                let front = opt_bytes(old(self).in_flight());
                match event {
                    WriteEvent::Pending => {
                        &&& r matches TeeAction::Pending(false)
                        &&& final(self).spec_phase() == TeePhase::Idle
                        &&& final(self).status() == old(self).status()
                        &&& old(self).in_flight() matches Some(f) && final(self).backlog() == seq![
                            f,
                        ] + old(self).backlog()
                        &&& final(self).written() == old(self).written()
                        &&& final(self).emitted() == old(self).emitted()
                        &&& final(self).lossless() == old(self).lossless()
                    },
                    WriteEvent::Failed(e) => {
                        &&& r is PollShutdown
                        &&& final(self).last() == Some(Err::<TeeFrame<H>, TeeFault<E>>(
                            TeeFault::Failed(e),
                        ))
                        &&& final(self).status() matches TeeStatus::Shutdown(None)
                        &&& final(self).backlog() == Seq::<Bytes>::empty()
                        &&& final(self).written() == old(self).written()
                        &&& final(self).emitted() == old(self).emitted()
                        &&& !final(self).lossless()
                    },
                    WriteEvent::Written(n) => if n == 0 && front.len() > 0 {
                        &&& r is PollShutdown
                        &&& final(self).last() == Some(Err::<TeeFrame<H>, TeeFault<E>>(
                            TeeFault::BrokenPipe,
                        ))
                        &&& final(self).status() matches TeeStatus::Shutdown(None)
                        &&& final(self).backlog() == old(self).backlog()
                        &&& final(self).written() == old(self).written()
                        &&& final(self).emitted() == old(self).emitted()
                    } else {
                        let k = if n < front.len() { n as int } else { front.len() as int };
                        let accepted = front.take(k);
                        &&& final(self).written() == old(self).written() + accepted
                        &&& final(self).lossless() == old(self).lossless()
                        &&& n < front.len() ==> final(self).backlog().len() == old(self).backlog().len() + 1
                            && bytes_view(final(self).backlog()[0]) == front.skip(n as int)
                            && final(self).backlog().drop_first() == old(self).backlog()
                        &&& n >= front.len() ==> final(self).backlog() == old(self).backlog()
                        &&& if old(self).done() && !(n < front.len()) && old(self).backlog().len()
                            == 0 {
                            &&& r is PollShutdown
                            &&& final(self).emitted() == old(self).emitted()
                            &&& final(self).last() matches Some(Ok(TeeFrame::Data(d)))
                                && bytes_view(d) == accepted
                            &&& final(self).status() matches TeeStatus::Shutdown(None)
                        } else {
                            &&& r matches TeeAction::Ready(Some(Ok(TeeFrame::Data(d))))
                                && bytes_view(d) == accepted
                            &&& final(self).spec_phase() == TeePhase::Idle
                            &&& final(self).status() == old(self).status()
                            &&& final(self).emitted() == old(self).emitted() + accepted
                        }
                    },
                }
            }),
    {
        let mut front = match self.in_flight.take() {
            Some(b) => b,
            None => {
                assert(false);
                return TeeAction::Pending(false);
            },
        };
        match event {
            WriteEvent::Pending => {
                let ghost old_backlog = self.backlog@;
                self.backlog.insert(0, front);
                proof {
                    assert(self.backlog@.drop_first() =~= old_backlog);
                    assert(concat_bytes(self.backlog@) == bytes_view(self.backlog@[0]) + concat_bytes(
                        old_backlog,
                    ));
                    if self.lossless@ {
                        assert(self.received@ =~= self.written@ + opt_bytes(self.in_flight)
                            + concat_bytes(self.backlog@));
                    }
                }
                self.phase = TeePhase::Idle;
                TeeAction::Pending(false)
            },
            WriteEvent::Failed(e) => {
                proof { self.lossless@ = false; }
                self.backlog.clear();
                self.status = TeeStatus::Shutdown(Some(Err(TeeFault::Failed(e))));
                self.advance()
            },
            WriteEvent::Written(offset) => {
                let remaining = bytes_len(&front);
                if offset == 0 && remaining > 0 {
                    proof { self.lossless@ = false; }
                    self.status = TeeStatus::Shutdown(Some(Err(TeeFault::BrokenPipe)));
                    return self.advance();
                }
                let ghost whole = bytes_view(front);
                let ghost old_backlog = self.backlog@;
                if offset < remaining {
                    let rest = bytes_split_off(&mut front, offset);
                    self.backlog.insert(0, rest);
                    assert(self.backlog@.drop_first() =~= old_backlog);
                    assert(whole =~= bytes_view(front) + bytes_view(rest));
                    assert(concat_bytes(self.backlog@) == bytes_view(rest) + concat_bytes(
                        old_backlog,
                    ));
                } else {
                    assert(whole.take(remaining as int) =~= whole);
                }
                proof {
                    if self.lossless@ {
                        assert(self.received@ =~= (self.written@ + bytes_view(front)) + opt_bytes(
                            self.in_flight,
                        ) + concat_bytes(self.backlog@));
                    }
                    self.written@ = self.written@ + bytes_view(front);
                }
                if self.done && self.backlog.len() == 0 {
                    self.status = TeeStatus::Shutdown(Some(Ok(TeeFrame::Data(front))));
                    self.advance()
                } else {
                    proof { self.emitted@ = self.emitted@ + bytes_view(front); }
                    self.phase = TeePhase::Idle;
                    TeeAction::Ready(Some(Ok(TeeFrame::Data(front))))
                }
            },
        }
    }
}

/// What a well-formed tee holds in each phase: a frame in flight exactly
/// while a write is awaited, an emptied shutdown status while a shutdown is
/// awaited, and an open or unstarted status while the source is awaited.
pub proof fn lemma_tee_phases<S, D, H, E>(tee: TeeBody<S, D, H, E>)
    requires
        tee.wf(),
    ensures
        (tee.spec_phase() == TeePhase::AwaitWrite) == (tee.in_flight() is Some),
        tee.spec_phase() == TeePhase::AwaitShutdown ==> (tee.status() matches TeeStatus::Shutdown(None)),
        tee.spec_phase() != TeePhase::AwaitShutdown ==> tee.last() is None,
        tee.spec_phase() == TeePhase::AwaitSource ==> (tee.status() is Open || tee.status() is Pending),
{
}

/// Every data byte that a tee has yielded was first accepted by its writer,
/// in the same order: what the tee yielded is a prefix of what it wrote,
/// and once the tee is closed the two are equal.
pub proof fn lemma_tee_yields_what_it_wrote<S, D, H, E>(tee: TeeBody<S, D, H, E>)
    requires
        tee.wf(),
    ensures
        tee.emitted().is_prefix_of(tee.written()),
        tee.status() is Closed && tee.spec_phase() == TeePhase::Idle ==> tee.emitted()
            == tee.written(),
{
    assert(tee.written() == tee.emitted() + status_data(tee.status()) + item_data(tee.last()));
    assert(tee.emitted().is_prefix_of(tee.written())) by {
        assert(tee.written().take(tee.emitted().len() as int) =~= tee.emitted());
    }
}

/// While no data has been dropped, everything read from the source is either
/// written already, being written, or waiting in the backlog, in the order it
/// was read; so a closed, lossless tee has yielded exactly what it read.
pub proof fn lemma_tee_lossless_accounting<S, D, H, E>(tee: TeeBody<S, D, H, E>)
    requires
        tee.wf(),
        tee.lossless(),
    ensures
        tee.received() == tee.written() + opt_bytes(tee.in_flight()) + concat_bytes(tee.backlog()),
        tee.status() is Closed && tee.spec_phase() == TeePhase::Idle && tee.backlog().len() == 0
            ==> tee.received() == tee.emitted(),
{
}

} // verus!
