//! Reading a whole request body into memory.

use bytes::Bytes;
use http::HeaderMap;
use vstd::prelude::*;

use crate::bindings::byte_buf::{
    bytes_as_slice, bytes_len, bytes_mut_freeze, bytes_mut_put, bytes_mut_view,
    bytes_mut_with_capacity, bytes_view,
};
use crate::bindings::http_types::{
    header_map_entries, header_map_extend, header_map_keys_len, header_map_new,
    HEADER_MAP_MERGE_LIMIT,
};
use crate::bindings::text::{string_from_utf8, utf8_error_text_of};
use crate::error::{Error, ErrorView};
use super::frames::bytes_views;
use super::limit::{body_error_view, error_from_boxed, BodyError};
use super::response_body::total_len;

verus! {

/// The entire contents of a request body, in memory: its data frames in
/// order and its trailers.
#[derive(Debug)]
pub struct BodyData {
    payload: Vec<Bytes>,
    trailers: Option<HeaderMap>,
}

/// What the wrapped body yielded when it was polled.
#[derive(Debug)]
pub enum ReadEvent {
    /// A data frame.
    Data(Bytes),
    /// A trailers frame.
    Trailers(HeaderMap),
    /// A frame of another kind, which is passed over.
    Other,
    /// The body failed.
    Failed(BodyError),
    /// The body ended.
    End,
}

/// Reads a body to its end, collecting its data frames and trailers. The
/// caller polls the wrapped body and hands each outcome to `on_event`.
pub struct BodyReader<B> {
    body: B,
    payload: Option<Vec<Bytes>>,
    trailers: Option<HeaderMap>,
    frames: Ghost<Seq<Seq<u8>>>,
}

/// The text of the error for a body that was already read.
pub open spec fn already_read_text() -> Seq<char> {
    "request body already read"@
}

/// The error for a body that was already read: `500 Internal Server Error`.
pub open spec fn already_read_view() -> ErrorView {
    ErrorView { as_json: false, status: 500, error: already_read_text(), message: None }
}

/// The error for a body that is not valid UTF-8: `400 Bad Request` with the
/// text of the decoding error.
pub open spec fn invalid_text_view(bytes: Seq<u8>) -> ErrorView {
    ErrorView { as_json: false, status: 400, error: utf8_error_text_of(bytes), message: None }
}

/// The entries of optional trailers.
pub open spec fn trailers_view(t: Option<HeaderMap>) -> Option<Map<Seq<char>, Seq<Seq<u8>>>> {
    match t {
        Some(m) => Some(header_map_entries(m)),
        None => None,
    }
}

/// The entries of optional trailers, none standing for an empty map.
pub open spec fn trailers_or_empty(t: Option<Map<Seq<char>, Seq<Seq<u8>>>>) -> Map<
    Seq<char>,
    Seq<Seq<u8>>,
> {
    match t {
        Some(m) => m,
        None => Map::empty(),
    }
}

/// The error for a body that was already read.
pub fn body_already_read() -> (r: Error)
    ensures
        r.view() == already_read_view(),
{
    Error::internal_server_error("request body already read".to_string())
}

impl BodyData {
    /// The bytes of each data frame, in order.
    pub closed spec fn spec_payload(&self) -> Seq<Seq<u8>> {
        bytes_views(self.payload@)
    }

    /// The entries of the trailers, if there were any.
    pub closed spec fn spec_trailers(&self) -> Option<Map<Seq<char>, Seq<Seq<u8>>>> {
        trailers_view(self.trailers)
    }

    /// The contents of a body from its data frames and trailers.
    pub fn new(payload: Vec<Bytes>, trailers: Option<HeaderMap>) -> (r: BodyData)
        ensures
            r.spec_payload() == bytes_views(payload@),
            r.spec_trailers() == trailers_view(trailers),
    {
        BodyData { payload, trailers }
    }

    /// The number of bytes of data, or none when it does not fit in a
    /// `usize`.
    pub fn checked_len(&self) -> (r: Option<usize>)
        ensures
            total_len(self.spec_payload()) <= usize::MAX ==> r == Some(total_len(self.spec_payload()) as usize),
            total_len(self.spec_payload()) > usize::MAX ==> r is None,
    {
        let ghost frames = self.spec_payload();
        let mut sum: usize = 0;
        let mut i: usize = 0;
        while i < self.payload.len()
            invariant
                i <= self.payload@.len(),
                frames == bytes_views(self.payload@),
                sum == total_len(frames.take(i as int)),
            decreases self.payload@.len() - i,
        {
            assert(frames.take(i + 1).drop_last() =~= frames.take(i as int));
            match sum.checked_add(bytes_len(&self.payload[i])) {
                Some(next) => sum = next,
                None => {
                    proof {
                        super::response_body::lemma_total_len_monotone(frames, (i + 1) as nat);
                    }
                    return None;
                },
            }
            i += 1;
        }
        assert(frames.take(i as int) =~= frames);
        Some(sum)
    }

    /// The number of bytes of data.
    pub fn len(&self) -> (r: usize)
        requires
            total_len(self.spec_payload()) <= usize::MAX,
        ensures
            r == total_len(self.spec_payload()),
    {
        let ghost frames = self.spec_payload();
        let mut sum: usize = 0;
        let mut i: usize = 0;
        while i < self.payload.len()
            invariant
                i <= self.payload@.len(),
                frames == bytes_views(self.payload@),
                total_len(frames) <= usize::MAX,
                sum == total_len(frames.take(i as int)),
            decreases self.payload@.len() - i,
        {
            assert(frames.take(i + 1).drop_last() =~= frames.take(i as int));
            proof {
                super::response_body::lemma_total_len_monotone(frames, (i + 1) as nat);
            }
            sum = sum + bytes_len(&self.payload[i]);
            i += 1;
        }
        assert(frames.take(i as int) =~= frames);
        sum
    }

    /// True when there is no data.
    pub fn is_empty(&self) -> (r: bool)
        requires
            total_len(self.spec_payload()) <= usize::MAX,
        ensures
            r == (total_len(self.spec_payload()) == 0),
    {
        self.len() == 0
    }

    /// The trailers, if there were any.
    pub fn trailers(&self) -> (r: Option<&HeaderMap>)
        ensures
            trailers_view(
                match r {
                    Some(m) => Some(*m),
                    None => None,
                },
            ) == self.spec_trailers(),
    {
        match &self.trailers {
            Some(m) => Some(m),
            None => None,
        }
    }

    /// The data frames joined into one buffer.
    pub fn into_bytes(self) -> (r: Bytes)
        requires
            total_len(self.spec_payload()) <= usize::MAX,
        ensures
            bytes_view(r) == self.spec_payload().flatten_alt(),
    {
        let ghost frames = self.spec_payload();
        let capacity = self.len();
        let mut buf = bytes_mut_with_capacity(capacity);
        let payload = self.payload;
        let mut i: usize = 0;
        while i < payload.len()
            invariant
                i <= payload@.len(),
                frames == bytes_views(payload@),
                bytes_mut_view(buf) == frames.take(i as int).flatten_alt(),
            decreases payload@.len() - i,
        {
            assert(frames.take(i + 1).drop_last() =~= frames.take(i as int));
            let chunk = crate::bindings::byte_buf::bytes_clone(&payload[i]);
            bytes_mut_put(&mut buf, chunk);
            i += 1;
        }
        assert(frames.take(i as int) =~= frames);
        bytes_mut_freeze(buf)
    }

    /// The data frames joined and decoded as UTF-8 text; data that is not
    /// valid UTF-8 fails with `400 Bad Request`.
    pub fn into_text(self) -> (r: Result<String, Error>)
        requires
            total_len(self.spec_payload()) <= usize::MAX,
        ensures
            vstd::utf8::valid_utf8(self.spec_payload().flatten_alt()) ==> (r matches Ok(s) && s@
                == vstd::utf8::decode_utf8(self.spec_payload().flatten_alt())),
            !vstd::utf8::valid_utf8(self.spec_payload().flatten_alt()) ==> (r matches Err(e)
                && e.view() == invalid_text_view(self.spec_payload().flatten_alt())),
    {
        let ghost frames = self.spec_payload();
        let capacity = self.len();
        let mut payload: Vec<u8> = Vec::with_capacity(capacity);
        let chunks = self.payload;
        let mut i: usize = 0;
        while i < chunks.len()
            invariant
                i <= chunks@.len(),
                frames == bytes_views(chunks@),
                payload@ == frames.take(i as int).flatten_alt(),
            decreases chunks@.len() - i,
        {
            assert(frames.take(i + 1).drop_last() =~= frames.take(i as int));
            let part = bytes_as_slice(&chunks[i]);
            let ghost before = payload@;
            let mut j: usize = 0;
            while j < part.len()
                invariant
                    j <= part@.len(),
                    payload@ == before + part@.take(j as int),
                decreases part@.len() - j,
            {
                payload.push(part[j]);
                j += 1;
                assert(payload@ =~= before + part@.take(j as int));
            }
            assert(part@.take(j as int) =~= part@);
            i += 1;
        }
        assert(frames.take(i as int) =~= frames);
        match string_from_utf8(payload) {
            Ok(text) => Ok(text),
            Err(error) => Err(Error::bad_request(error)),
        }
    }
}

impl Default for BodyData {
    /// No data and no trailers.
    fn default() -> (r: BodyData)
        ensures
            r.spec_payload().len() == 0,
            r.spec_trailers() is None,
    {
        BodyData { payload: Vec::new(), trailers: None }
    }
}

impl<B> BodyReader<B> {
    /// The data frames collected so far; `None` once the body was read.
    pub closed spec fn spec_payload(&self) -> Option<Seq<Seq<u8>>> {
        match self.payload {
            Some(p) => Some(bytes_views(p@)),
            None => None,
        }
    }

    /// The entries of the trailers collected so far.
    pub closed spec fn spec_trailers(&self) -> Option<Map<Seq<char>, Seq<Seq<u8>>>> {
        trailers_view(self.trailers)
    }

    /// Every data frame taken in, in order, since the reader was made.
    pub closed spec fn spec_frames(&self) -> Seq<Seq<u8>> {
        self.frames@
    }

    /// The wrapped body.
    pub closed spec fn spec_body(&self) -> B {
        self.body
    }

    /// While the body is being read, the collected payload is every data
    /// frame taken in.
    pub closed spec fn wf(&self) -> bool {
        self.payload matches Some(p) ==> bytes_views(p@) == self.frames@
    }

    /// Whether the reader can take in an event: trailers are merged into
    /// those collected only while the merge stays within the limit of the
    /// header map.
    pub open spec fn accepts(&self, event: ReadEvent) -> bool {
        match event {
            ReadEvent::Trailers(t) => self.spec_payload() is Some ==> trailers_or_empty(
                self.spec_trailers(),
            ).dom().len() + header_map_entries(t).dom().len() <= HEADER_MAP_MERGE_LIMIT,
            _ => true,
        }
    }

    /// A reader of the given body, with nothing collected yet.
    pub fn new(body: B) -> (r: BodyReader<B>)
        ensures
            r.wf(),
            r.spec_payload() == Some(Seq::<Seq<u8>>::empty()),
            r.spec_trailers() is None,
            r.spec_frames() == Seq::<Seq<u8>>::empty(),
            r.spec_body() == body,
    {
        let payload: Vec<Bytes> = Vec::new();
        assert(bytes_views(payload@) =~= Seq::<Seq<u8>>::empty());
        BodyReader { body, payload: Some(payload), trailers: None, frames: Ghost(Seq::empty()) }
    }

    /// The wrapped body, to be polled for its next frame.
    pub fn body_mut(&mut self) -> (r: &mut B)
        ensures
            *r == old(self).spec_body(),
            final(self).spec_body() == *final(r),
            final(self).spec_payload() == old(self).spec_payload(),
            final(self).spec_trailers() == old(self).spec_trailers(),
            final(self).spec_frames() == old(self).spec_frames(),
            old(self).wf() ==> final(self).wf(),
    {
        &mut self.body
    }

    /// The number of names among the trailers collected so far.
    fn trailer_names(&self) -> (r: usize)
        ensures
            r == trailers_or_empty(self.spec_trailers()).dom().len(),
    {
        match &self.trailers {
            Some(m) => header_map_keys_len(m),
            None => 0,
        }
    }

    /// Whether the reader can take in the event now.
    pub fn can_accept(&self, event: &ReadEvent) -> (r: bool)
        ensures
            r == self.accepts(*event),
    {
        match event {
            ReadEvent::Trailers(t) => {
                if self.payload.is_none() {
                    return true;
                }
                let have = self.trailer_names();
                let more = header_map_keys_len(t);
                have <= HEADER_MAP_MERGE_LIMIT && more <= HEADER_MAP_MERGE_LIMIT - have
            },
            _ => true,
        }
    }

    /// Takes in what the wrapped body yielded. `None` means that the body
    /// must be polled again; `Some` is the outcome of the read. Data frames
    /// are collected, trailers merged, other frames passed over; an error
    /// of the body ends the read with that error; the end of the body ends
    /// it with everything collected. Once the body was read, every event
    /// but an error ends with `500` "request body already read".
    pub fn on_event(&mut self, event: ReadEvent) -> (r: Option<Result<BodyData, Error>>)
        requires
            old(self).wf(),
            old(self).accepts(event),
        ensures
            final(self).wf(),
            final(self).spec_body() == old(self).spec_body(),
            match event {
                ReadEvent::Failed(e) => {
                    &&& r matches Some(Err(x)) && x.view() == body_error_view(e)
                    &&& final(self).spec_payload() == old(self).spec_payload()
                    &&& final(self).spec_trailers() == old(self).spec_trailers()
                    &&& final(self).spec_frames() == old(self).spec_frames()
                },
                _ => old(self).spec_payload() is None ==> {
                    &&& r matches Some(Err(x)) && x.view() == already_read_view()
                    &&& final(self).spec_payload() is None
                    &&& final(self).spec_trailers() == old(self).spec_trailers()
                    &&& final(self).spec_frames() == old(self).spec_frames()
                },
            },
            old(self).spec_payload() matches Some(p) ==> match event {
                ReadEvent::Data(b) => {
                    &&& r is None
                    &&& final(self).spec_payload() == Some(p.push(bytes_view(b)))
                    &&& final(self).spec_frames() == old(self).spec_frames().push(bytes_view(b))
                    &&& final(self).spec_trailers() == old(self).spec_trailers()
                },
                ReadEvent::Trailers(t) => {
                    &&& r is None
                    &&& final(self).spec_payload() == old(self).spec_payload()
                    &&& final(self).spec_frames() == old(self).spec_frames()
                    &&& final(self).spec_trailers() == Some(
                        trailers_or_empty(old(self).spec_trailers()).union_prefer_right(
                            header_map_entries(t),
                        ),
                    )
                },
                ReadEvent::Other => {
                    &&& r is None
                    &&& final(self).spec_payload() == old(self).spec_payload()
                    &&& final(self).spec_frames() == old(self).spec_frames()
                    &&& final(self).spec_trailers() == old(self).spec_trailers()
                },
                ReadEvent::Failed(_) => true,
                ReadEvent::End => {
                    &&& r matches Some(Ok(data)) && data.spec_payload() == old(self).spec_frames()
                        && data.spec_trailers() == old(self).spec_trailers()
                    &&& final(self).spec_payload() is None
                    &&& final(self).spec_trailers() is None
                    &&& final(self).spec_frames() == old(self).spec_frames()
                },
            },
    {
        match event {
            ReadEvent::Failed(e) => Some(Err(error_from_boxed(e))),
            ReadEvent::End => {
                match self.payload.take() {
                    None => Some(Err(body_already_read())),
                    Some(payload) => {
                        let trailers = self.trailers.take();
                        Some(Ok(BodyData { payload, trailers }))
                    },
                }
            },
            ReadEvent::Data(chunk) => {
                match &mut self.payload {
                    None => Some(Err(body_already_read())),
                    Some(payload) => {
                        proof {
                            self.frames@ = self.frames@.push(bytes_view(chunk));
                        }
                        let ghost before = payload@;
                        payload.push(chunk);
                        assert(bytes_views(payload@) =~= bytes_views(before).push(bytes_view(chunk)));
                        None
                    },
                }
            },
            ReadEvent::Trailers(t) => {
                if self.payload.is_none() {
                    return Some(Err(body_already_read()));
                }
                match &mut self.trailers {
                    Some(existing) => {
                        header_map_extend(existing, t);
                    },
                    None => {
                        let mut fresh = header_map_new();
                        assert(header_map_entries(fresh).dom() =~= Map::<
                            Seq<char>,
                            Seq<Seq<u8>>,
                        >::empty().dom());
                        assert(header_map_entries(fresh) =~= Map::<Seq<char>, Seq<Seq<u8>>>::empty());
                        header_map_extend(&mut fresh, t);
                        self.trailers = Some(fresh);
                    },
                }
                None
            },
            ReadEvent::Other => {
                if self.payload.is_none() {
                    return Some(Err(body_already_read()));
                }
                None
            },
        }
    }

    /// Takes in an event when the reader can accept it, as `on_event`
    /// does; an event that it cannot accept is handed back unchanged.
    pub fn try_on_event(&mut self, event: ReadEvent) -> (r: Result<
        Option<Result<BodyData, Error>>,
        ReadEvent,
    >)
        requires
            old(self).wf(),
        ensures
            final(self).wf(),
            !old(self).accepts(event) ==> (r matches Err(e) && e == event && *final(self) == *old(
                self,
            )),
            old(self).accepts(event) ==> r is Ok,
    {
        if self.can_accept(&event) {
            Ok(self.on_event(event))
        } else {
            Err(event)
        }
    }
}

/// While a body is being read, what the reader has collected is every data
/// frame it took in since it was made, in order; so the end of the body
/// yields exactly those frames.
pub proof fn lemma_body_reader_collects_frames<B>(reader: BodyReader<B>)
    requires
        reader.wf(),
    ensures
        reader.spec_payload() matches Some(p) ==> p == reader.spec_frames(),
{
}

} // verus!
