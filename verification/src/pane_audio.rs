//! `pane.audio.stream`: one dedicated socket feeds one pane's audio.
//!
//! The body is a sequence of whole frames, every one exactly
//! `PANE_AUDIO_FRAME_BYTES` long (960 samples × 2 channels × 4 bytes of
//! little-endian f32), with no per-frame header. A partial frame is a
//! failure, never padded or truncated. The socket, the reads and the
//! dispatches are the caller's; what the stream decides at each step is here,
//! together with the registry of live streams a cancel must be able to reach.

use vstd::prelude::*;

use crate::api_schema::{api_error, api_error_spec, ApiError};
use crate::text::{debug_quoted, debug_text, decimal, decimal_string, index_of, lemma_index_of, lemma_index_of_is, owned, push_text, str_equal, texts};

verus! {

/// The one sample rate every audio stream uses.
pub const PANE_AUDIO_SAMPLE_RATE_HZ: u32 = 48000;

/// The one channel count every audio stream uses.
pub const PANE_AUDIO_CHANNELS: u32 = 2;

/// Samples per channel in one frame: twenty milliseconds at 48 kHz.
pub const PANE_AUDIO_FRAME_SAMPLES: usize = 960;

/// Bytes in one frame: 960 samples × 2 channels × 4 bytes.
pub const PANE_AUDIO_FRAME_BYTES: usize = 7680;

/// The sample format's name.
pub open spec fn audio_format() -> Seq<char> {
    "f32le"@
}

/// The request that opens an audio stream.
#[derive(Debug)]
pub struct PaneAudioStreamParams {
    pub pane_id: String,
    pub sample_rate_hz: u32,
    pub channels: u32,
    pub format: String,
    /// Assigned by the server before the application is asked.
    pub owner: String,
}

/// The parameter the encoder cannot take, or `None` when the shape is
/// exactly the one every audio stream uses; checked in the order rate,
/// channels, format.
pub open spec fn shape_error_spec(rate: u32, channels: u32, format: Seq<char>) -> Option<Seq<char>> {
    if rate != PANE_AUDIO_SAMPLE_RATE_HZ {
        Some("sample_rate_hz must be 48000, got "@ + decimal(rate as nat))
    } else if channels != PANE_AUDIO_CHANNELS {
        Some("channels must be 2, got "@ + decimal(channels as nat))
    } else if format != audio_format() {
        Some("format must be \"f32le\", got "@ + debug_quoted(format))
    } else {
        None
    }
}

/// Names the parameter the encoder cannot take, before the application is
/// asked: a producer with the wrong shape is told before it sends a frame.
pub fn shape_error(params: &PaneAudioStreamParams) -> (r: Option<String>)
    ensures
        match shape_error_spec(params.sample_rate_hz, params.channels, params.format@) {
            Some(m) => r is Some && r->0@ == m,
            None => r is None,
        },
{
    if params.sample_rate_hz != PANE_AUDIO_SAMPLE_RATE_HZ {
        let mut s = owned("sample_rate_hz must be 48000, got ");
        let n = decimal_string(params.sample_rate_hz as u64);
        push_text(&mut s, n.as_str());
        return Some(s);
    }
    if params.channels != PANE_AUDIO_CHANNELS {
        let mut s = owned("channels must be 2, got ");
        let n = decimal_string(params.channels as u64);
        push_text(&mut s, n.as_str());
        return Some(s);
    }
    if !(params.format == String::from_str("f32le")) {
        let mut s = owned("format must be \"f32le\", got ");
        let q = debug_text(params.format.as_str());
        push_text(&mut s, q.as_str());
        return Some(s);
    }
    None
}

/// What reading the next frame found.
#[derive(Debug, Clone, Copy, PartialEq, Eq, Structural)]
pub enum FrameRead {
    /// One whole frame.
    Whole,
    /// The socket ended on a frame boundary: the producer finished.
    CleanEnd,
    /// The socket ended (or broke) inside a frame.
    Short,
    /// Any other read failure.
    Failure,
}

/// Why a stream's frame loop stopped.
#[derive(Debug, PartialEq, Eq)]
pub enum StreamEnd {
    /// The producer closed its socket on a frame boundary.
    Ended,
    /// Something refused a frame, or the socket ended inside one.
    Failed(String),
}

/// What the frame loop does next.
#[derive(Debug, PartialEq, Eq)]
pub enum FrameStep {
    /// Hand the frame to the application as this (1-based) frame number.
    Dispatch(u64),
    /// Tell the producer why (an `invalid_frame` error line) and stop.
    Refuse(String),
    /// Stop without a word: the producer finished.
    Stop(StreamEnd),
    /// Stop with the read error.
    Error,
}

/// The saturating successor of a frame counter.
pub open spec fn next_seq(seq: u64) -> u64 {
    if seq == u64::MAX { u64::MAX } else { (seq + 1) as u64 }
}

/// What a short frame tells the producer.
pub open spec fn short_frame_detail(seq: u64) -> Seq<char> {
    "frame "@ + decimal((seq + 1) as nat) + " ended short; every frame is 7680 bytes of f32le samples"@
}

/// The loop's answer to one read: a whole frame goes on under the next
/// number; a clean end is the producer finishing; a short frame is refused
/// with a detail naming it; anything else is an error.
pub fn frame_step(read: FrameRead, seq: u64) -> (r: FrameStep)
    requires
        read == FrameRead::Short ==> seq < u64::MAX,
    ensures
        match read {
            FrameRead::Whole => r == FrameStep::Dispatch(next_seq(seq)),
            FrameRead::CleanEnd => r == FrameStep::Stop(StreamEnd::Ended),
            FrameRead::Short => r is Refuse && r->Refuse_0@ == short_frame_detail(seq),
            FrameRead::Failure => r == FrameStep::Error,
        },
{
    match read {
        FrameRead::Whole => FrameStep::Dispatch(seq.saturating_add(1)),
        FrameRead::CleanEnd => FrameStep::Stop(StreamEnd::Ended),
        FrameRead::Short => {
            let mut s = owned("frame ");
            let n = decimal_string(seq + 1);
            push_text(&mut s, n.as_str());
            push_text(&mut s, " ended short; every frame is 7680 bytes of f32le samples");
            FrameStep::Refuse(s)
        },
        FrameRead::Failure => FrameStep::Error,
    }
}

/// What a frame the application refused ends the stream with.
pub fn refused_frame(seq: u64) -> (r: StreamEnd)
    ensures
        r is Failed && r->Failed_0@ == "frame "@ + decimal(seq as nat) + " refused"@,
{
    let mut s = owned("frame ");
    let n = decimal_string(seq);
    push_text(&mut s, n.as_str());
    push_text(&mut s, " refused");
    StreamEnd::Failed(s)
}

/// What closing a stream tells the application: failed or not, and why.
pub open spec fn close_params_spec(end: StreamEnd) -> (bool, Seq<char>) {
    match end {
        StreamEnd::Ended => (false, Seq::empty()),
        StreamEnd::Failed(d) => (true, d@),
    }
}

/// The close a finished loop sends: an ended stream closes cleanly with no
/// detail, a failed one as failed with its detail.
pub fn close_params(end: StreamEnd) -> (r: (bool, String))
    ensures
        (r.0, r.1@) == close_params_spec(end),
{
    match end {
        StreamEnd::Ended => (false, String::new()),
        StreamEnd::Failed(d) => (true, d),
    }
}

/// The request id a frame is dispatched under.
pub fn frame_request_id(request_id: &str, seq: u64) -> (r: String)
    ensures
        r@ == request_id@ + ":frame:"@ + decimal(seq as nat),
{
    let mut s = owned(request_id);
    push_text(&mut s, ":frame:");
    let n = decimal_string(seq);
    push_text(&mut s, n.as_str());
    s
}

/// The request id a close is dispatched under.
pub fn close_request_id(pane_id: &str) -> (r: String)
    ensures
        r@ == "pane.audio.stream.close:"@ + pane_id@,
{
    let mut s = owned("pane.audio.stream.close:");
    push_text(&mut s, pane_id);
    s
}

/// A stream owner's name: the process and a counter unique within it.
pub fn stream_owner(process_id: u32, counter: u64) -> (r: String)
    ensures
        r@ == "pane.audio.stream:"@ + decimal(process_id as nat) + ":"@ + decimal(counter as nat),
{
    let mut s = owned("pane.audio.stream:");
    let p = decimal_string(process_id as u64);
    push_text(&mut s, p.as_str());
    push_text(&mut s, ":");
    let c = decimal_string(counter);
    push_text(&mut s, c.as_str());
    s
}

/// The live streams a cancel must reach: each owner's handle. The handle is
/// whatever the caller signals a stream with.
#[derive(Debug)]
pub struct StreamRegistry<H> {
    entries: Vec<(String, H)>,
}

/// The owners of a registry's entries.
pub open spec fn owners<H>(v: Seq<(String, H)>) -> Seq<Seq<char>> {
    v.map_values(|e: (String, H)| e.0@)
}

/// The registry after registering `owner`: an earlier registration under
/// the same owner is replaced where it stands, else the entry is appended.
pub open spec fn registered<H>(v: Seq<(String, H)>, owner: String, h: H) -> Seq<(String, H)> {
    let i = index_of(owners(v), owner@);
    if i >= 0 { v.update(i, (owner, h)) } else { v.push((owner, h)) }
}

/// The registry after forgetting `owner`.
pub open spec fn unregistered<H>(v: Seq<(String, H)>, owner: Seq<char>) -> Seq<(String, H)> {
    let i = index_of(owners(v), owner);
    if i >= 0 { v.remove(i) } else { v }
}

/// The entries whose owner is known, in order.
pub open spec fn kept_spec<H>(all: Seq<(String, H)>, known: Seq<Seq<char>>) -> Seq<(String, H)>
    decreases all.len(),
{
    if all.len() == 0 {
        Seq::empty()
    } else {
        let prev = kept_spec(all.drop_last(), known);
        if known.contains(all.last().0@) { prev.push(all.last()) } else { prev }
    }
}

/// The handles of the entries whose owner is not known, in order.
pub open spec fn dropped_spec<H>(all: Seq<(String, H)>, known: Seq<Seq<char>>) -> Seq<H>
    decreases all.len(),
{
    if all.len() == 0 {
        Seq::empty()
    } else {
        let prev = dropped_spec(all.drop_last(), known);
        if known.contains(all.last().0@) { prev } else { prev.push(all.last().1) }
    }
}

impl<H> StreamRegistry<H> {
    /// The registry's entries, in registration order.
    pub closed spec fn entries_spec(&self) -> Seq<(String, H)> {
        self.entries@
    }

    /// An empty registry.
    pub fn new() -> (r: Self)
        ensures
            r.entries_spec().len() == 0,
    {
        StreamRegistry { entries: Vec::new() }
    }

    /// How many streams are registered; a sweep costs nothing while this
    /// is zero.
    pub fn len(&self) -> (r: usize)
        ensures
            r == self.entries_spec().len(),
    {
        self.entries.len()
    }

    fn find(&self, owner: &str) -> (r: Option<usize>)
        ensures
            match r {
                Some(i) => i == index_of(owners(self.entries@), owner@),
                None => index_of(owners(self.entries@), owner@) == -1,
            },
    {
        let mut i: usize = 0;
        while i < self.entries.len()
            invariant
                i <= self.entries@.len(),
                forall|j: int| 0 <= j < i ==> self.entries@[j].0@ != owner@,
            decreases self.entries.len() - i,
        {
            if str_equal(self.entries[i].0.as_str(), owner) {
                proof {
                    lemma_index_of_is(owners(self.entries@), owner@, i as int);
                }
                return Some(i);
            }
            i = i + 1;
        }
        proof {
            lemma_index_of(owners(self.entries@), owner@);
            if owners(self.entries@).contains(owner@) {
                let k = choose|k: int| 0 <= k < owners(self.entries@).len() && owners(self.entries@)[k] == owner@;
                assert(self.entries@[k].0@ == owner@);
            }
        }
        None
    }

    /// Whether a stream is registered under `owner`.
    pub fn contains(&self, owner: &str) -> (r: bool)
        ensures
            r == (index_of(owners(self.entries_spec()), owner@) >= 0),
    {
        self.find(owner).is_some()
    }

    /// Register a stream before acknowledging it, so a cancel can always
    /// reach it. A second registration under one owner replaces the first.
    pub fn register(&mut self, owner: String, handle: H)
        ensures
            final(self).entries_spec() == registered(old(self).entries_spec(), owner, handle),
    {
        proof {
            lemma_index_of(owners(self.entries@), owner@);
        }
        match self.find(owner.as_str()) {
            Some(i) => {
                self.entries.set(i, (owner, handle));
            },
            None => {
                self.entries.push((owner, handle));
            },
        }
    }

    /// Forget a stream; its handle, when it was registered, comes back.
    pub fn unregister(&mut self, owner: &str) -> (r: Option<H>)
        ensures
            final(self).entries_spec() == unregistered(old(self).entries_spec(), owner@),
            r is Some == (index_of(owners(old(self).entries_spec()), owner@) >= 0),
            r is Some ==> r->0 == old(self).entries_spec()[index_of(owners(old(self).entries_spec()), owner@)].1,
    {
        proof {
            lemma_index_of(owners(self.entries@), owner@);
        }
        match self.find(owner) {
            Some(i) => {
                let (_, h) = self.entries.remove(i);
                Some(h)
            },
            None => None,
        }
    }

    /// Stop every stream whose owner the application no longer knows: the
    /// application is the single source of truth, and this sweep is what
    /// makes a reader blocked on a vanished session return. The handles to
    /// signal come back; the registry keeps the known owners' entries, in
    /// order.
    pub fn cancel_inactive(&mut self, known: &Vec<String>) -> (r: Vec<H>)
        ensures
            final(self).entries_spec() == kept_spec(old(self).entries_spec(), texts(known@)),
            r@ == dropped_spec(old(self).entries_spec(), texts(known@)),
    {
        let ghost known_v = texts(known@);
        let ghost all = self.entries@;
        let mut taken: Vec<(String, H)> = Vec::new();
        std::mem::swap(&mut taken, &mut self.entries);
        let mut kept: Vec<(String, H)> = Vec::new();
        let mut stopped: Vec<H> = Vec::new();
        assert(all.subrange(0, 0) =~= Seq::<(String, H)>::empty());
        assert(all.subrange(0, all.len() as int) =~= all);
        while taken.len() > 0
            invariant
                taken@.len() <= all.len(),
                taken@ == all.subrange(all.len() - taken@.len(), all.len() as int),
                kept@ == kept_spec(all.subrange(0, all.len() - taken@.len()), known_v),
                stopped@ == dropped_spec(all.subrange(0, all.len() - taken@.len()), known_v),
                known_v == texts(known@),
            decreases taken.len(),
        {
            let ghost done = all.len() - taken@.len();
            let e = taken.remove(0);
            assert(e == all[done]);
            assert(taken@ =~= all.subrange(done + 1, all.len() as int));
            let mut is_known = false;
            let mut k: usize = 0;
            while k < known.len()
                invariant
                    k <= known@.len(),
                    is_known == known_v.subrange(0, k as int).contains(e.0@),
                    known_v == texts(known@),
                decreases known.len() - k,
            {
                assert(known_v.subrange(0, k + 1) =~= known_v.subrange(0, k as int).push(known@[k as int]@));
                proof {
                    lemma_push_contains(known_v.subrange(0, k as int), known@[k as int]@, e.0@);
                }
                if str_equal(known[k].as_str(), e.0.as_str()) {
                    is_known = true;
                }
                k = k + 1;
            }
            assert(known_v.subrange(0, k as int) =~= known_v);
            assert(all.subrange(0, done + 1).drop_last() =~= all.subrange(0, done));
            if is_known {
                kept.push(e);
            } else {
                stopped.push(e.1);
            }
        }
        self.entries = kept;
        stopped
    }
}

/// Membership in a sequence with one more element.
proof fn lemma_push_contains<A>(s: Seq<A>, y: A, x: A)
    ensures
        s.push(y).contains(x) <==> (s.contains(x) || x == y),
{
    if s.contains(x) {
        let k = choose|k: int| 0 <= k < s.len() && s[k] == x;
        assert(s.push(y)[k] == x);
    }
    if x == y {
        assert(s.push(y)[s.len() as int] == x);
    }
    if s.push(y).contains(x) && x != y {
        let k = choose|k: int| 0 <= k < s.push(y).len() && s.push(y)[k] == x;
        assert(s[k] == x);
    }
}

/// A sweep loses nothing: every entry is either kept or handed back to be
/// stopped.
pub proof fn law_sweep_accounts_for_every_stream<H>(all: Seq<(String, H)>, known: Seq<Seq<char>>)
    ensures
        kept_spec(all, known).len() + dropped_spec(all, known).len() == all.len(),
    decreases all.len(),
{
    if all.len() > 0 {
        law_sweep_accounts_for_every_stream(all.drop_last(), known);
    }
}

/// What opening a stream can answer, as the application's core reports it.
#[derive(Debug)]
pub enum OpenError {
    /// The pane already has an active audio stream.
    Conflict,
    /// The encoder could not be set up; the text says why.
    Codec(String),
}

/// What offering a frame can answer.
#[derive(Debug)]
pub enum OfferError {
    /// No stream is open on the pane.
    NotOpen,
    /// The open stream belongs to another owner.
    OwnerMismatch,
    /// The frame itself was refused; the text says why.
    Frame(String),
}

/// The refusal for a pane id that names nothing.
pub fn pane_not_found(pane_id: &str) -> (r: ApiError)
    ensures
        api_error_spec(r, "pane_not_found"@, "pane "@ + pane_id@ + " not found"@),
{
    let mut m = owned("pane ");
    push_text(&mut m, pane_id);
    push_text(&mut m, " not found");
    api_error("pane_not_found", m)
}

/// The answer to an open, in the order the checks are made: an owner is
/// required, the pane must exist, then the core decides.
pub fn open_answer(owner: &str, pane_found: bool, pane_id: &str, core: Result<(), OpenError>) -> (r: Result<(), ApiError>)
    ensures
        owner@.len() == 0 ==> r is Err && api_error_spec(r->Err_0, "invalid_stream"@, "pane audio stream owner is required"@),
        owner@.len() > 0 && !pane_found ==> r is Err && api_error_spec(r->Err_0, "pane_not_found"@, "pane "@ + pane_id@ + " not found"@),
        owner@.len() > 0 && pane_found ==> match core {
            Ok(()) => r is Ok,
            Err(OpenError::Conflict) => r is Err && api_error_spec(r->Err_0, "stream_conflict"@, "pane already has an active audio stream"@),
            Err(OpenError::Codec(t)) => r is Err && api_error_spec(r->Err_0, "codec_unavailable"@, t@),
        },
{
    if owner.is_empty() {
        return Err(api_error("invalid_stream", owned("pane audio stream owner is required")));
    }
    if !pane_found {
        return Err(pane_not_found(pane_id));
    }
    match core {
        Ok(()) => Ok(()),
        Err(OpenError::Conflict) => Err(api_error("stream_conflict", owned("pane already has an active audio stream"))),
        Err(OpenError::Codec(t)) => Err(api_error("codec_unavailable", t)),
    }
}

/// Whether a frame body has the one length every frame has; the refusal
/// names the length it got.
pub fn frame_length_check(len: usize) -> (r: Result<(), ApiError>)
    ensures
        len == PANE_AUDIO_FRAME_BYTES ==> r is Ok,
        len != PANE_AUDIO_FRAME_BYTES ==> r is Err && api_error_spec(
            r->Err_0,
            "invalid_frame"@,
            "audio frame must be 7680 bytes of f32le samples, got "@ + decimal(len as nat),
        ),
{
    if len == PANE_AUDIO_FRAME_BYTES {
        return Ok(());
    }
    let mut m = owned("audio frame must be 7680 bytes of f32le samples, got ");
    let n = decimal_string(len as u64);
    push_text(&mut m, n.as_str());
    Err(api_error("invalid_frame", m))
}

/// The answer to a frame after its pane was found and its length checked:
/// the core decides.
pub fn offer_answer(core: Result<(), OfferError>) -> (r: Result<(), ApiError>)
    ensures
        match core {
            Ok(()) => r is Ok,
            Err(OfferError::NotOpen) => r is Err && api_error_spec(r->Err_0, "stream_closed"@, "pane audio stream is not active"@),
            Err(OfferError::OwnerMismatch) => r is Err && api_error_spec(
                r->Err_0,
                "stream_conflict"@,
                "pane audio stream owner does not match active stream"@,
            ),
            Err(OfferError::Frame(t)) => r is Err && api_error_spec(r->Err_0, "invalid_frame"@, t@),
        },
{
    match core {
        Ok(()) => Ok(()),
        Err(OfferError::NotOpen) => Err(api_error("stream_closed", owned("pane audio stream is not active"))),
        Err(OfferError::OwnerMismatch) => Err(
            api_error("stream_conflict", owned("pane audio stream owner does not match active stream")),
        ),
        Err(OfferError::Frame(t)) => Err(api_error("invalid_frame", t)),
    }
}

/// A frame is exactly its samples: 960 per channel, two channels, four
/// bytes each.
pub proof fn law_frame_is_its_samples()
    ensures
        PANE_AUDIO_FRAME_BYTES == PANE_AUDIO_FRAME_SAMPLES * PANE_AUDIO_CHANNELS * 4,
{
}


/// Why a served stream stops, at whichever step it stopped.
#[derive(Debug)]
pub enum StreamStop {
    /// The application refused the open.
    OpenRefused,
    /// The producer left before it could read the acknowledgement.
    ProducerLeftBeforeAck,
    /// The frame loop stopped.
    Loop(StreamEnd),
    /// Reading failed; the error's text.
    ReadError(String),
}

/// The close every stopped stream sends: a refused open and a producer that
/// left before the ack are failures with a fixed reason, a finished loop
/// closes as its end says, and a read error is a failure carrying its text.
pub open spec fn stream_close_spec(stop: StreamStop) -> (bool, Seq<char>) {
    match stop {
        StreamStop::OpenRefused => (true, "open refused"@),
        StreamStop::ProducerLeftBeforeAck => (true, "producer left before the ack"@),
        StreamStop::Loop(end) => close_params_spec(end),
        StreamStop::ReadError(e) => (true, e@),
    }
}

/// The close a stopped stream sends to the application.
pub fn stream_close(stop: StreamStop) -> (r: (bool, String))
    ensures
        (r.0, r.1@) == stream_close_spec(stop),
{
    match stop {
        StreamStop::OpenRefused => (true, owned("open refused")),
        StreamStop::ProducerLeftBeforeAck => (true, owned("producer left before the ack")),
        StreamStop::Loop(end) => close_params(end),
        StreamStop::ReadError(e) => (true, e),
    }
}

/// The answer to a request whose shape the encoder cannot take: refused as
/// invalid parameters, naming the parameter, before the application is
/// asked.
pub fn shape_refusal(params: &PaneAudioStreamParams) -> (r: Option<ApiError>)
    ensures
        match shape_error_spec(params.sample_rate_hz, params.channels, params.format@) {
            Some(m) => r is Some && api_error_spec(r->0, "invalid_params"@, m),
            None => r is None,
        },
{
    match shape_error(params) {
        Some(message) => Some(api_error("invalid_params", message)),
        None => None,
    }
}

/// Where serving one stream stands.
#[derive(Debug, Clone, Copy, PartialEq, Eq, Structural)]
pub enum ServePhase {
    /// Nothing done yet; the request's shape is checked first.
    Start,
    /// The open request is with the application.
    Opening,
    /// The stream is registered and its acknowledgement is being written.
    Acking,
    /// Waiting for the next frame; this many frames went out so far.
    Reading(u64),
    /// The frame with this number is with the application.
    Awaiting(u64),
    /// Served: nothing more happens.
    Done,
}

/// What the caller observed since the last step.
#[derive(Debug, Clone, Copy, PartialEq, Eq, Structural)]
pub enum ServeEvent {
    /// The request's shape was checked: whether the encoder can take it.
    ShapeChecked(bool),
    /// The application answered the open: whether it accepted.
    OpenAnswered(bool),
    /// The acknowledgement was written: whether the producer was still there.
    AckWritten(bool),
    /// The server or the stream stopped running before the next read.
    Stopped,
    /// The next read found this.
    Read(FrameRead),
    /// The application answered a frame: whether it accepted.
    FrameAnswered(bool),
}

/// Why a served stream closes, in the terms of its close request.
#[derive(Debug, Clone, Copy, PartialEq, Eq, Structural)]
pub enum CloseWhy {
    /// The producer finished, or serving stopped: a clean close.
    Finished,
    /// The application refused the open; its answer goes to the producer.
    OpenRefused,
    /// The producer left before the acknowledgement.
    LeftBeforeAck,
    /// The read after this many frames ended inside a frame; the producer
    /// is told with an `invalid_frame` line.
    ShortFrame(u64),
    /// The application refused this frame; its answer goes to the producer.
    FrameRefused(u64),
}

/// What the caller does next.
#[derive(Debug, Clone, Copy, PartialEq, Eq, Structural)]
pub enum ServeAction {
    /// Answer `invalid_params` and stop; nothing was opened.
    RejectParams,
    /// Send the open request to the application.
    DispatchOpen,
    /// Register the stream (so a cancel can reach it), then acknowledge.
    RegisterAndAck,
    /// Read the next frame.
    ReadFrame,
    /// Send the frame just read to the application under this number.
    DispatchFrame(u64),
    /// Close the stream for this reason.
    Close(CloseWhy),
    /// Close the stream as failed with the read error's text.
    FailWithReadError,
    /// The event does not belong to this phase: do nothing.
    Nothing,
}

/// One step of serving a stream.
pub open spec fn serve_step_spec(phase: ServePhase, event: ServeEvent) -> (ServePhase, ServeAction) {
    match (phase, event) {
        (ServePhase::Start, ServeEvent::ShapeChecked(ok)) => if ok {
            (ServePhase::Opening, ServeAction::DispatchOpen)
        } else {
            (ServePhase::Done, ServeAction::RejectParams)
        },
        (ServePhase::Opening, ServeEvent::OpenAnswered(ok)) => if ok {
            (ServePhase::Acking, ServeAction::RegisterAndAck)
        } else {
            (ServePhase::Done, ServeAction::Close(CloseWhy::OpenRefused))
        },
        (ServePhase::Acking, ServeEvent::AckWritten(ok)) => if ok {
            (ServePhase::Reading(0), ServeAction::ReadFrame)
        } else {
            (ServePhase::Done, ServeAction::Close(CloseWhy::LeftBeforeAck))
        },
        (ServePhase::Reading(_), ServeEvent::Stopped) => (ServePhase::Done, ServeAction::Close(CloseWhy::Finished)),
        (ServePhase::Reading(k), ServeEvent::Read(read)) => match read {
            FrameRead::Whole => (ServePhase::Awaiting(next_seq(k)), ServeAction::DispatchFrame(next_seq(k))),
            FrameRead::CleanEnd => (ServePhase::Done, ServeAction::Close(CloseWhy::Finished)),
            FrameRead::Short => (ServePhase::Done, ServeAction::Close(CloseWhy::ShortFrame(k))),
            FrameRead::Failure => (ServePhase::Done, ServeAction::FailWithReadError),
        },
        (ServePhase::Awaiting(n), ServeEvent::FrameAnswered(ok)) => if ok {
            (ServePhase::Reading(n), ServeAction::ReadFrame)
        } else {
            (ServePhase::Done, ServeAction::Close(CloseWhy::FrameRefused(n)))
        },
        _ => (phase, ServeAction::Nothing),
    }
}

/// One step of serving a stream: the shape is checked before anything is
/// opened; the stream is registered before it is acknowledged; frames are
/// read one at a time and each whole frame goes to the application under
/// the next number before the next read; a frame that ends short, a refused
/// frame, a refused open or a producer gone before the ack closes the
/// stream as failed; a clean end or a stop closes it cleanly; once served,
/// nothing more happens.
pub fn serve_step(phase: ServePhase, event: ServeEvent) -> (r: (ServePhase, ServeAction))
    ensures
        r == serve_step_spec(phase, event),
{
    match (phase, event) {
        (ServePhase::Start, ServeEvent::ShapeChecked(ok)) => if ok {
            (ServePhase::Opening, ServeAction::DispatchOpen)
        } else {
            (ServePhase::Done, ServeAction::RejectParams)
        },
        (ServePhase::Opening, ServeEvent::OpenAnswered(ok)) => if ok {
            (ServePhase::Acking, ServeAction::RegisterAndAck)
        } else {
            (ServePhase::Done, ServeAction::Close(CloseWhy::OpenRefused))
        },
        (ServePhase::Acking, ServeEvent::AckWritten(ok)) => if ok {
            (ServePhase::Reading(0), ServeAction::ReadFrame)
        } else {
            (ServePhase::Done, ServeAction::Close(CloseWhy::LeftBeforeAck))
        },
        (ServePhase::Reading(_), ServeEvent::Stopped) => (ServePhase::Done, ServeAction::Close(CloseWhy::Finished)),
        (ServePhase::Reading(k), ServeEvent::Read(read)) => match read {
            FrameRead::Whole => {
                let n = k.saturating_add(1);
                (ServePhase::Awaiting(n), ServeAction::DispatchFrame(n))
            },
            FrameRead::CleanEnd => (ServePhase::Done, ServeAction::Close(CloseWhy::Finished)),
            FrameRead::Short => (ServePhase::Done, ServeAction::Close(CloseWhy::ShortFrame(k))),
            FrameRead::Failure => (ServePhase::Done, ServeAction::FailWithReadError),
        },
        (ServePhase::Awaiting(n), ServeEvent::FrameAnswered(ok)) => if ok {
            (ServePhase::Reading(n), ServeAction::ReadFrame)
        } else {
            (ServePhase::Done, ServeAction::Close(CloseWhy::FrameRefused(n)))
        },
        _ => (phase, ServeAction::Nothing),
    }
}

/// Serving a stream through a list of events, from the start: the phase it
/// ends in and every action taken, in order.
pub open spec fn serve_run(events: Seq<ServeEvent>) -> (ServePhase, Seq<ServeAction>)
    decreases events.len(),
{
    if events.len() == 0 {
        (ServePhase::Start, Seq::empty())
    } else {
        let (phase, acts) = serve_run(events.drop_last());
        let (next, act) = serve_step_spec(phase, events.last());
        (next, acts.push(act))
    }
}

/// An action that ends the stream.
pub open spec fn is_close(a: ServeAction) -> bool {
    a is Close || a is FailWithReadError
}

/// An action the application sees: the open, a frame, or the close.
pub open spec fn is_milestone(a: ServeAction) -> bool {
    a is DispatchOpen || a is DispatchFrame || is_close(a)
}

/// The actions the application sees, in order.
pub open spec fn milestones(acts: Seq<ServeAction>) -> Seq<ServeAction>
    decreases acts.len(),
{
    if acts.len() == 0 {
        Seq::empty()
    } else {
        let prev = milestones(acts.drop_last());
        if is_milestone(acts.last()) { prev.push(acts.last()) } else { prev }
    }
}

/// The open, then frames numbered `1..=k`.
pub open spec fn opened(k: nat) -> Seq<ServeAction> {
    seq![ServeAction::DispatchOpen] + Seq::new(k, |i: int| ServeAction::DispatchFrame((i + 1) as u64))
}

/// What the application has seen of a stream in each phase.
pub open spec fn serve_ok(phase: ServePhase, ms: Seq<ServeAction>) -> bool {
    match phase {
        ServePhase::Start => ms.len() == 0,
        ServePhase::Opening | ServePhase::Acking => ms == opened(0),
        ServePhase::Reading(k) => ms == opened(k as nat),
        ServePhase::Awaiting(k) => k >= 1 && ms == opened(k as nat),
        ServePhase::Done => ms.len() == 0 || (ms.len() >= 2 && is_close(ms.last()) && ms.drop_last() == opened(
            (ms.len() - 2) as nat,
        )),
    }
}

proof fn lemma_serve_run(events: Seq<ServeEvent>)
    requires
        events.len() < u64::MAX,
    ensures
        serve_ok(serve_run(events).0, milestones(serve_run(events).1)),
        serve_run(events).1.len() == events.len(),
        serve_run(events).0 matches ServePhase::Reading(k) ==> k <= events.len(),
        serve_run(events).0 matches ServePhase::Awaiting(k) ==> k <= events.len(),
        (exists|i: int| 0 <= i < serve_run(events).1.len() && is_close(#[trigger] serve_run(events).1[i]))
            ==> serve_run(events).0 == ServePhase::Done,
        serve_run(events).0 == ServePhase::Done ==> forall|i: int, j: int| 0 <= i < j < serve_run(events).1.len()
            && is_close(#[trigger] serve_run(events).1[i]) ==> #[trigger] serve_run(events).1[j] == ServeAction::Nothing,
    decreases events.len(),
{
    if events.len() > 0 {
        let pre = events.drop_last();
        lemma_serve_run(pre);
        let (phase, acts) = serve_run(pre);
        let (next, act) = serve_step_spec(phase, events.last());
        let ms = milestones(acts);
        let acts2 = acts.push(act);
        assert(serve_run(events) == (next, acts2));
        assert(acts2.drop_last() =~= acts);
        let ms2 = milestones(acts2);
        assert(ms2 == (if is_milestone(act) { ms.push(act) } else { ms }));
        match phase {
            ServePhase::Start => {
                assert(Seq::<ServeAction>::empty().push(ServeAction::DispatchOpen) =~= opened(0));
                assert(ms =~= Seq::<ServeAction>::empty());
            },
            ServePhase::Reading(k) => {
                if act is DispatchFrame {
                    assert(next_seq(k) == k + 1);
                    assert(opened(k as nat).push(act) =~= opened((k + 1) as nat));
                }
                if is_close(act) {
                    assert(ms2.drop_last() =~= ms);
                }
            },
            ServePhase::Awaiting(k) => {
                if is_close(act) {
                    assert(ms2.drop_last() =~= ms);
                }
            },
            ServePhase::Opening | ServePhase::Acking => {
                if is_close(act) {
                    assert(ms2.drop_last() =~= ms);
                }
            },
            _ => {},
        }
        assert forall|i: int| 0 <= i < acts2.len() && is_close(#[trigger] acts2[i]) implies next == ServePhase::Done by {
            if i < acts.len() {
                assert(acts2[i] == acts[i]);
            }
        }
        if next == ServePhase::Done {
            assert forall|i: int, j: int| 0 <= i < j < acts2.len() && is_close(#[trigger] acts2[i]) implies #[trigger] acts2[j]
                == ServeAction::Nothing by {
                assert(acts2[i] == acts[i]);
                if j < acts.len() {
                    assert(acts2[j] == acts[j]);
                }
            }
        }
    }
}

/// The order a stream's application sees, for every sequence of events:
/// nothing at all (the shape was refused), or the open, then frames
/// numbered 1, 2, 3 … each once and in order, then at most one close; after
/// the close nothing more happens. A read that ends inside a frame never
/// dispatches it: it closes the stream as failed.
pub proof fn law_serve_order(events: Seq<ServeEvent>)
    requires
        events.len() < u64::MAX,
    ensures
        ({
            let acts = serve_run(events).1;
            let ms = milestones(acts);
            &&& ms.len() == 0 || ms[0] == ServeAction::DispatchOpen
            &&& forall|i: int| 1 <= i < ms.len() ==> (#[trigger] ms[i] == ServeAction::DispatchFrame(i as u64) || (i == ms.len()
                - 1 && is_close(ms[i])))
            &&& forall|i: int, j: int| 0 <= i < j < acts.len() && is_close(#[trigger] acts[i]) ==> #[trigger] acts[j]
                == ServeAction::Nothing
        }),
        forall|k: u64| #[trigger] serve_step_spec(ServePhase::Reading(k), ServeEvent::Read(FrameRead::Short)) == (
            ServePhase::Done,
            ServeAction::Close(CloseWhy::ShortFrame(k)),
        ),
{
    lemma_serve_run(events);
    let (phase, acts) = serve_run(events);
    let ms = milestones(acts);
    if ms.len() > 0 {
        let k: nat = match phase {
            ServePhase::Reading(k) => k as nat,
            ServePhase::Awaiting(k) => k as nat,
            ServePhase::Done => (ms.len() - 2) as nat,
            _ => 0,
        };
        assert(ms.len() > 0 ==> ms[0] == opened(k)[0]) by {
            if phase == ServePhase::Done {
                assert(ms[0] == ms.drop_last()[0]);
            }
        }
        assert forall|i: int| 1 <= i < ms.len() implies (#[trigger] ms[i] == ServeAction::DispatchFrame(i as u64) || (i == ms.len()
            - 1 && is_close(ms[i]))) by {
            if phase == ServePhase::Done {
                if i < ms.len() - 1 {
                    assert(ms[i] == ms.drop_last()[i]);
                    assert(opened(k)[i] == ServeAction::DispatchFrame(i as u64));
                }
            } else {
                assert(opened(k)[i] == ServeAction::DispatchFrame(i as u64));
            }
        }
    }
}

} // verus!
