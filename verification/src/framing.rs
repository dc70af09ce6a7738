//! Framing: the wire unit is a 4-byte little-endian length prefix followed by
//! exactly that many body bytes. The incremental [`FrameDecoder`] accepts the
//! stream in chunks of any size — 0, 1, or many bytes per call — and hands
//! out each body only once it is complete; a frame declaring a length above
//! [`MAX_FRAME_LEN`] is rejected before any buffer of the declared size
//! exists. What the decoder delivers depends only on the concatenation of the
//! bytes fed, never on the chunk boundaries.

use vstd::prelude::*;
use vstd::bytes::{spec_u32_from_le_bytes, spec_u32_to_le_bytes, u32_from_le_bytes,
    u32_to_le_bytes};
use vstd::slice::{slice_index_get, slice_subrange, slice_to_vec};

verus! {

/// Ceiling on the body length a frame may declare. Frame lengths are
/// peer-declared and trusted only up to this bound; a larger declaration is
/// a protocol violation, not a request for memory.
pub const MAX_FRAME_LEN: u32 = 1048576;

/// A body small enough to be framed.
pub open spec fn frame_admissible(body: Seq<u8>) -> bool {
    body.len() <= MAX_FRAME_LEN
}

/// The wire form of one frame: length prefix, then the body.
pub open spec fn spec_frame(body: Seq<u8>) -> Seq<u8> {
    spec_u32_to_le_bytes(body.len() as u32) + body
}

/// The body length the stream head declares.
pub open spec fn declared_len(p: Seq<u8>) -> int
    recommends
        p.len() >= 4,
{
    spec_u32_from_le_bytes(p.take(4)) as int
}

/// The stream head holds a full admissible frame.
pub open spec fn has_complete_frame(p: Seq<u8>) -> bool {
    p.len() >= 4 && declared_len(p) <= MAX_FRAME_LEN && p.len() >= 4 + declared_len(p)
}

/// The stream head declares a length above the ceiling.
pub open spec fn stream_oversized(p: Seq<u8>) -> bool {
    p.len() >= 4 && declared_len(p) > MAX_FRAME_LEN
}

/// Body of the complete frame at the stream head.
pub open spec fn first_frame(p: Seq<u8>) -> Seq<u8>
    recommends
        has_complete_frame(p),
{
    p.subrange(4, 4 + declared_len(p))
}

/// The stream past the complete frame at its head.
pub open spec fn after_first_frame(p: Seq<u8>) -> Seq<u8>
    recommends
        has_complete_frame(p),
{
    p.skip(4 + declared_len(p))
}

/// All complete frame bodies at the head of the stream, in order. Parsing
/// stops at an incomplete tail or at an oversize declaration.
pub open spec fn frames_of(p: Seq<u8>) -> Seq<Seq<u8>>
    decreases p.len(),
{
    if has_complete_frame(p) {
        seq![first_frame(p)] + frames_of(after_first_frame(p))
    } else {
        Seq::empty()
    }
}

/// The bytes that carried the given frame bodies, in order.
pub open spec fn concat_framed(fs: Seq<Seq<u8>>) -> Seq<u8>
    decreases fs.len(),
{
    if fs.len() == 0 {
        Seq::empty()
    } else {
        spec_frame(fs[0]) + concat_framed(fs.skip(1))
    }
}

/// Incremental frame decoder. Feed it the transport bytes as they arrive;
/// poll it for complete frame bodies. Once an oversize declaration is seen
/// the decoder stays poisoned: the stream is desynchronized for good.
pub struct FrameDecoder {
    pending: Vec<u8>,
    dead: bool,
    history: Ghost<Seq<Seq<u8>>>,
}

/// One answer of [`FrameDecoder::poll`].
pub enum FramePoll {
    /// A complete frame body, delivered exactly once, in stream order.
    Frame(Vec<u8>),
    /// No complete frame is buffered; feed more bytes.
    NeedMoreBytes,
    /// The stream declared a frame longer than [`MAX_FRAME_LEN`].
    Oversized,
}

impl FrameDecoder {
    /// Frame bodies this decoder has already delivered, in order.
    pub closed spec fn delivered(self) -> Seq<Seq<u8>> {
        self.history@
    }

    /// Bytes fed but not yet delivered as part of a frame.
    pub closed spec fn pending_bytes(self) -> Seq<u8> {
        self.pending@
    }

    /// Whether an oversize declaration has been seen.
    pub closed spec fn poisoned(self) -> bool {
        self.dead
    }

    /// Every byte ever fed, reconstructed from the delivered frames and the
    /// unconsumed tail.
    pub open spec fn fed(self) -> Seq<u8> {
        concat_framed(self.delivered()) + self.pending_bytes()
    }

    /// Internal consistency: every delivered body was admissible, and a
    /// poisoned decoder still holds the offending header unconsumed.
    pub closed spec fn wf(self) -> bool {
        &&& forall|i: int| 0 <= i < self.history@.len() ==> frame_admissible(#[trigger] self.history@[i])
        &&& (self.dead ==> stream_oversized(self.pending@))
    }

    /// A fresh decoder: nothing fed, nothing delivered.
    pub fn new() -> (r: FrameDecoder)
        ensures
            r.wf(),
            !r.poisoned(),
            r.delivered() == Seq::<Seq<u8>>::empty(),
            r.pending_bytes() == Seq::<u8>::empty(),
            r.fed() == Seq::<u8>::empty(),
    {
        let r = FrameDecoder { pending: Vec::new(), dead: false, history: Ghost(Seq::empty()) };
        assert(r.fed() =~= Seq::<u8>::empty());
        r
    }

    /// Accepts the next chunk of transport bytes; any chunking, including an
    /// empty chunk, leaves the decoder exactly as the concatenation would.
    pub fn feed(&mut self, chunk: &[u8])
        requires
            old(self).wf(),
        ensures
            final(self).wf(),
            final(self).delivered() == old(self).delivered(),
            final(self).poisoned() == old(self).poisoned(),
            final(self).pending_bytes() == old(self).pending_bytes() + chunk@,
            final(self).fed() == old(self).fed() + chunk@,
    {
        let mut i: usize = 0;
        while i < chunk.len()
            invariant
                i <= chunk@.len(),
                self.pending@ == old(self).pending@ + chunk@.take(i as int),
                self.dead == old(self).dead,
                self.history == old(self).history,
            decreases chunk@.len() - i,
        {
            self.pending.push(*slice_index_get(chunk, i));
            assert(old(self).pending@ + chunk@.take(i as int) + seq![chunk@[i as int]]
                =~= old(self).pending@ + chunk@.take(i + 1));
            i = i + 1;
        }
        assert(self.pending@ =~= old(self).pending@ + chunk@);
        proof {
            if self.dead {
                assert((old(self).pending@ + chunk@).take(4) =~= old(self).pending@.take(4));
            }
            assert(final(self).fed() =~= old(self).fed() + chunk@);
        }
    }

    /// Hands out the next complete frame body, asks for more bytes, or
    /// reports an oversize declaration — which consumes nothing and is
    /// permanent.
    pub fn poll(&mut self) -> (r: FramePoll)
        requires
            old(self).wf(),
        ensures
            final(self).wf(),
            final(self).fed() == old(self).fed(),
            final(self).poisoned() == (old(self).poisoned()
                || stream_oversized(old(self).pending_bytes())),
            match r {
                FramePoll::Frame(f) => {
                    &&& !old(self).poisoned()
                    &&& has_complete_frame(old(self).pending_bytes())
                    &&& f@ == first_frame(old(self).pending_bytes())
                    &&& frame_admissible(f@)
                    &&& final(self).pending_bytes() == after_first_frame(old(self).pending_bytes())
                    &&& final(self).delivered() == old(self).delivered().push(f@)
                },
                FramePoll::NeedMoreBytes => {
                    &&& *final(self) == *old(self)
                    &&& !old(self).poisoned()
                    &&& !has_complete_frame(old(self).pending_bytes())
                    &&& !stream_oversized(old(self).pending_bytes())
                },
                FramePoll::Oversized => {
                    &&& old(self).poisoned() || stream_oversized(old(self).pending_bytes())
                    &&& final(self).delivered() == old(self).delivered()
                    &&& final(self).pending_bytes() == old(self).pending_bytes()
                },
            },
    {
        if self.dead {
            return FramePoll::Oversized;
        }
        if self.pending.len() < 4 {
            return FramePoll::NeedMoreBytes;
        }
        let header = slice_subrange(self.pending.as_slice(), 0, 4);
        assert(header@ =~= self.pending@.take(4));
        let n = u32_from_le_bytes(header);
        if n > MAX_FRAME_LEN {
            self.dead = true;
            return FramePoll::Oversized;
        }
        let total: usize = 4 + n as usize;
        if self.pending.len() < total {
            return FramePoll::NeedMoreBytes;
        }
        let body = slice_to_vec(slice_subrange(self.pending.as_slice(), 4, total));
        let rest = slice_to_vec(slice_subrange(
            self.pending.as_slice(),
            total,
            self.pending.len(),
        ));
        proof {
            vstd::bytes::lemma_auto_spec_u32_to_from_le_bytes();
            assert(old(self).pending@ =~= spec_frame(body@) + rest@);
        }
        self.pending = rest;
        proof {
            let ghost h0 = self.history@;
            lemma_concat_framed_push(h0, body@);
        }
        self.history = Ghost(self.history@.push(body@));
        assert(final(self).fed() =~= old(self).fed());
        FramePoll::Frame(body)
    }

    /// End-of-stream classification, as the reader contract asks: end of
    /// stream before a length prefix is fully read is a clean end of
    /// channel; end of stream once a length is known but its body is not
    /// complete — or after an oversize declaration — is a transport fault.
    pub fn end_is_clean(&self) -> (r: bool)
        ensures
            r == (!self.poisoned() && self.pending_bytes().len() < 4),
    {
        !self.dead && self.pending.len() < 4
    }
}

/// Frames a message body for the wire, refusing a body above the ceiling.
pub fn encode_frame(body: &[u8]) -> (r: Result<Vec<u8>, FrameError>)
    ensures
        match r {
            Ok(f) => frame_admissible(body@) && f@ == spec_frame(body@),
            Err(e) => !frame_admissible(body@) && e == FrameError::TooLarge,
        },
{
    if body.len() > MAX_FRAME_LEN as usize {
        return Err(FrameError::TooLarge);
    }
    let mut out = u32_to_le_bytes(body.len() as u32);
    let mut rest = slice_to_vec(body);
    out.append(&mut rest);
    Ok(out)
}

/// Why a body could not be framed.
#[derive(Debug, Clone, Copy, PartialEq, Eq)]
pub enum FrameError {
    /// The body is longer than [`MAX_FRAME_LEN`].
    TooLarge,
}

/// Appending one framed body to the carried bytes carries one more body.
proof fn lemma_concat_framed_push(fs: Seq<Seq<u8>>, f: Seq<u8>)
    ensures
        concat_framed(fs.push(f)) == concat_framed(fs) + spec_frame(f),
    decreases fs.len(),
{
    if fs.len() == 0 {
        assert(fs.push(f)[0] == f);
        assert(fs.push(f).skip(1) =~= Seq::<Seq<u8>>::empty());
        assert(concat_framed(fs.push(f).skip(1)) == Seq::<u8>::empty());
        assert(concat_framed(fs.push(f)) == spec_frame(f) + Seq::<u8>::empty());
        assert(spec_frame(f) + Seq::<u8>::empty() =~= Seq::<u8>::empty() + spec_frame(f));
        assert(concat_framed(fs) == Seq::<u8>::empty());
    } else {
        assert(fs.push(f).skip(1) =~= fs.skip(1).push(f));
        assert(fs.push(f)[0] == fs[0]);
        lemma_concat_framed_push(fs.skip(1), f);
        assert(concat_framed(fs.push(f)) == spec_frame(fs[0]) + (concat_framed(fs.skip(1))
            + spec_frame(f)));
        assert(spec_frame(fs[0]) + (concat_framed(fs.skip(1)) + spec_frame(f))
            =~= (spec_frame(fs[0]) + concat_framed(fs.skip(1))) + spec_frame(f));
    }
}

/// The frames of a stream that begins with admissible framed bodies are
/// those bodies followed by the frames of the rest.
proof fn lemma_frames_of_concat_framed(fs: Seq<Seq<u8>>, p: Seq<u8>)
    requires
        forall|i: int| 0 <= i < fs.len() ==> frame_admissible(#[trigger] fs[i]),
    ensures
        frames_of(concat_framed(fs) + p) == fs + frames_of(p),
    decreases fs.len(),
{
    vstd::bytes::lemma_auto_spec_u32_to_from_le_bytes();
    if fs.len() == 0 {
        assert(concat_framed(fs) + p =~= p);
        assert(fs + frames_of(p) =~= frames_of(p));
    } else {
        let s = concat_framed(fs) + p;
        let tail = concat_framed(fs.skip(1)) + p;
        assert(s =~= spec_frame(fs[0]) + tail);
        assert(s.take(4) =~= spec_u32_to_le_bytes(fs[0].len() as u32));
        assert(declared_len(s) == fs[0].len());
        assert(has_complete_frame(s));
        assert(first_frame(s) =~= fs[0]);
        assert(after_first_frame(s) =~= tail);
        assert(forall|i: int| 0 <= i < fs.skip(1).len()
            ==> frame_admissible(#[trigger] fs.skip(1)[i]));
        lemma_frames_of_concat_framed(fs.skip(1), p);
        assert(seq![first_frame(s)] + (fs.skip(1) + frames_of(p)) =~= fs + frames_of(p));
    }
}

/// Framing round trip: a stream holding exactly one framed admissible body
/// parses back to that body alone.
pub proof fn lemma_frame_round_trip(body: Seq<u8>)
    requires
        frame_admissible(body),
    ensures
        frames_of(spec_frame(body)) == seq![body],
{
    let fs = seq![body];
    assert(concat_framed(fs.skip(1)) == Seq::<u8>::empty());
    assert(concat_framed(fs) =~= spec_frame(body));
    assert(concat_framed(fs) + Seq::<u8>::empty() =~= spec_frame(body));
    lemma_frames_of_concat_framed(fs, Seq::empty());
    assert(frames_of(Seq::<u8>::empty()) == Seq::<Seq<u8>>::empty());
    assert(fs + Seq::<Seq<u8>>::empty() =~= fs);
}

/// Framing robustness, first half: a well-formed decoder has delivered
/// exactly the leading frames of the bytes fed so far — however those bytes
/// were chunked — and what is still derivable is determined by its pending
/// tail alone.
pub proof fn lemma_decoder_tracks_stream(d: FrameDecoder)
    requires
        d.wf(),
    ensures
        frames_of(d.fed()) == d.delivered() + frames_of(d.pending_bytes()),
{
    lemma_frames_of_concat_framed(d.delivered(), d.pending_bytes());
}

/// Framing robustness, second half: extending a stream never changes the
/// frames already parsed from it, so frames may be handed out as soon as
/// they complete.
pub proof fn lemma_frames_of_extension(s: Seq<u8>, t: Seq<u8>)
    ensures
        frames_of(s).is_prefix_of(frames_of(s + t)),
    decreases s.len(),
{
    if has_complete_frame(s) {
        let w = s + t;
        assert(w.take(4) =~= s.take(4));
        assert(declared_len(w) == declared_len(s));
        assert(has_complete_frame(w));
        assert(first_frame(w) =~= first_frame(s));
        assert(after_first_frame(w) =~= after_first_frame(s) + t);
        lemma_frames_of_extension(after_first_frame(s), t);
        let a = frames_of(after_first_frame(s));
        let b = frames_of(after_first_frame(s) + t);
        assert(frames_of(s) =~= seq![first_frame(s)] + a);
        assert(frames_of(w) =~= seq![first_frame(s)] + b);
        assert((seq![first_frame(s)] + a) =~= (seq![first_frame(s)] + b).subrange(
            0,
            (seq![first_frame(s)] + a).len() as int,
        ));
    } else {
        assert(frames_of(s) =~= frames_of(s + t).subrange(0, 0));
    }
}

} // verus!
