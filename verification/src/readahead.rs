//! The consumer half of the read-ahead layer.
//!
//! Read-ahead overlaps disk I/O with decoding: a producer repeatedly reads
//! fixed-size chunks from a file and pushes them onto a bounded queue, and
//! the consumer serves sequential reads out of the chunk at hand, pulling
//! the next chunk only when the current one is spent. End-of-file and any
//! producer-side read error collapse into one terminal signal; after it,
//! every read returns no bytes — a clean end of stream to the caller.
//!
//! The producer thread and the queue live outside this crate; this module
//! holds the state the consumer owns — the current chunk, the position
//! within it, and whether the terminal signal arrived — and proves that the
//! bytes served are exactly the bytes of the chunks pushed, in order.

use vstd::prelude::*;

verus! {

/// The mathematical state of a [`ChunkBuffer`]: the bytes of the current
/// chunk not yet served, and whether the terminal signal arrived.
pub struct ChunkBufferView {
    /// Bytes of the current chunk not yet handed to the consumer
    pub remaining: Seq<u8>,
    /// Whether the stream's terminal signal has been received
    pub finished: bool,
}

/// The consumer's sequential view over a stream of chunks.
///
/// A read request is served from the current chunk if any of its bytes
/// remain; otherwise the caller must pull the next chunk from its source
/// and [`push_chunk`](ChunkBuffer::push_chunk) it, or
/// [`finish`](ChunkBuffer::finish) on the terminal signal.
#[derive(Debug)]
pub struct ChunkBuffer {
    current: Vec<u8>,
    pos: usize,
    finished: bool,
}

impl View for ChunkBuffer {
    type V = ChunkBufferView;

    closed spec fn view(&self) -> ChunkBufferView {
        ChunkBufferView {
            remaining: self.current@.subrange(self.pos as int, self.current@.len() as int),
            finished: self.finished,
        }
    }
}

impl ChunkBuffer {
    /// The position never runs past the current chunk.
    pub closed spec fn wf(&self) -> bool {
        self.pos <= self.current@.len()
    }

    /// An empty buffer: no bytes, terminal signal not yet seen.
    pub fn new() -> (r: ChunkBuffer)
        ensures
            r.wf(),
            r@.remaining == Seq::<u8>::empty(),
            !r@.finished,
    {
        let r = ChunkBuffer { current: Vec::new(), pos: 0, finished: false };
        proof {
            assert(r@.remaining =~= Seq::<u8>::empty());
        }
        r
    }

    /// Whether any bytes of the current chunk remain to be served.
    pub fn has_bytes(&self) -> (r: bool)
        requires
            self.wf(),
        ensures
            r == (self@.remaining.len() > 0),
    {
        self.pos < self.current.len()
    }

    /// Whether the terminal signal has been received: every further read
    /// returns no bytes.
    pub fn is_finished(&self) -> (r: bool)
        ensures
            r == self@.finished,
    {
        self.finished
    }

    /// Whether the consumer must pull the next chunk before a read can be
    /// served: no bytes remain and the terminal signal has not arrived.
    pub fn needs_chunk(&self) -> (r: bool)
        requires
            self.wf(),
        ensures
            r == (self@.remaining.len() == 0 && !self@.finished),
    {
        self.pos >= self.current.len() && !self.finished
    }

    /// Install the next chunk, replacing the spent one. Valid only once the
    /// current chunk is fully served and before the terminal signal.
    pub fn push_chunk(&mut self, chunk: Vec<u8>)
        requires
            old(self).wf(),
            old(self)@.remaining.len() == 0,
            !old(self)@.finished,
        ensures
            final(self).wf(),
            final(self)@.remaining == chunk@,
            !final(self)@.finished,
    {
        self.current = chunk;
        self.pos = 0;
        proof {
            assert(self@.remaining =~= self.current@);
        }
    }

    /// Record the terminal signal: end-of-file or a producer-side error,
    /// indistinguishable by design.
    pub fn finish(&mut self)
        requires
            old(self).wf(),
        ensures
            final(self).wf(),
            final(self)@.remaining == old(self)@.remaining,
            final(self)@.finished,
    {
        self.finished = true;
    }

    /// Serve up to `max` bytes from the current chunk: exactly the first
    /// `min(max, remaining)` remaining bytes, in order, which are consumed.
    pub fn take(&mut self, max: usize) -> (r: Vec<u8>)
        requires
            old(self).wf(),
        ensures
            final(self).wf(),
            r@.len() == if max <= old(self)@.remaining.len() {
                max as int
            } else {
                old(self)@.remaining.len() as int
            },
            r@ == old(self)@.remaining.subrange(0, r@.len() as int),
            final(self)@.remaining == old(self)@.remaining.subrange(
                r@.len() as int,
                old(self)@.remaining.len() as int,
            ),
            final(self)@.finished == old(self)@.finished,
    {
        let available = self.current.len() - self.pos;
        let n = if max <= available {
            max
        } else {
            available
        };
        let mut out: Vec<u8> = Vec::with_capacity(n);
        let mut k: usize = 0;
        while k < n
            invariant
                self.wf(),
                self.pos + n <= self.current@.len(),
                self.current@.len() <= usize::MAX,
                k <= n,
                out@ == self.current@.subrange(self.pos as int, self.pos + k),
            decreases n - k,
        {
            out.push(self.current[self.pos + k]);
            proof {
                assert(out@ =~= self.current@.subrange(self.pos as int, self.pos + k + 1));
            }
            k = k + 1;
        }
        proof {
            assert(out@ =~= old(self)@.remaining.subrange(0, n as int));
        }
        self.pos = self.pos + n;
        proof {
            assert(self@.remaining =~= old(self)@.remaining.subrange(
                n as int,
                old(self)@.remaining.len() as int,
            ));
        }
        out
    }
}

} // verus!
