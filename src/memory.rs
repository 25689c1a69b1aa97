use vstd::prelude::*;
use vstd::math::min;
use crate::channel::ByteChannel;
use crate::transport::DuplexStream;

verus! {

/// An in-memory loopback stream: bytes written to it can be read back from
/// it, in order. Each call moves at most `chunk` bytes, so a stream that
/// trickles data one byte at a time can be built for testing; a broken
/// stream fails every call.
#[derive(Debug)]
pub struct MemoryStream {
    data: Vec<u8>,
    read_pos: usize,
    chunk: usize,
    broken: bool,
}

impl MemoryStream {
    /// How far reading has got, never past what was written.
    closed spec fn read_upto(&self) -> int {
        if self.read_pos <= self.data.len() {
            self.read_pos as int
        } else {
            self.data.len() as int
        }
    }

    /// The most bytes a single call moves.
    pub closed spec fn chunk_limit(&self) -> nat {
        self.chunk as nat
    }

    /// Every call fails.
    pub closed spec fn is_broken(&self) -> bool {
        self.broken
    }

    /// A stream with no bytes in it that moves any number of bytes per call.
    pub fn new() -> (r: Self)
        ensures
            r.sent().len() == 0,
            r.received().len() == 0,
            r.pending().len() == 0,
            r.chunk_limit() == usize::MAX,
            !r.is_broken(),
            r.live(),
    {
        MemoryStream { data: Vec::new(), read_pos: 0, chunk: usize::MAX, broken: false }
    }

    /// A stream with no bytes in it that moves at most `chunk` bytes per
    /// call. With `chunk == 0` it takes nothing and reads as ended.
    pub fn with_chunk(chunk: usize) -> (r: Self)
        ensures
            r.sent().len() == 0,
            r.received().len() == 0,
            r.pending().len() == 0,
            r.chunk_limit() == chunk,
            !r.is_broken(),
            r.live() == (chunk > 0),
    {
        MemoryStream { data: Vec::new(), read_pos: 0, chunk, broken: false }
    }

    /// A stream whose every call fails.
    pub fn broken() -> (r: Self)
        ensures
            r.sent().len() == 0,
            r.received().len() == 0,
            r.pending().len() == 0,
            r.is_broken(),
            !r.live(),
    {
        MemoryStream { data: Vec::new(), read_pos: 0, chunk: usize::MAX, broken: true }
    }

    /// Every byte written so far.
    pub fn written(&self) -> (r: Vec<u8>)
        ensures
            r@ == self.sent(),
    {
        self.data.clone()
    }

    /// The number of bytes written and not read yet.
    pub fn unread(&self) -> (r: usize)
        ensures
            r == self.pending().len(),
    {
        if self.read_pos <= self.data.len() {
            self.data.len() - self.read_pos
        } else {
            0
        }
    }

    /// Appends as much of `data` as one call moves: all of it, or the first
    /// `chunk` bytes. Returns how many were taken. Works on a broken stream
    /// too.
    pub fn write_bytes(&mut self, data: &[u8]) -> (r: usize)
        ensures
            r == if data@.len() < old(self).chunk_limit() {
                data@.len()
            } else {
                old(self).chunk_limit()
            },
            final(self).sent() == old(self).sent() + data@.subrange(0, r as int),
            final(self).received() == old(self).received(),
            final(self).pending() == old(self).pending() + data@.subrange(0, r as int),
            final(self).chunk_limit() == old(self).chunk_limit(),
            final(self).is_broken() == old(self).is_broken(),
    {
        let n = if data.len() < self.chunk {
            data.len()
        } else {
            self.chunk
        };
        if self.read_pos > self.data.len() {
            self.read_pos = self.data.len();
        }
        let ghost upto = self.read_upto();
        let ghost before = self.data@;
        let mut i: usize = 0;
        while i < n
            invariant
                i <= n <= data@.len(),
                self.chunk == old(self).chunk,
                self.broken == old(self).broken,
                self.data@ == before + data@.subrange(0, i as int),
                before == old(self).data@,
                upto == old(self).read_upto(),
                upto == self.read_pos <= before.len(),
            decreases n - i,
        {
            self.data.push(data[i]);
            proof {
                assert(before + data@.subrange(0, i + 1) =~= (before + data@.subrange(
                    0,
                    i as int,
                )).push(data@[i as int]));
            }
            i = i + 1;
        }
        proof {
            assert(self.data@.subrange(0, upto) =~= before.subrange(0, upto));
            assert(self.data@.subrange(upto, self.data@.len() as int) =~= before.subrange(
                upto,
                before.len() as int,
            ) + data@.subrange(0, n as int));
        }
        n
    }

    /// Reads the next unread bytes, as many as one call moves and at most
    /// `max`. Returns an empty vector when every byte has been read. Works
    /// on a broken stream too.
    pub fn read_bytes(&mut self, max: usize) -> (r: Vec<u8>)
        ensures
            r@.len() == min(
                min(max as int, old(self).chunk_limit() as int),
                old(self).pending().len() as int,
            ),
            old(self).pending() == r@ + final(self).pending(),
            final(self).received() == old(self).received() + r@,
            final(self).sent() == old(self).sent(),
            final(self).chunk_limit() == old(self).chunk_limit(),
            final(self).is_broken() == old(self).is_broken(),
    {
        if self.read_pos >= self.data.len() {
            proof {
                assert(self.data@.subrange(self.read_upto(), self.data@.len() as int)
                    =~= Seq::<u8>::empty());
            }
            return Vec::new();
        }
        let avail = self.data.len() - self.read_pos;
        let mut n = if max < avail {
            max
        } else {
            avail
        };
        if self.chunk < n {
            n = self.chunk;
        }
        let mut out: Vec<u8> = Vec::new();
        let start = self.read_pos;
        let dlen = self.data.len();
        while out.len() < n
            invariant
                out@.len() <= n <= avail,
                avail == self.data@.len() - start,
                start < self.data@.len() == dlen,
                start == self.read_pos,
                out@ == self.data@.subrange(start as int, start + out@.len()),
            decreases n - out@.len(),
        {
            let i = out.len();
            out.push(self.data[start + i]);
            proof {
                assert(self.data@.subrange(start as int, start + i + 1) =~= self.data@.subrange(
                    start as int,
                    start + i,
                ).push(self.data@[start + i]));
            }
        }
        self.read_pos = start + n;
        proof {
            assert(self.data@.subrange(0, start + n) =~= self.data@.subrange(0, start as int)
                + out@);
            assert(self.data@.subrange(start as int, dlen as int) =~= out@ + self.data@.subrange(
                start + n,
                dlen as int,
            ));
        }
        out
    }
}

impl DuplexStream for MemoryStream {
    closed spec fn sent(&self) -> Seq<u8> {
        self.data@
    }

    closed spec fn received(&self) -> Seq<u8> {
        self.data@.subrange(0, self.read_upto())
    }

    closed spec fn pending(&self) -> Seq<u8> {
        self.data@.subrange(self.read_upto(), self.data@.len() as int)
    }

    closed spec fn live(&self) -> bool {
        !self.broken && self.chunk > 0
    }

    fn write_some(&mut self, data: &[u8]) -> (r: Option<usize>) {
        if self.broken {
            return None;
        }
        Some(self.write_bytes(data))
    }

    fn read_some(&mut self, max: usize) -> (r: Option<Vec<u8>>) {
        if self.broken {
            return None;
        }
        Some(self.read_bytes(max))
    }

    fn flush(&mut self) -> (r: bool) {
        !self.broken
    }
}

impl ByteChannel for MemoryStream {
    fn channel_write(&mut self, data: &[u8]) -> (r: Option<usize>) {
        self.write_some(data)
    }

    fn channel_read(&mut self, max: usize) -> (r: Option<Vec<u8>>) {
        self.read_some(max)
    }

    fn channel_flush(&mut self) -> (r: bool) {
        self.flush()
    }
}

/// A memory stream is a loopback: what was sent is what was received
/// followed by what is pending.
pub proof fn lemma_loopback(s: MemoryStream)
    ensures
        s.sent() == s.received() + s.pending(),
{
    assert(s.sent() =~= s.received() + s.pending());
}

/// Bytes sent over a memory stream while nothing is pending come out of it
/// unchanged and in order, however the sends and the receives are framed:
/// once as many bytes have been received as were sent, they are exactly the
/// bytes sent, and nothing is left pending.
pub proof fn lemma_round_trip(before: MemoryStream, after: MemoryStream, b: Seq<u8>, v: Seq<u8>)
    requires
        before.pending().len() == 0,
        after.sent() == before.sent() + b,
        after.received() == before.received() + v,
        v.len() == b.len(),
    ensures
        v == b,
        after.pending().len() == 0,
{
    lemma_loopback(before);
    lemma_loopback(after);
    assert(before.received() =~= before.sent());
    assert forall|i: int| 0 <= i < v.len() implies v[i] == b[i] by {
        assert(after.sent()[before.sent().len() + i] == b[i]);
        assert(after.sent()[before.sent().len() + i] == (after.received() + after.pending())[
            before.sent().len() + i]);
    }
    assert(v =~= b);
}

/// Two sessions run one after the other over the same memory stream do not
/// mix: if in each the peer receives as many bytes as were sent, it
/// receives exactly the bytes sent in that session.
pub proof fn lemma_sessions_do_not_mix(
    start: MemoryStream,
    middle: MemoryStream,
    end: MemoryStream,
    b1: Seq<u8>,
    v1: Seq<u8>,
    b2: Seq<u8>,
    v2: Seq<u8>,
)
    requires
        start.pending().len() == 0,
        middle.sent() == start.sent() + b1,
        middle.received() == start.received() + v1,
        v1.len() == b1.len(),
        end.sent() == middle.sent() + b2,
        end.received() == middle.received() + v2,
        v2.len() == b2.len(),
    ensures
        v1 == b1,
        v2 == b2,
{
    lemma_round_trip(start, middle, b1, v1);
    lemma_round_trip(middle, end, b2, v2);
}

} // verus!
