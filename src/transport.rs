use vstd::prelude::*;
use vstd::slice::slice_subrange;

verus! {

/// Status the engine's transport callbacks return on any failure of the
/// underlying stream.
pub const TRANSPORT_FAILURE: i32 = -1;

/// Number of parties a stream transport serves.
pub const MAX_PARTIES: i32 = 2;

/// A duplex byte channel that a protocol session can run over.
///
/// A stream is described by the bytes it has taken for sending and the bytes
/// read from it, each in order; by `pending`, the bytes a read can return
/// next; and by `live`, which promises that calls neither fail nor stall:
/// a write of a non-empty buffer takes at least one byte, and a read returns
/// the next pending bytes, at least one while any are pending. For a stream
/// that is not live, what is pending is not known.
pub trait DuplexStream {
    /// Every byte the stream has taken for sending, in order.
    spec fn sent(&self) -> Seq<u8>;

    /// Every byte read from the stream, in order.
    spec fn received(&self) -> Seq<u8>;

    /// The bytes a read can return next, in order.
    spec fn pending(&self) -> Seq<u8>;

    /// Calls on the stream neither fail nor stall.
    spec fn live(&self) -> bool;

    /// Writes a prefix of `data`. `Some(n)` means the first `n` bytes were
    /// taken; `Some(0)` means the stream can take no more; `None` is an
    /// error.
    fn write_some(&mut self, data: &[u8]) -> (r: Option<usize>)
        ensures
            r matches Some(n) ==> n <= data@.len() && final(self).sent() == old(self).sent()
                + data@.subrange(0, n as int),
            final(self).received() == old(self).received(),
            final(self).live() == old(self).live(),
            old(self).live() && data@.len() > 0 ==> (r matches Some(n) && n > 0),
    ;

    /// Reads at most `max` bytes. `Some` of an empty vector means the end of
    /// the stream was reached; `None` is an error.
    fn read_some(&mut self, max: usize) -> (r: Option<Vec<u8>>)
        ensures
            r matches Some(v) ==> v@.len() <= max && final(self).received() == old(self).received() + v@,
            final(self).sent() == old(self).sent(),
            final(self).live() == old(self).live(),
            old(self).live() ==> (r matches Some(v) && old(self).pending() == v@ + final(self).pending() && (max > 0 && old(self).pending().len() > 0 ==> v@.len() > 0)),
    ;

    /// Pushes out anything the stream buffers. `true` on success. Moves no
    /// byte in or out.
    fn flush(&mut self) -> (r: bool)
        ensures
            final(self).sent() == old(self).sent(),
            final(self).received() == old(self).received(),
            final(self).pending() == old(self).pending(),
            final(self).live() == old(self).live(),
            old(self).live() ==> r,
    ;
}

/// After `done` of `len` bytes were sent, a write of the rest reported `w`:
/// the number of bytes sent now, or `None` if the send has failed. An error,
/// a write that took nothing, or one that claims more than the rest all
/// fail.
pub fn after_write(done: usize, len: usize, w: Option<usize>) -> (r: Option<usize>)
    requires
        done < len,
    ensures
        r == (match w {
            Some(n) => if 0 < n && n <= len - done {
                Some((done + n) as usize)
            } else {
                None::<usize>
            },
            None => None::<usize>,
        }),
{
    match w {
        Some(n) => {
            if 0 < n && n <= len - done {
                Some(done + n)
            } else {
                None
            }
        },
        None => None,
    }
}

/// After `have` of `len` bytes were received, a read reported `got` bytes
/// (`None` for an error): the number of bytes received now, or `None` if the
/// receive has failed. An error, the end of the stream, or more bytes than
/// were asked for all fail.
pub fn after_read(have: usize, len: usize, got: Option<usize>) -> (r: Option<usize>)
    requires
        have < len,
    ensures
        r == (match got {
            Some(n) => if 0 < n && n <= len - have {
                Some((have + n) as usize)
            } else {
                None::<usize>
            },
            None => None::<usize>,
        }),
{
    match got {
        Some(n) => {
            if 0 < n && n <= len - have {
                Some(have + n)
            } else {
                None
            }
        },
        None => None,
    }
}

/// The status of a flush that succeeded (`ok`) or not.
pub fn flush_status(ok: bool) -> (r: i32)
    ensures
        r == (if ok {
            0
        } else {
            TRANSPORT_FAILURE
        }),
{
    if ok {
        0
    } else {
        TRANSPORT_FAILURE
    }
}

/// The engine's transport, driven over a caller's stream.
///
/// Every transfer is all or nothing: `send` reports success only once the
/// stream has taken the whole buffer, and `recv` only once exactly the
/// requested number of bytes has been read from it. Splitting the transport
/// for more parties is not offered.
pub struct StreamProtocolTransport<S> {
    stream: S,
}

impl<S: DuplexStream> StreamProtocolTransport<S> {
    /// The stream the transport drives.
    pub closed spec fn stream_spec(&self) -> S {
        self.stream
    }

    /// Wraps `stream`; the transport owns it until `cleanup`.
    pub fn new(stream: S) -> (r: Self)
        ensures
            r.stream_spec() == stream,
    {
        StreamProtocolTransport { stream }
    }

    /// The stream the transport drives.
    pub fn stream(&self) -> (r: &S)
        ensures
            *r == self.stream_spec(),
    {
        &self.stream
    }

    /// The number of parties this transport serves.
    pub fn max_parties(&self) -> (r: i32)
        ensures
            r == MAX_PARTIES,
    {
        MAX_PARTIES
    }

    /// Sends all of `data` to the peer, handing the stream the unsent rest
    /// until it has taken everything. Returns the length of `data`, or
    /// `TRANSPORT_FAILURE` as soon as a write fails (see `after_write`).
    /// Over a live stream it always succeeds.
    pub fn send(&mut self, _party: i32, data: &[u8]) -> (r: i32)
        requires
            data@.len() <= i32::MAX,
        ensures
            r == data@.len() || r == TRANSPORT_FAILURE,
            r == data@.len() ==> final(self).stream_spec().sent() == old(self).stream_spec().sent()
                + data@,
            final(self).stream_spec().received() == old(self).stream_spec().received(),
            final(self).stream_spec().live() == old(self).stream_spec().live(),
            old(self).stream_spec().live() ==> r == data@.len(),
            data@.len() == 0 ==> r == 0 && *final(self) == *old(self),
    {
        let len = data.len();
        let mut done: usize = 0;
        while done < len
            invariant
                done <= len == data@.len(),
                self.stream.sent() == old(self).stream.sent() + data@.subrange(0, done as int),
                self.stream.received() == old(self).stream.received(),
                self.stream.live() == old(self).stream.live(),
                len == 0 ==> *self == *old(self),
            decreases len - done,
        {
            let rest = slice_subrange(data, done, len);
            let w = self.stream.write_some(rest);
            match after_write(done, len, w) {
                Some(now) => {
                    proof {
                        let n = (now - done) as int;
                        assert(data@.subrange(0, done as int) + rest@.subrange(0, n)
                            =~= data@.subrange(0, now as int));
                    }
                    done = now;
                },
                None => {
                    return TRANSPORT_FAILURE;
                },
            }
        }
        proof {
            assert(data@.subrange(0, len as int) =~= data@);
        }
        len as i32
    }

    /// Receives exactly `len` bytes into `buf`, replacing what it held,
    /// asking the stream each time for no more than the bytes still missing.
    /// Returns `len`, or `TRANSPORT_FAILURE` as soon as a read fails or the
    /// stream ends (see `after_read`). Over a live stream it succeeds exactly
    /// when `len` bytes are pending, and takes just those.
    pub fn recv(&mut self, _party: i32, buf: &mut Vec<u8>, len: usize) -> (r: i32)
        requires
            len <= i32::MAX,
        ensures
            r == len || r == TRANSPORT_FAILURE,
            r == len ==> final(buf)@.len() == len && final(self).stream_spec().received() == old(self).stream_spec().received() + final(buf)@,
            final(self).stream_spec().sent() == old(self).stream_spec().sent(),
            final(self).stream_spec().live() == old(self).stream_spec().live(),
            old(self).stream_spec().live() ==> (r == len <==> old(self).stream_spec().pending().len() >= len),
            old(self).stream_spec().live() && r == len ==> old(self).stream_spec().pending()
                == final(buf)@ + final(self).stream_spec().pending(),
            len == 0 ==> r == 0 && final(buf)@.len() == 0 && *final(self) == *old(self),
    {
        buf.clear();
        while buf.len() < len
            invariant
                buf@.len() <= len,
                self.stream.received() == old(self).stream.received() + buf@,
                self.stream.sent() == old(self).stream.sent(),
                self.stream.live() == old(self).stream.live(),
                self.stream.live() ==> old(self).stream.pending() == buf@
                    + self.stream.pending(),
                len == 0 ==> *self == *old(self),
            decreases len - buf@.len(),
        {
            let have = buf.len();
            let want = len - have;
            let got = self.stream.read_some(want);
            let count = match &got {
                Some(v) => Some(v.len()),
                None => None,
            };
            match after_read(have, len, count) {
                Some(_) => {
                    let chunk = match got {
                        Some(v) => v,
                        None => {
                            return TRANSPORT_FAILURE;
                        },
                    };
                    let ghost before = buf@;
                    let mut k: usize = 0;
                    while k < chunk.len()
                        invariant
                            k <= chunk@.len() <= want,
                            want == len - before.len(),
                            buf@ == before + chunk@.subrange(0, k as int),
                        decreases chunk@.len() - k,
                    {
                        buf.push(chunk[k]);
                        proof {
                            assert(before + chunk@.subrange(0, k + 1) =~= (before
                                + chunk@.subrange(0, k as int)).push(chunk@[k as int]));
                        }
                        k = k + 1;
                    }
                    proof {
                        assert(chunk@.subrange(0, k as int) =~= chunk@);
                        assert(self.stream.received() =~= old(self).stream.received() + buf@);
                        if self.stream.live() {
                            assert(old(self).stream.pending() =~= buf@ + self.stream.pending());
                        }
                    }
                },
                None => {
                    return TRANSPORT_FAILURE;
                },
            }
        }
        len as i32
    }

    /// Flushes the stream. Returns 0 if the stream's flush succeeded and
    /// `TRANSPORT_FAILURE` if it failed (see `flush_status`); no byte moves.
    pub fn flush(&mut self) -> (r: i32)
        ensures
            r == 0 || r == TRANSPORT_FAILURE,
            final(self).stream_spec().sent() == old(self).stream_spec().sent(),
            final(self).stream_spec().received() == old(self).stream_spec().received(),
            final(self).stream_spec().pending() == old(self).stream_spec().pending(),
            final(self).stream_spec().live() == old(self).stream_spec().live(),
            old(self).stream_spec().live() ==> r == 0,
    {
        let ok = self.stream.flush();
        flush_status(ok)
    }

    /// Ends the transport and hands the stream back to its owner.
    pub fn cleanup(self) -> (r: S)
        ensures
            r == self.stream_spec(),
    {
        self.stream
    }
}

} // verus!
