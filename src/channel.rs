use vstd::prelude::*;
use crate::transport::DuplexStream;

verus! {

/// A byte channel as plain reads and writes: a socket, a pipe, anything
/// with `Read` and `Write`. A call may move fewer bytes than asked for.
pub trait ByteChannel {
    /// Writes a prefix of `data` and says how many bytes it took; `None` is
    /// an error.
    fn channel_write(&mut self, data: &[u8]) -> (r: Option<usize>)
        ensures
            r matches Some(n) ==> n <= data@.len(),
    ;

    /// Reads at most `max` bytes; an empty vector is the end of the stream
    /// and `None` an error.
    fn channel_read(&mut self, max: usize) -> (r: Option<Vec<u8>>)
        ensures
            r matches Some(v) ==> v@.len() <= max,
    ;

    /// Pushes out anything buffered; `true` on success.
    fn channel_flush(&mut self) -> (r: bool);
}

/// A `ByteChannel` seen as a `DuplexStream`. Its record of the bytes sent
/// and received is what the channel reported moving. Such a channel may
/// fail at any time, so it is never live, and what it holds pending is not
/// known.
pub struct Channel<C> {
    inner: C,
    sent_log: Ghost<Seq<u8>>,
    received_log: Ghost<Seq<u8>>,
}

impl<C> Channel<C> {
    /// The channel itself.
    pub closed spec fn inner_spec(&self) -> C {
        self.inner
    }

    /// Wraps `inner`; nothing has been moved through it yet.
    pub fn new(inner: C) -> (r: Self)
        ensures
            r.inner_spec() == inner,
    {
        Channel { inner, sent_log: Ghost(Seq::empty()), received_log: Ghost(Seq::empty()) }
    }

    /// The channel itself.
    pub fn inner(&self) -> (r: &C)
        ensures
            *r == self.inner_spec(),
    {
        &self.inner
    }

    /// Hands the channel back.
    pub fn into_inner(self) -> (r: C)
        ensures
            r == self.inner_spec(),
    {
        self.inner
    }
}

impl<C: ByteChannel> DuplexStream for Channel<C> {
    closed spec fn sent(&self) -> Seq<u8> {
        self.sent_log@
    }

    closed spec fn received(&self) -> Seq<u8> {
        self.received_log@
    }

    closed spec fn pending(&self) -> Seq<u8> {
        Seq::empty()
    }

    closed spec fn live(&self) -> bool {
        false
    }

    fn write_some(&mut self, data: &[u8]) -> (r: Option<usize>) {
        let r = self.inner.channel_write(data);
        if let Some(n) = r {
            self.sent_log = Ghost(self.sent_log@ + data@.subrange(0, n as int));
        }
        r
    }

    fn read_some(&mut self, max: usize) -> (r: Option<Vec<u8>>) {
        let r = self.inner.channel_read(max);
        match &r {
            Some(v) => {
                self.received_log = Ghost(self.received_log@ + v@);
            },
            None => {},
        }
        r
    }

    fn flush(&mut self) -> (r: bool) {
        self.inner.channel_flush()
    }
}

} // verus!
