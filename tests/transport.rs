use oblivc::transport::{MAX_PARTIES, TRANSPORT_FAILURE};
use oblivc::{protocol_desc, ByteChannel, Channel, MemoryStream, StreamProtocolTransport};

#[test]
fn round_trip() {
    let (_pd, mut t) = protocol_desc().party(1).unwrap().use_stream(MemoryStream::new()).unwrap();
    let data = b"garbled gates".to_vec();
    assert_eq!(t.send(1, &data), data.len() as i32);
    let mut buf = Vec::new();
    assert_eq!(t.recv(2, &mut buf, data.len()), data.len() as i32);
    assert_eq!(buf, data);
}

#[test]
fn trickling_stream_delivers_everything() {
    let mut t = StreamProtocolTransport::new(MemoryStream::with_chunk(1));
    let data = vec![10u8, 20, 30, 40, 50];
    assert_eq!(t.send(1, &data), 5);
    assert_eq!(t.stream().written(), data);
    let mut buf = vec![9u8; 2];
    assert_eq!(t.recv(2, &mut buf, 5), 5);
    assert_eq!(buf, data);
    assert_eq!(t.stream().unread(), 0);
}

#[test]
fn closed_stream_send_fails() {
    let mut t = StreamProtocolTransport::new(MemoryStream::with_chunk(0));
    assert_eq!(t.send(1, b"abc"), TRANSPORT_FAILURE);
}

#[test]
fn short_read_fails() {
    let mut t = StreamProtocolTransport::new(MemoryStream::new());
    assert_eq!(t.send(1, b"abc"), 3);
    let mut buf = Vec::new();
    assert_eq!(t.recv(2, &mut buf, 5), TRANSPORT_FAILURE);
}

#[test]
fn empty_transfers() {
    let mut t = StreamProtocolTransport::new(MemoryStream::with_chunk(0));
    assert_eq!(t.send(1, b""), 0);
    let mut buf = vec![1u8];
    assert_eq!(t.recv(2, &mut buf, 0), 0);
    assert!(buf.is_empty());
}

#[test]
fn flush_and_parties() {
    let mut t = StreamProtocolTransport::new(MemoryStream::new());
    assert_eq!(t.flush(), 0);
    assert_eq!(t.max_parties(), 2);
    assert_eq!(MAX_PARTIES, 2);
}

#[test]
fn stream_reused_for_two_sessions() {
    let stream = MemoryStream::with_chunk(3);
    let (mut pd, mut t) = protocol_desc().party(1).unwrap().use_stream(stream).unwrap();
    assert_eq!(t.send(1, b"first session"), 13);
    let mut buf = Vec::new();
    assert_eq!(t.recv(2, &mut buf, 13), 13);
    assert_eq!(buf, b"first session".to_vec());
    pd.release();
    let stream = t.cleanup();
    assert_eq!(stream.unread(), 0);

    let (_pd, mut t) = protocol_desc().party(2).unwrap().use_stream(stream).unwrap();
    assert_eq!(t.send(2, b"second"), 6);
    let mut buf = Vec::new();
    assert_eq!(t.recv(1, &mut buf, 6), 6);
    assert_eq!(buf, b"second".to_vec());
}

/// A channel that moves one byte per call and records what it was given.
struct OneByte {
    out: Vec<u8>,
    input: Vec<u8>,
    calls: usize,
}

impl ByteChannel for OneByte {
    fn channel_write(&mut self, data: &[u8]) -> Option<usize> {
        self.calls += 1;
        match data.first() {
            Some(b) => {
                self.out.push(*b);
                Some(1)
            }
            None => Some(0),
        }
    }

    fn channel_read(&mut self, max: usize) -> Option<Vec<u8>> {
        self.calls += 1;
        if max == 0 || self.input.is_empty() {
            return Some(Vec::new());
        }
        Some(vec![self.input.remove(0)])
    }

    fn channel_flush(&mut self) -> bool {
        true
    }
}

/// A channel whose every call fails.
struct Failing;

impl ByteChannel for Failing {
    fn channel_write(&mut self, _data: &[u8]) -> Option<usize> {
        None
    }

    fn channel_read(&mut self, _max: usize) -> Option<Vec<u8>> {
        None
    }

    fn channel_flush(&mut self) -> bool {
        false
    }
}

/// A channel that takes nothing.
struct Stalled;

impl ByteChannel for Stalled {
    fn channel_write(&mut self, _data: &[u8]) -> Option<usize> {
        Some(0)
    }

    fn channel_read(&mut self, _max: usize) -> Option<Vec<u8>> {
        Some(Vec::new())
    }

    fn channel_flush(&mut self) -> bool {
        true
    }
}

#[test]
fn one_byte_per_call_send_is_whole() {
    let mut t = StreamProtocolTransport::new(Channel::new(OneByte { out: Vec::new(), input: Vec::new(), calls: 0 }));
    assert_eq!(t.send(1, b"10100"), 5);
    let s = t.cleanup().into_inner();
    assert_eq!(s.out, b"10100".to_vec());
    assert_eq!(s.calls, 5);
}

#[test]
fn one_byte_per_call_recv_is_whole() {
    let stream = Channel::new(OneByte { out: Vec::new(), input: b"10200xy".to_vec(), calls: 0 });
    let mut t = StreamProtocolTransport::new(stream);
    let mut buf = Vec::new();
    assert_eq!(t.recv(2, &mut buf, 5), 5);
    assert_eq!(buf, b"10200".to_vec());
    assert_eq!(t.stream().inner().calls, 5);
    assert_eq!(t.stream().inner().input, b"xy".to_vec());
}

#[test]
fn one_byte_per_call_short_input_fails() {
    let stream = Channel::new(OneByte { out: Vec::new(), input: b"ab".to_vec(), calls: 0 });
    let mut t = StreamProtocolTransport::new(stream);
    let mut buf = Vec::new();
    assert_eq!(t.recv(2, &mut buf, 3), TRANSPORT_FAILURE);
}

#[test]
fn failing_channel_fails_everything() {
    let mut t = StreamProtocolTransport::new(Channel::new(Failing));
    assert_eq!(t.send(1, b"x"), TRANSPORT_FAILURE);
    let mut buf = Vec::new();
    assert_eq!(t.recv(1, &mut buf, 1), TRANSPORT_FAILURE);
    assert_eq!(t.flush(), TRANSPORT_FAILURE);
}

#[test]
fn stalled_channel_fails() {
    let mut t = StreamProtocolTransport::new(Channel::new(Stalled));
    assert_eq!(t.send(1, b"x"), TRANSPORT_FAILURE);
    let mut buf = Vec::new();
    assert_eq!(t.recv(1, &mut buf, 1), TRANSPORT_FAILURE);
    assert_eq!(t.flush(), 0);
}

#[test]
fn broken_memory_stream_fails() {
    let mut t = StreamProtocolTransport::new(MemoryStream::broken());
    assert_eq!(t.send(1, b"abc"), TRANSPORT_FAILURE);
    let mut buf = Vec::new();
    assert_eq!(t.recv(1, &mut buf, 1), TRANSPORT_FAILURE);
    assert_eq!(t.flush(), TRANSPORT_FAILURE);
}

#[test]
fn framing_does_not_matter() {
    let mut t = StreamProtocolTransport::new(MemoryStream::with_chunk(2));
    assert_eq!(t.send(1, b"abc"), 3);
    assert_eq!(t.send(1, b"defg"), 4);
    let mut all = Vec::new();
    for n in [2usize, 4, 1] {
        let mut buf = Vec::new();
        assert_eq!(t.recv(2, &mut buf, n), n as i32);
        all.extend(buf);
    }
    assert_eq!(all, b"abcdefg".to_vec());
    assert_eq!(t.stream().unread(), 0);
}

#[test]
fn recv_leaves_later_bytes() {
    let mut t = StreamProtocolTransport::new(MemoryStream::new());
    assert_eq!(t.send(1, b"frame+next"), 10);
    let mut buf = Vec::new();
    assert_eq!(t.recv(2, &mut buf, 5), 5);
    assert_eq!(buf, b"frame".to_vec());
    assert_eq!(t.stream().unread(), 5);
}
