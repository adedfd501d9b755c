//! The byte-stream transport under the client: a capability trait whose
//! model records the byte strings delivered to the device, an in-memory
//! loopback for tests, and the real serial-port transport.

use vstd::prelude::*;

use crate::responses::TransportError;

verus! {

/// A duplex byte-stream transport with blocking reads and a configured
/// timeout.  `sent()` models the byte strings fully delivered to the device,
/// in order; what reads return is the device's to choose, so the read
/// methods promise nothing about their data.
pub trait Transport: Sized {
    /// The byte strings delivered so far, in order.
    spec fn sent(&self) -> Seq<Seq<u8>>;

    /// Writes one byte string; on success it counts as delivered, on failure
    /// it does not.
    fn write_bytes(&mut self, data: &Vec<u8>) -> (r: Result<(), TransportError>)
        ensures
            r is Ok ==> final(self).sent() == old(self).sent().push(data@),
            r is Err ==> final(self).sent() == old(self).sent(),
    ;

    /// Reads one line: bytes through a terminating newline, or what was
    /// available before the stream went idle.
    fn read_line(&mut self) -> (r: Result<Vec<u8>, TransportError>)
        ensures
            final(self).sent() == old(self).sent(),
    ;

    /// Reads exactly `n` bytes.
    fn read_exact(&mut self, n: usize) -> (r: Result<Vec<u8>, TransportError>)
        ensures
            final(self).sent() == old(self).sent(),
            r matches Ok(v) ==> v@.len() == n,
    ;

    /// Reads and discards buffered bytes until the stream goes idle; returns
    /// how many were discarded.  A read timeout ends the drain, it does not
    /// fail it: only other I/O faults surface.
    fn drain(&mut self) -> (r: Result<usize, TransportError>)
        ensures
            final(self).sent() == old(self).sent(),
            r matches Err(e) ==> !e.timed_out,
    ;
}

// ---------------------------------------------------------------------------
// In-memory transport
// ---------------------------------------------------------------------------

/// An in-memory transport: replies are scripted ahead of time, and every
/// write is recorded, so a test can check the exact command sequence a
/// client operation emits.
pub struct MemTransport {
    pub replies: Vec<Vec<u8>>,
    pub next_reply: usize,
    pub written: Vec<Vec<u8>>,
}

impl MemTransport {
    pub fn new() -> (r: MemTransport)
        ensures
            r.sent() == Seq::<Seq<u8>>::empty(),
            r.replies@.len() == 0,
            r.next_reply == 0,
    {
        let r = MemTransport { replies: Vec::new(), next_reply: 0, written: Vec::new() };
        proof {
            assert(r.sent() =~= Seq::<Seq<u8>>::empty());
        }
        r
    }

    /// Scripts one further reply line.
    pub fn queue_reply(&mut self, line: Vec<u8>)
        ensures
            final(self).sent() == old(self).sent(),
            final(self).replies@ == old(self).replies@.push(line),
            final(self).next_reply == old(self).next_reply,
    {
        self.replies.push(line);
    }

    /// How many writes were recorded.
    pub fn written_count(&self) -> (r: usize)
        ensures
            r == self.sent().len(),
    {
        self.written.len()
    }

    /// A copy of the `i`-th recorded write.
    pub fn written_at(&self, i: usize) -> (r: Vec<u8>)
        requires
            i < self.sent().len(),
        ensures
            r@ == self.sent()[i as int],
    {
        let r = self.written[i].clone();
        proof {
            assert(r@ =~= self.written@[i as int]@);
        }
        r
    }
}

impl Transport for MemTransport {
    open spec fn sent(&self) -> Seq<Seq<u8>> {
        self.written@.map_values(|v: Vec<u8>| v@)
    }

    fn write_bytes(&mut self, data: &Vec<u8>) -> (r: Result<(), TransportError>) {
        let copy = data.clone();
        proof {
            assert(copy@ =~= data@);
        }
        self.written.push(copy);
        proof {
            assert(self.sent() =~= old(self).sent().push(data@));
        }
        Ok(())
    }

    fn read_line(&mut self) -> (r: Result<Vec<u8>, TransportError>) {
        if self.next_reply < self.replies.len() {
            let line = self.replies[self.next_reply].clone();
            self.next_reply += 1;
            Ok(line)
        } else {
            Err(TransportError { timed_out: true })
        }
    }

    fn read_exact(&mut self, n: usize) -> (r: Result<Vec<u8>, TransportError>) {
        if self.next_reply < self.replies.len() {
            let chunk = self.replies[self.next_reply].clone();
            proof {
                assert(chunk@ =~= self.replies@[self.next_reply as int]@);
            }
            if chunk.len() == n {
                self.next_reply += 1;
                Ok(chunk)
            } else {
                Err(TransportError { timed_out: true })
            }
        } else {
            Err(TransportError { timed_out: true })
        }
    }

    fn drain(&mut self) -> (r: Result<usize, TransportError>) {
        // the scripted replies model lines the device has yet to send, not
        // bytes already buffered, so a drain finds the stream idle
        Ok(0)
    }
}

// ---------------------------------------------------------------------------
// Serial-port transport
// ---------------------------------------------------------------------------

#[verifier::external_type_specification]
#[verifier::external_body]
pub struct ExTTYPort(serialport::TTYPort);

/// Relies on `std::io::Read::read` as implemented by `serialport::TTYPort`:
/// one read call, blocking up to the port's configured timeout; `Ok(None)`
/// on end of stream, and a timeout surfaces as a timed-out fault.
#[verifier::external_body]
fn port_read_byte(port: &mut serialport::TTYPort) -> (r: Result<Option<u8>, TransportError>) {
    let mut buf = [0u8; 1];
    match std::io::Read::read(port, &mut buf) {
        Ok(0) => Ok(None),
        Ok(_) => Ok(Some(buf[0])),
        Err(e) => Err(TransportError { timed_out: e.kind() == std::io::ErrorKind::TimedOut }),
    }
}

/// Relies on `std::io::Write::write_all` as implemented by
/// `serialport::TTYPort`: on `Ok` the whole buffer was handed to the device.
#[verifier::external_body]
fn port_write_all(port: &mut serialport::TTYPort, data: &Vec<u8>) -> (r: Result<
    (),
    TransportError,
>) {
    match std::io::Write::write_all(port, data.as_slice()) {
        Ok(()) => Ok(()),
        Err(e) => Err(TransportError { timed_out: e.kind() == std::io::ErrorKind::TimedOut }),
    }
}

/// Longest line the serial transport will assemble before handing back what
/// it has; a line this long cannot be a well-formed reply anyway.
pub const MAX_LINE_LEN: usize = 4096;

/// Most bytes one drain will discard.
pub const MAX_DRAIN_LEN: usize = 1048576;

/// The real serial-port transport.  The ghost log carries the model of the
/// delivered byte strings; a write that fails mid-way counts as not
/// delivered.
pub struct SerialTransport {
    pub port: serialport::TTYPort,
    pub log: Ghost<Seq<Seq<u8>>>,
}

impl SerialTransport {
    /// Wraps an already-opened serial port.
    pub fn new(port: serialport::TTYPort) -> (r: SerialTransport)
        ensures
            r.sent() == Seq::<Seq<u8>>::empty(),
    {
        SerialTransport { port, log: Ghost(Seq::empty()) }
    }
}

impl Transport for SerialTransport {
    open spec fn sent(&self) -> Seq<Seq<u8>> {
        self.log@
    }

    fn write_bytes(&mut self, data: &Vec<u8>) -> (r: Result<(), TransportError>) {
        match port_write_all(&mut self.port, data) {
            Ok(()) => {
                self.log = Ghost(self.log@.push(data@));
                Ok(())
            },
            Err(e) => Err(e),
        }
    }

    #[verifier::loop_isolation(false)]
    fn read_line(&mut self) -> (r: Result<Vec<u8>, TransportError>) {
        let ghost l0 = self.log@;
        let mut line: Vec<u8> = Vec::new();
        let mut i: usize = 0;
        while i < MAX_LINE_LEN
            invariant
                self.log@ == l0,
            decreases MAX_LINE_LEN - i,
        {
            match port_read_byte(&mut self.port) {
                Ok(Some(b)) => {
                    line.push(b);
                    if b == 10 {
                        return Ok(line);
                    }
                },
                Ok(None) => {
                    return Ok(line);
                },
                Err(e) => {
                    return Err(e);
                },
            }
            i += 1;
        }
        Ok(line)
    }

    #[verifier::loop_isolation(false)]
    fn read_exact(&mut self, n: usize) -> (r: Result<Vec<u8>, TransportError>) {
        let ghost l0 = self.log@;
        let mut buf: Vec<u8> = Vec::new();
        while buf.len() < n
            invariant
                self.log@ == l0,
                buf@.len() <= n,
            decreases n - buf@.len(),
        {
            match port_read_byte(&mut self.port) {
                Ok(Some(b)) => {
                    buf.push(b);
                },
                Ok(None) => {
                    return Err(TransportError { timed_out: false });
                },
                Err(e) => {
                    return Err(e);
                },
            }
        }
        Ok(buf)
    }

    #[verifier::loop_isolation(false)]
    fn drain(&mut self) -> (r: Result<usize, TransportError>) {
        let ghost l0 = self.log@;
        let mut count: usize = 0;
        while count < MAX_DRAIN_LEN
            invariant
                self.log@ == l0,
            decreases MAX_DRAIN_LEN - count,
        {
            match port_read_byte(&mut self.port) {
                Ok(Some(_)) => {
                    count += 1;
                },
                Ok(None) => {
                    return Ok(count);
                },
                Err(e) => {
                    if e.timed_out {
                        return Ok(count);
                    } else {
                        return Err(e);
                    }
                },
            }
        }
        Ok(count)
    }
}

} // verus!
