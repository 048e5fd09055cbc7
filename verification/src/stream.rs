//! Stream decoding: a fixed-capacity working buffer with explicit append,
//! compact and consume operations, and a session that drains monitor frames
//! from it, skipping malformed frames and advancing the session clock.

use vstd::prelude::*;
use crate::monitor;
use crate::tty;
use crate::tty::{FrameOutcome, DAY_US};

verus! {

/// Capacity of the working buffer.
pub const BUF_SIZE: usize = 2048;

/// Smallest buffered byte count worth a decode attempt: the two-byte length
/// prefix plus the four fixed frame-header bytes.
pub const MIN_LEN: usize = 6;

/// A fixed-capacity byte queue: bytes are appended at the tail, consumed at
/// the head, and the unconsumed region slides back to the front when the
/// tail runs out of room.
pub struct StreamBuffer {
    buf: Vec<u8>,
    offset: usize,
    len: usize,
}

impl StreamBuffer {
    /// The buffer holds its full capacity and the unconsumed region lies
    /// inside it.
    pub closed spec fn wf(&self) -> bool {
        self.buf@.len() == BUF_SIZE && self.offset + self.len <= BUF_SIZE
    }

    /// The unconsumed bytes.
    pub closed spec fn contents(&self) -> Seq<u8> {
        self.buf@.subrange(self.offset as int, self.offset + self.len)
    }

    /// Free space at the tail, where appended bytes go.
    pub closed spec fn tail_space(&self) -> int {
        BUF_SIZE - self.offset - self.len
    }

    /// An empty buffer.
    pub fn new() -> (r: StreamBuffer)
        ensures
            r.wf(),
            r.contents() == Seq::<u8>::empty(),
    {
        let r = StreamBuffer { buf: vec![0u8; BUF_SIZE], offset: 0, len: 0 };
        assert(r.contents() =~= Seq::<u8>::empty());
        r
    }

    /// Number of unconsumed bytes.
    pub fn len(&self) -> (r: usize)
        requires
            self.wf(),
        ensures
            r == self.contents().len(),
    {
        self.len
    }

    /// The unconsumed bytes, as a slice.
    pub fn bytes(&self) -> (r: &[u8])
        requires
            self.wf(),
        ensures
            r@ == self.contents(),
    {
        vstd::slice::slice_subrange(self.buf.as_slice(), self.offset, self.offset + self.len)
    }

    /// Slides the unconsumed region to the front of the buffer, freeing the
    /// whole remaining capacity at the tail. The contents are unchanged.
    pub fn compact(&mut self)
        requires
            old(self).wf(),
        ensures
            final(self).wf(),
            final(self).contents() == old(self).contents(),
            final(self).tail_space() == BUF_SIZE - old(self).contents().len(),
    {
        let ghost orig = self.contents();
        let mut j: usize = 0;
        while j < self.len
            invariant
                self.buf@.len() == BUF_SIZE,
                self.offset + self.len <= BUF_SIZE,
                self.offset == old(self).offset,
                self.len == old(self).len,
                orig == old(self).contents(),
                orig.len() == self.len,
                j <= self.len,
                forall|k: int| 0 <= k < j ==> self.buf@[k] == orig[k],
                forall|k: int| j <= k < self.len ==> self.buf@[self.offset + k] == orig[k],
            decreases self.len - j,
        {
            let v = self.buf[self.offset + j];
            self.buf[j] = v;
            j += 1;
        }
        self.offset = 0;
        assert(self.contents() =~= orig);
    }

    /// Appends as much of `chunk` as the capacity allows, compacting first
    /// when the tail lacks room, and reports how many bytes were taken:
    /// everything, unless that would overfill the buffer.
    pub fn append(&mut self, chunk: &[u8]) -> (taken: usize)
        requires
            old(self).wf(),
        ensures
            final(self).wf(),
            taken == if chunk@.len() <= BUF_SIZE - old(self).contents().len() {
                chunk@.len() as int
            } else {
                BUF_SIZE - old(self).contents().len()
            },
            final(self).contents() == old(self).contents() + chunk@.take(taken as int),
    {
        let n: usize = chunk.len();
        if n > BUF_SIZE - self.offset - self.len {
            self.compact();
        }
        let space = BUF_SIZE - self.offset - self.len;
        let taken = if n <= space {
            n
        } else {
            space
        };
        let ghost orig = self.contents();
        let base = self.offset + self.len;
        let mut i: usize = 0;
        while i < taken
            invariant
                self.buf@.len() == BUF_SIZE,
                self.offset + self.len <= BUF_SIZE,
                self.offset == old(self).offset || self.offset == 0,
                base == self.offset + self.len,
                base + taken <= BUF_SIZE,
                taken <= chunk@.len(),
                i <= taken,
                orig == self.buf@.subrange(self.offset as int, self.offset + self.len),
                forall|k: int| 0 <= k < i ==> self.buf@[base + k] == chunk@[k],
            decreases taken - i,
        {
            let v = *vstd::slice::slice_index_get(chunk, i);
            self.buf[base + i] = v;
            i += 1;
        }
        self.len = self.len + taken;
        assert(self.contents() =~= orig + chunk@.take(taken as int));
        taken
    }

    /// Discards the first `k` unconsumed bytes.
    pub fn consume(&mut self, k: usize)
        requires
            old(self).wf(),
            k <= old(self).contents().len(),
        ensures
            final(self).wf(),
            final(self).contents() == old(self).contents().skip(k as int),
    {
        self.offset = self.offset + k;
        self.len = self.len - k;
        assert(self.contents() =~= old(self).contents().skip(k as int));
    }

    /// Drops one leading NUL byte if present: tolerance for line noise on a
    /// serial link.
    pub fn strip_leading_nul(&mut self)
        requires
            old(self).wf(),
        ensures
            final(self).wf(),
            old(self).contents().len() > 0 && old(self).contents()[0] == 0
                ==> final(self).contents() == old(self).contents().skip(1),
            !(old(self).contents().len() > 0 && old(self).contents()[0] == 0)
                ==> final(self).contents() == old(self).contents(),
    {
        if self.len > 0 {
            let b = self.buf[self.offset];
            if b == 0 {
                self.offset = self.offset + 1;
                self.len = self.len - 1;
                assert(self.contents() =~= old(self).contents().skip(1));
            }
        }
    }
}

/// The session clock: microseconds since midnight, seeded at midnight and
/// advanced only by timestamp extension entries.
pub struct SessionClock {
    pub us: u64,
}

impl SessionClock {
    /// The clock stays within one day.
    pub open spec fn wf(&self) -> bool {
        self.us < DAY_US
    }
}

/// `a` is what remains of `b` after consuming some prefix.
pub open spec fn is_suffix_of(a: Seq<u8>, b: Seq<u8>) -> bool {
    exists|k: int| 0 <= k <= b.len() && a == b.skip(k)
}

/// Where decoding settles after resynchronization: complete but malformed
/// frames are skipped, each consuming exactly the bytes its decode attempt
/// covered, until the bytes start with a well-formed frame, form no complete
/// frame yet, or run below the decode threshold.
pub open spec fn skips_to(b: Seq<u8>) -> Seq<u8>
    decreases b.len(),
{
    if b.len() < MIN_LEN {
        b
    } else if !tty::frame_complete(b) {
        b
    } else if tty::frame_well_formed(b) {
        b
    } else {
        skips_to(b.skip(2 + tty::declared_len(b)))
    }
}

/// A decoding session: the working buffer and the session clock. Bytes go in
/// as they arrive; packets come out in arrival order.
pub struct Session {
    buf: StreamBuffer,
    clock: SessionClock,
}

impl Session {
    pub closed spec fn wf(&self) -> bool {
        self.buf.wf() && self.clock.wf()
    }

    /// The bytes buffered and not yet consumed by decoding.
    pub closed spec fn contents(&self) -> Seq<u8> {
        self.buf.contents()
    }

    /// The session clock, in microseconds since midnight.
    pub closed spec fn clock_us(&self) -> u64 {
        self.clock.us
    }

    /// A fresh session: empty buffer, clock at midnight.
    pub fn new() -> (r: Session)
        ensures
            r.wf(),
            r.contents() == Seq::<u8>::empty(),
            r.clock_us() == 0,
    {
        Session { buf: StreamBuffer::new(), clock: SessionClock { us: 0 } }
    }

    /// Feeds newly arrived bytes into the buffer (as many as fit), then
    /// drops one leading NUL byte if present. Reports how many bytes of
    /// `chunk` were taken.
    pub fn push_bytes(&mut self, chunk: &[u8]) -> (taken: usize)
        requires
            old(self).wf(),
        ensures
            final(self).wf(),
            final(self).clock_us() == old(self).clock_us(),
            taken == if chunk@.len() <= BUF_SIZE - old(self).contents().len() {
                chunk@.len() as int
            } else {
                BUF_SIZE - old(self).contents().len()
            },
            ({
                let fed = old(self).contents() + chunk@.take(taken as int);
                final(self).contents() == if fed.len() > 0 && fed[0] == 0 {
                    fed.skip(1)
                } else {
                    fed
                }
            }),
    {
        let taken = self.buf.append(chunk);
        self.buf.strip_leading_nul();
        taken
    }

    /// Decodes the next packet from the buffered bytes. Malformed frames are
    /// skipped, resuming right after the bytes their decode attempt
    /// consumed; already-consumed bytes are never revisited. `None` means
    /// the buffered bytes hold no complete frame: the caller should feed
    /// more bytes and retry from the same position.
    pub fn next_packet(&mut self) -> (r: Option<monitor::Packet>)
        requires
            old(self).wf(),
        ensures
            final(self).wf(),
            is_suffix_of(final(self).contents(), old(self).contents()),
            ({
                let s = skips_to(old(self).contents());
                &&& (r is Some <==> s.len() >= MIN_LEN && tty::frame_complete(s)
                    && tty::frame_well_formed(s))
                &&& (r matches Some(pkt) ==> {
                    &&& pkt.index == 0
                    &&& pkt.ts == (old(self).clock_us() + 100 * tty::ext_ticks(
                        tty::ext_region(s),
                        0,
                    )) as int % (DAY_US as int)
                    &&& pkt.ts == final(self).clock_us()
                    &&& monitor::dispatched(pkt.op, tty::frame_opcode(s), tty::frame_body(s))
                    &&& final(self).contents() == s.skip(2 + tty::declared_len(s))
                })
                &&& (r is None ==> final(self).contents() == s && final(self).clock_us() == old(
                    self,
                ).clock_us())
            }),
    {
        let ghost orig = self.contents();
        let ghost mut consumed: int = 0;
        loop
            invariant
                self.wf(),
                self.clock.us == old(self).clock_us(),
                0 <= consumed <= orig.len(),
                self.contents() == orig.skip(consumed),
                orig == old(self).contents(),
                skips_to(orig) == skips_to(self.contents()),
            decreases self.contents().len(),
        {
            if self.buf.len() < MIN_LEN {
                proof {
                    assert(self.contents() == orig.skip(consumed));
                }
                return None;
            }
            let data = self.buf.bytes();
            match tty::parse_data(data, self.clock.us) {
                FrameOutcome::Decoded(pkt, n) => {
                    proof {
                        assert(DAY_US as int > 0);
                    }
                    self.buf.consume(n);
                    self.clock = SessionClock { us: pkt.ts };
                    proof {
                        consumed = consumed + n;
                        assert(self.contents() =~= orig.skip(consumed));
                    }
                    return Some(pkt);
                },
                FrameOutcome::Incomplete => {
                    return None;
                },
                FrameOutcome::Malformed(n) => {
                    self.buf.consume(n);
                    proof {
                        consumed = consumed + n;
                        assert(self.contents() =~= orig.skip(consumed));
                    }
                },
            }
        }
    }
}

} // verus!
