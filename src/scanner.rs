//! Synchronisation to the sensor's byte stream: finds the start marker and
//! collects the 32 bytes of one frame.
use vstd::prelude::*;
use crate::frame::{decoded, frame_valid, parse_sensor, FRAME_LEN, START_BYTE_1, START_BYTE_2};
use crate::measurement::{reported, Measurement};

verus! {

/// Number of frame bytes held after `b` arrives when `filled` were held.
/// A repeated first marker byte re-anchors the frame instead of dropping it.
pub open spec fn next_filled(filled: nat, b: u8) -> nat {
    if filled == 0 {
        if b == START_BYTE_1 { 1 } else { 0 }
    } else if filled == 1 {
        if b == START_BYTE_2 { 2 } else if b == START_BYTE_1 { 1 } else { 0 }
    } else if filled < 32 {
        filled + 1
    } else {
        filled
    }
}

/// The frame buffer after `b` arrives when `filled` bytes were held.
pub open spec fn next_buf(buf: Seq<u8>, filled: nat, b: u8) -> Seq<u8> {
    if filled == 0 {
        if b == START_BYTE_1 { buf.update(0, b) } else { buf }
    } else if filled == 1 {
        if b == START_BYTE_2 {
            buf.update(1, b)
        } else if b == START_BYTE_1 {
            buf.update(0, b)
        } else {
            buf
        }
    } else if filled < 32 {
        buf.update(filled as int, b)
    } else {
        buf
    }
}

/// The scanner state `(filled, buf)` after the bytes of `s`, in order,
/// starting from `(filled, buf)`.
pub open spec fn scan(filled: nat, buf: Seq<u8>, s: Seq<u8>) -> (nat, Seq<u8>)
    decreases s.len(),
{
    if s.len() == 0 {
        (filled, buf)
    } else {
        let (f, b) = scan(filled, buf, s.drop_last());
        (next_filled(f, s.last()), next_buf(b, f, s.last()))
    }
}

/// Where a single-frame read stands after one attempt to read a byte.
#[derive(Debug, Clone, Copy, PartialEq, Eq, Structural)]
pub enum FrameRead {
    /// More bytes are needed.
    Pending,
    /// The frame is complete: its measurement, or none when its checksum
    /// does not match.
    Done(Option<Measurement>),
    /// A byte could not be read: the read is abandoned with no result.
    Failed,
}

/// Collects one frame from a byte stream.
pub struct FrameScanner {
    buf: [u8; 32],
    filled: usize,
}

impl FrameScanner {
    /// Number of frame bytes held, the start marker included.
    pub closed spec fn filled(&self) -> nat {
        self.filled as nat
    }

    /// The frame buffer; its first `filled()` bytes are the frame so far.
    pub closed spec fn bytes(&self) -> Seq<u8> {
        self.buf@
    }

    /// At most a whole frame is held.
    pub closed spec fn wf(&self) -> bool {
        self.filled <= 32
    }

    /// A scanner that has not yet seen a start marker.
    pub fn new() -> (r: FrameScanner)
        ensures
            r.wf(),
            r.filled() == 0,
            r.bytes() == Seq::new(32, |i: int| 0u8),
    {
        let r = FrameScanner { buf: [0u8; 32], filled: 0 };
        assert(r.buf@ =~= Seq::new(32, |i: int| 0u8));
        r
    }

    /// Whether all 32 bytes of a frame are held.
    pub fn is_complete(&self) -> (r: bool)
        requires
            self.wf(),
        ensures
            r == (self.filled() == FRAME_LEN),
    {
        self.filled == FRAME_LEN
    }

    /// Takes the next byte of the stream; returns whether the frame is
    /// complete. A complete scanner ignores further bytes.
    pub fn feed(&mut self, b: u8) -> (complete: bool)
        requires
            old(self).wf(),
        ensures
            final(self).wf(),
            final(self).filled() == next_filled(old(self).filled(), b),
            final(self).bytes() == next_buf(old(self).bytes(), old(self).filled(), b),
            complete == (final(self).filled() == 32),
    {
        if self.filled == 0 {
            if b == START_BYTE_1 {
                self.buf[0] = b;
                self.filled = 1;
            }
        } else if self.filled == 1 {
            if b == START_BYTE_2 {
                self.buf[1] = b;
                self.filled = 2;
            } else if b == START_BYTE_1 {
                self.buf[0] = b;
            } else {
                self.filled = 0;
            }
        } else if self.filled < FRAME_LEN {
            self.buf[self.filled] = b;
            self.filled = self.filled + 1;
        }
        self.filled == FRAME_LEN
    }

    /// Takes the outcome of one byte read: a failed read abandons the frame,
    /// a byte is fed, and a completed frame is decoded.
    pub fn on_byte(&mut self, byte: Option<u8>) -> (r: FrameRead)
        requires
            old(self).wf(),
        ensures
            final(self).wf(),
            byte is None ==> r == FrameRead::Failed && *final(self) == *old(self),
            byte is Some ==> {
                &&& final(self).filled() == next_filled(old(self).filled(), byte.unwrap())
                &&& final(self).bytes() == next_buf(old(self).bytes(), old(self).filled(), byte.unwrap())
                &&& final(self).filled() == 32 ==> r == FrameRead::Done(
                    if frame_valid(final(self).bytes()) {
                        Some(reported(decoded(final(self).bytes())))
                    } else {
                        None::<Measurement>
                    },
                )
                &&& final(self).filled() < 32 ==> r == FrameRead::Pending
            },
    {
        match byte {
            None => FrameRead::Failed,
            Some(b) => {
                if self.feed(b) {
                    FrameRead::Done(self.measurement())
                } else {
                    FrameRead::Pending
                }
            },
        }
    }

    /// The held frame, whole or not.
    pub fn frame(&self) -> (r: [u8; 32])
        ensures
            r@ == self.bytes(),
    {
        self.buf
    }

    /// Decodes the collected frame: the atmospheric concentrations of a frame
    /// whose checksum matches, none otherwise and none while it is incomplete.
    pub fn measurement(&self) -> (r: Option<Measurement>)
        requires
            self.wf(),
        ensures
            r == (if self.filled() == 32 && frame_valid(self.bytes()) {
                Some(reported(decoded(self.bytes())))
            } else {
                None::<Measurement>
            }),
    {
        if self.filled != FRAME_LEN {
            return None;
        }
        match parse_sensor(&self.buf) {
            Some(p) => Some(Measurement::from(p)),
            None => None,
        }
    }
}

/// Runs a fresh scanner over `stream`: the frame it holds at the end when it
/// completed one, none otherwise. Bytes after a completed frame are ignored.
pub fn scan_frame(stream: &Vec<u8>) -> (r: Option<[u8; 32]>)
    ensures
        ({
            let (f, b) = scan(0, Seq::new(32, |i: int| 0u8), stream@);
            &&& r.is_some() <==> f == 32
            &&& r.is_some() ==> r.unwrap()@ == b
        }),
{
    let mut sc = FrameScanner::new();
    let mut i: usize = 0;
    while i < stream.len()
        invariant
            i <= stream@.len(),
            sc.wf(),
            (sc.filled(), sc.bytes()) == scan(0, Seq::new(32, |i: int| 0u8), stream@.take(i as int)),
        decreases stream@.len() - i,
    {
        assert(stream@.take(i as int + 1).drop_last() == stream@.take(i as int));
        sc.feed(stream[i]);
        i = i + 1;
    }
    assert(stream@.take(i as int) == stream@);
    if sc.is_complete() {
        Some(sc.frame())
    } else {
        None
    }
}

proof fn lemma_collect(filled: nat, buf: Seq<u8>, tail: Seq<u8>, j: nat)
    requires
        filled <= 1,
        buf.len() == 32,
        tail.len() == 30,
        j <= 30,
    ensures
        ({
            let (f, b) = scan(filled, buf, seq![START_BYTE_1, START_BYTE_1, START_BYTE_2] + tail.take(j as int));
            &&& f == 2 + j
            &&& b.len() == 32
            &&& b.take(2 + j as int) == seq![START_BYTE_1, START_BYTE_2] + tail.take(j as int)
        }),
    decreases j,
{
    let p3 = seq![START_BYTE_1, START_BYTE_1, START_BYTE_2];
    if j == 0 {
        let s = p3 + tail.take(0);
        assert(s == p3);
        assert(p3.drop_last().drop_last() =~= seq![START_BYTE_1]);
        assert(seq![START_BYTE_1].drop_last() =~= Seq::<u8>::empty());
        assert(p3.drop_last() =~= seq![START_BYTE_1, START_BYTE_1]);
        assert(scan(filled, buf, Seq::<u8>::empty()) == (filled, buf));
        assert(seq![START_BYTE_1].last() == START_BYTE_1);
        let (f1, b1) = scan(filled, buf, p3.drop_last().drop_last());
        assert(f1 == 1 && b1 == buf.update(0, START_BYTE_1));
        let (f2, b2) = scan(filled, buf, p3.drop_last());
        assert(f2 == 1 && b2 == buf.update(0, START_BYTE_1));
        let (f3, b3) = scan(filled, buf, p3);
        assert(f3 == 2);
        assert(b3.take(2) =~= seq![START_BYTE_1, START_BYTE_2] + tail.take(0));
    } else {
        lemma_collect(filled, buf, tail, (j - 1) as nat);
        let s = p3 + tail.take(j as int);
        assert(s.drop_last() == p3 + tail.take(j - 1));
        assert(s.last() == tail[j - 1]);
        let (f, b) = scan(filled, buf, s.drop_last());
        let (f2, b2) = scan(filled, buf, s);
        assert(b2 == b.update(f as int, tail[j - 1]));
        assert(tail.take(j as int) =~= tail.take(j - 1).push(tail[j - 1]));
        assert(b.take(1 + j as int) == seq![START_BYTE_1, START_BYTE_2] + tail.take(j - 1));
        assert forall|k: int| 0 <= k < 2 + j implies #[trigger] b2.take(2 + j as int)[k] == (
        seq![START_BYTE_1, START_BYTE_2] + tail.take(j as int))[k] by {
            if k < 1 + j {
                assert(b.take(1 + j as int)[k] == b[k]);
            }
        }
        assert(b2.take(2 + j as int) =~= seq![START_BYTE_1, START_BYTE_2] + tail.take(j as int));
    }
}

/// A spurious first marker byte just before a real marker does not lose the
/// frame: from a scanner that is not inside a frame, the bytes `0x42 0x42
/// 0x4D` followed by 30 more give the complete frame that starts at the
/// second `0x42`.
pub proof fn lemma_marker_resync(filled: nat, buf: Seq<u8>, tail: Seq<u8>)
    requires
        filled <= 1,
        buf.len() == 32,
        tail.len() == 30,
    ensures
        scan(filled, buf, seq![START_BYTE_1, START_BYTE_1, START_BYTE_2] + tail)
            == (32nat, seq![START_BYTE_2, START_BYTE_2].update(0, START_BYTE_1) + tail),
{
    lemma_collect(filled, buf, tail, 30);
    assert(tail.take(30) == tail);
    let (f, b) = scan(filled, buf, seq![START_BYTE_1, START_BYTE_1, START_BYTE_2] + tail);
    assert(b.take(32) == b);
    assert(seq![START_BYTE_2, START_BYTE_2].update(0, START_BYTE_1) =~= seq![START_BYTE_1, START_BYTE_2]);
}

} // verus!
