//! The transmission schedule of one animation: lead-in frames once, loop
//! frames until a stop is requested, then lead-out frames once. The caller
//! sends the frame that [`TransmitterState::current`] names, sleeps one frame
//! interval, and reports with [`TransmitterState::advance`] whether a stop was
//! requested.
use vstd::prelude::*;
use crate::animation::Animation;

verus! {

/// The part of an animation that a transmitter is in.
#[derive(Clone, Copy, Debug, PartialEq, Eq, Structural)]
pub enum Segment {
    LeadIn,
    Loop,
    LeadOut,
    Done,
}

/// Where a transmitter stands, and the sequence number of the next frame.
#[derive(Clone, Copy, Debug, PartialEq, Eq, Structural)]
pub struct TransmitterState {
    pub segment: Segment,
    pub index: usize,
    pub sequence: u8,
}

/// Numbers of frames of the three parts of an animation.
#[derive(Clone, Copy, Debug, PartialEq, Eq, Structural)]
pub struct SegmentLengths {
    pub lead_in: usize,
    pub frames_loop: usize,
    pub lead_out: usize,
}

/// The sequence number after `v`, wrapping from 255 to 0.
pub open spec fn next_sequence(v: u8) -> u8 {
    ((v + 1) % 256) as u8
}

/// The sequence number after `n` frames starting from `v`.
pub open spec fn sequence_after(v: u8, n: nat) -> u8
    decreases n,
{
    if n == 0 {
        v
    } else {
        next_sequence(sequence_after(v, (n - 1) as nat))
    }
}

/// The lead-out if there is one, else the end.
pub open spec fn enter_lead_out(l: SegmentLengths, sequence: u8) -> TransmitterState {
    if l.lead_out > 0 {
        TransmitterState { segment: Segment::LeadOut, index: 0, sequence }
    } else {
        TransmitterState { segment: Segment::Done, index: 0, sequence }
    }
}

/// The loop unless a stop was requested or it is empty, else the lead-out.
pub open spec fn enter_loop(l: SegmentLengths, stop: bool, sequence: u8) -> TransmitterState {
    if !stop && l.frames_loop > 0 {
        TransmitterState { segment: Segment::Loop, index: 0, sequence }
    } else {
        enter_lead_out(l, sequence)
    }
}

/// The state in which a transmitter starts.
pub open spec fn start_state(l: SegmentLengths, stop: bool) -> TransmitterState {
    if l.lead_in > 0 {
        TransmitterState { segment: Segment::LeadIn, index: 0, sequence: 0 }
    } else {
        enter_loop(l, stop, 0)
    }
}

/// The state after the current frame of `s` was sent, where `stop` tells
/// whether a stop was requested by then.
pub open spec fn step(s: TransmitterState, l: SegmentLengths, stop: bool) -> TransmitterState {
    let seq = next_sequence(s.sequence);
    match s.segment {
        Segment::LeadIn => if s.index + 1 < l.lead_in {
            TransmitterState { segment: Segment::LeadIn, index: (s.index + 1) as usize, sequence: seq }
        } else {
            enter_loop(l, stop, seq)
        },
        Segment::Loop => if stop {
            enter_lead_out(l, seq)
        } else {
            TransmitterState {
                segment: Segment::Loop,
                index: ((s.index + 1) % (l.frames_loop as int)) as usize,
                sequence: seq,
            }
        },
        Segment::LeadOut => if s.index + 1 < l.lead_out {
            TransmitterState { segment: Segment::LeadOut, index: (s.index + 1) as usize, sequence: seq }
        } else {
            TransmitterState { segment: Segment::Done, index: 0, sequence: seq }
        },
        Segment::Done => s,
    }
}

/// The state after one frame per entry of `stops` was sent.
pub open spec fn run(s: TransmitterState, l: SegmentLengths, stops: Seq<bool>) -> TransmitterState
    decreases stops.len(),
{
    if stops.len() == 0 {
        s
    } else {
        step(run(s, l, stops.drop_last()), l, stops.last())
    }
}

impl TransmitterState {
    /// The index names a frame of the segment.
    pub open spec fn wf(&self, l: SegmentLengths) -> bool {
        match self.segment {
            Segment::LeadIn => self.index < l.lead_in,
            Segment::Loop => self.index < l.frames_loop,
            Segment::LeadOut => self.index < l.lead_out,
            Segment::Done => true,
        }
    }

    /// The state of a new transmitter; `stop` tells whether a stop is already
    /// requested, which skips the loop.
    pub fn start(l: SegmentLengths, stop: bool) -> (r: Self)
        ensures
            r == start_state(l, stop),
            r.wf(l),
    {
        if l.lead_in > 0 {
            TransmitterState { segment: Segment::LeadIn, index: 0, sequence: 0 }
        } else {
            Self::enter_loop(l, stop, 0)
        }
    }

    fn enter_lead_out(l: SegmentLengths, sequence: u8) -> (r: Self)
        ensures
            r == enter_lead_out(l, sequence),
            r.wf(l),
    {
        if l.lead_out > 0 {
            TransmitterState { segment: Segment::LeadOut, index: 0, sequence }
        } else {
            TransmitterState { segment: Segment::Done, index: 0, sequence }
        }
    }

    fn enter_loop(l: SegmentLengths, stop: bool, sequence: u8) -> (r: Self)
        ensures
            r == enter_loop(l, stop, sequence),
            r.wf(l),
    {
        if !stop && l.frames_loop > 0 {
            TransmitterState { segment: Segment::Loop, index: 0, sequence }
        } else {
            Self::enter_lead_out(l, sequence)
        }
    }

    /// The frame to send now, as a segment and an index, or `None` once done.
    pub fn current(&self) -> (r: Option<(Segment, usize)>)
        ensures
            self.segment is Done <==> r is None,
            r matches Some(p) ==> p == (self.segment, self.index),
    {
        match self.segment {
            Segment::Done => None,
            _ => Some((self.segment, self.index)),
        }
    }

    /// Moves past the frame just sent; the sequence number goes up by one,
    /// wrapping at 256.
    pub fn advance(&mut self, l: SegmentLengths, stop: bool)
        requires
            old(self).wf(l),
        ensures
            *final(self) == step(*old(self), l, stop),
            final(self).wf(l),
            !(old(self).segment is Done) ==> final(self).sequence == next_sequence(old(self).sequence),
    {
        let seq = self.sequence.wrapping_add(1);
        assert(seq == next_sequence(old(self).sequence));
        let cur = *self;
        let next = match cur.segment {
            Segment::LeadIn => if cur.index + 1 < l.lead_in {
                TransmitterState { segment: Segment::LeadIn, index: cur.index + 1, sequence: seq }
            } else {
                Self::enter_loop(l, stop, seq)
            },
            Segment::Loop => if stop {
                Self::enter_lead_out(l, seq)
            } else {
                let i = if cur.index + 1 < l.frames_loop {
                    cur.index + 1
                } else {
                    0
                };
                assert(i as int == (cur.index + 1) % (l.frames_loop as int)) by (nonlinear_arith)
                    requires
                        cur.index < l.frames_loop,
                        cur.index + 1 < l.frames_loop ==> i == cur.index + 1,
                        cur.index + 1 >= l.frames_loop ==> i == 0,
                ;
                TransmitterState { segment: Segment::Loop, index: i, sequence: seq }
            },
            Segment::LeadOut => if cur.index + 1 < l.lead_out {
                TransmitterState { segment: Segment::LeadOut, index: cur.index + 1, sequence: seq }
            } else {
                TransmitterState { segment: Segment::Done, index: 0, sequence: seq }
            },
            Segment::Done => cur,
        };
        *self = next;
    }
}

/// The lengths of the lead-in, loop and lead-out of an animation.
pub fn segment_lengths(a: &Animation) -> (r: SegmentLengths)
    ensures
        r.frames_loop == a.frames_loop@.len(),
        r.lead_in == match a.frames_in {
            Some(f) => f@.len(),
            None => 0,
        },
        r.lead_out == match a.frames_out {
            Some(f) => f@.len(),
            None => 0,
        },
{
    let lead_in = match &a.frames_in {
        Some(f) => f.len(),
        None => 0,
    };
    let lead_out = match &a.frames_out {
        Some(f) => f.len(),
        None => 0,
    };
    SegmentLengths { lead_in, frames_loop: a.frames_loop.len(), lead_out }
}

/// Counting `n` frames from `v` lands on `(v + n) mod 256`.
pub proof fn lemma_sequence_after(v: u8, n: nat)
    ensures
        sequence_after(v, n) == (v + n) % 256,
    decreases n,
{
    if n > 0 {
        lemma_sequence_after(v, (n - 1) as nat);
    }
}

/// After 256 frames are sent, the sequence number is back where it started.
pub proof fn lemma_sequence_wraps(s: TransmitterState, l: SegmentLengths, stops: Seq<bool>)
    requires
        stops.len() == 256,
        forall|i: int|
            0 <= i < 256 ==> (#[trigger] run(s, l, stops.take(i))).segment != Segment::Done,
    ensures
        run(s, l, stops).sequence == s.sequence,
{
    assert forall|i: nat| i <= 256 implies run(s, l, stops.take(i as int)).sequence == sequence_after(
        s.sequence,
        i,
    ) by {
        lemma_run_counts(s, l, stops, i);
    }
    assert(stops.take(256) =~= stops);
    lemma_sequence_after(s.sequence, 256);
}

proof fn lemma_run_counts(s: TransmitterState, l: SegmentLengths, stops: Seq<bool>, i: nat)
    requires
        i <= stops.len(),
        forall|j: int|
            0 <= j < stops.len() ==> (#[trigger] run(s, l, stops.take(j))).segment != Segment::Done,
    ensures
        run(s, l, stops.take(i as int)).sequence == sequence_after(s.sequence, i),
    decreases i,
{
    if i > 0 {
        lemma_run_counts(s, l, stops, (i - 1) as nat);
        let prev = stops.take(i - 1);
        assert(stops.take(i as int).drop_last() =~= prev);
        assert(run(s, l, prev).segment != Segment::Done);
    }
}

} // verus!
