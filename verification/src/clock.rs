//! The frame clock: converts elapsed wall-clock time into a CPU cycle
//! budget and decides which of the two per-frame hardware interrupts to
//! inject. Time is carried as nanoseconds on a monotonic clock supplied by
//! the caller; the clock itself never reads the host's time.
//!
//! Interrupt pacing: the end-of-draw interrupt (vector 1) fires once a full
//! frame has elapsed since it last fired; the mid-screen interrupt (vector
//! 2) fires once half a frame has elapsed since the last end-of-draw
//! interrupt, at most once per frame. This is the strict policy that
//! guarantees at most one interrupt per call and one of each kind per
//! frame, rather than free-running timestamps for both kinds.

use vstd::prelude::*;

verus! {

/// One video frame at the cabinet's refresh rate, in nanoseconds.
pub const FRAME_DURATION_NS: u64 = 16666667;

/// Half a video frame, in nanoseconds.
pub const HALF_FRAME_DURATION_NS: u64 = 8333333;

/// One CPU cycle of the 2 MHz virtual clock, in nanoseconds.
pub const CYCLE_TIME_NS: u64 = 500;

/// The end-of-draw interrupt vector.
pub const FULL_FRAME_VECTOR: u8 = 1;

/// The mid-screen interrupt vector.
pub const HALF_FRAME_VECTOR: u8 = 2;

/// Which interrupt to inject at instant `now_ns`, given when the end-of-draw
/// interrupt last fired and whether the mid-screen interrupt already fired
/// in the current frame. At most one interrupt per decision.
pub open spec fn interrupt_decision(last_full_frame: u64, half_interrupt_done: bool, now_ns: u64) -> Option<u8>
    recommends
        last_full_frame <= now_ns,
{
    if now_ns - last_full_frame >= FRAME_DURATION_NS {
        Some(FULL_FRAME_VECTOR)
    } else if now_ns - last_full_frame >= HALF_FRAME_DURATION_NS && !half_interrupt_done {
        Some(HALF_FRAME_VECTOR)
    } else {
        None
    }
}

/// The cycle budget granted at instant `now_ns`: the nanoseconds elapsed
/// since the budget was last evaluated, divided by the cycle time.
pub open spec fn cycle_budget(last_advance: u64, now_ns: u64) -> u64
    recommends
        last_advance <= now_ns,
{
    (((now_ns - last_advance) / (CYCLE_TIME_NS as int)) as u64)
}

#[derive(Clone, Copy, Debug, PartialEq, Eq, Structural)]
pub struct FrameClock {
    last_full_frame: u64,
    last_advance: u64,
    half_interrupt_done: bool,
}

impl FrameClock {
    /// The end-of-draw timestamp never runs ahead of the last advance.
    #[verifier::type_invariant]
    pub closed spec fn wf(self) -> bool {
        self.last_full_frame <= self.last_advance
    }

    /// When the end-of-draw interrupt last fired, in nanoseconds.
    pub closed spec fn last_full_frame(self) -> u64 {
        self.last_full_frame
    }

    /// When the cycle budget was last evaluated, in nanoseconds.
    pub closed spec fn last_advance(self) -> u64 {
        self.last_advance
    }

    /// Whether the mid-screen interrupt already fired in the current frame.
    pub closed spec fn half_interrupt_done(self) -> bool {
        self.half_interrupt_done
    }

    /// Runtime view of `last_advance`, for callers outside verified code
    /// that must check the scheduler's preconditions before calling it.
    pub fn last_advance_ns(&self) -> (r: u64)
        ensures
            r == self.last_advance(),
    {
        self.last_advance
    }

    /// Runtime view of `last_full_frame`.
    pub fn last_full_frame_ns(&self) -> (r: u64)
        ensures
            r == self.last_full_frame(),
    {
        self.last_full_frame
    }

    pub fn new(now_ns: u64) -> (c: FrameClock)
        ensures
            c.last_full_frame() == now_ns,
            c.last_advance() == now_ns,
            !c.half_interrupt_done(),
    {
        FrameClock { last_full_frame: now_ns, last_advance: now_ns, half_interrupt_done: false }
    }

    /// One scheduling decision: returns the interrupt to inject (if any) and
    /// the cycle budget for the elapsed time, and rolls the clock forward to
    /// `now_ns`. At most one interrupt is returned per call.
    pub fn advance(&mut self, now_ns: u64) -> (r: (Option<u8>, u64))
        requires
            now_ns >= old(self).last_advance(),
        ensures
            r.0 == interrupt_decision(
                old(self).last_full_frame(),
                old(self).half_interrupt_done(),
                now_ns,
            ),
            r.1 == cycle_budget(old(self).last_advance(), now_ns),
            final(self).last_advance() == now_ns,
            r.0 == Some(FULL_FRAME_VECTOR) ==> final(self).last_full_frame() == now_ns && !final(self).half_interrupt_done(),
            r.0 == Some(HALF_FRAME_VECTOR) ==> final(self).last_full_frame() == old(self).last_full_frame() && final(self).half_interrupt_done(),
            r.0 is None ==> final(self).last_full_frame() == old(self).last_full_frame() && final(self).half_interrupt_done() == old(self).half_interrupt_done(),
    {
        proof {
            use_type_invariant(&*self);
        }
        let cycles: u64 = (now_ns - self.last_advance) / CYCLE_TIME_NS;
        let since_full: u64 = now_ns - self.last_full_frame;
        self.last_advance = now_ns;
        let interrupt: Option<u8> = if since_full >= FRAME_DURATION_NS {
            self.last_full_frame = now_ns;
            self.half_interrupt_done = false;
            Some(FULL_FRAME_VECTOR)
        } else if since_full >= HALF_FRAME_DURATION_NS && !self.half_interrupt_done {
            self.half_interrupt_done = true;
            Some(HALF_FRAME_VECTOR)
        } else {
            None
        };
        (interrupt, cycles)
    }
}

/// A wall-clock delta of exactly one frame duration since the last
/// end-of-draw interrupt injects vector 1, and never vector 2 in the same
/// call, whatever the mid-screen state.
pub proof fn lemma_full_frame_delta_fires_full_frame(
    last_full_frame: u64,
    half_interrupt_done: bool,
    now_ns: u64,
)
    requires
        now_ns == last_full_frame + FRAME_DURATION_NS,
    ensures
        interrupt_decision(last_full_frame, half_interrupt_done, now_ns) == Some(
            FULL_FRAME_VECTOR,
        ),
        interrupt_decision(last_full_frame, half_interrupt_done, now_ns) != Some(
            HALF_FRAME_VECTOR,
        ),
{
}

/// A delta of one millisecond since the last advance grants a budget of
/// exactly 2000 cycles of the 2 MHz clock.
pub proof fn lemma_one_millisecond_cycle_budget(last_advance: u64, now_ns: u64)
    requires
        now_ns == last_advance + 1000000,
    ensures
        cycle_budget(last_advance, now_ns) == 2000,
{
}

} // verus!
