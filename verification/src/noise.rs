use vstd::prelude::*;

verus! {

/// Number of subwindows (U) of the minimum-statistics window.
pub const NUM_SUBWINDOWS: usize = 8;

/// Number of frames (V) per subwindow.
pub const SUBWINDOW_LENGTH: usize = 12;

/// What one update of the minimum-statistics estimator does with its
/// subwindow ring.
#[derive(Debug, Clone, Copy, PartialEq, Eq, Structural)]
pub enum SubwindowStep {
    /// First frame: seed every subwindow from the input.
    Initialize,
    /// Fold the frame into the running minimum of the current subwindow.
    Accumulate,
    /// Fold the frame in, then store the completed subwindow's minimum in
    /// ring slot `slot` and start a new subwindow.
    Rotate { slot: usize },
}

/// Frame and subwindow counters of Martin's minimum-statistics noise
/// estimator: `V` frames make a subwindow, and the completed subwindows
/// are stored in a ring of `U` slots.
#[derive(Debug, Clone, Copy, PartialEq, Eq)]
pub struct SubwindowSchedule {
    frame_counter: usize,
    subwindow_counter: usize,
    initialized: bool,
}

/// The counters as plain values.
pub struct ScheduleView {
    pub frame_counter: nat,
    pub subwindow_counter: nat,
    pub initialized: bool,
}

/// One update: the counters afterwards and what the update does.
pub open spec fn schedule_step(v: ScheduleView) -> (ScheduleView, SubwindowStep) {
    if !v.initialized {
        (ScheduleView { frame_counter: 1, subwindow_counter: v.subwindow_counter, initialized: true },
        SubwindowStep::Initialize)
    } else if v.frame_counter + 1 >= SUBWINDOW_LENGTH {
        (
            ScheduleView {
                frame_counter: 0,
                subwindow_counter: ((v.subwindow_counter as int + 1) % (NUM_SUBWINDOWS as int)) as nat,
                initialized: true,
            },
            SubwindowStep::Rotate { slot: ((v.subwindow_counter as int) % (NUM_SUBWINDOWS as int)) as usize },
        )
    } else {
        (
            ScheduleView {
                frame_counter: v.frame_counter + 1,
                subwindow_counter: v.subwindow_counter,
                initialized: true,
            },
            SubwindowStep::Accumulate,
        )
    }
}

/// The counters of a fresh (or reset) estimator.
pub open spec fn fresh_schedule() -> ScheduleView {
    ScheduleView { frame_counter: 0, subwindow_counter: 0, initialized: false }
}

/// The counters after `n` updates from `v`.
pub open spec fn schedule_run(v: ScheduleView, n: nat) -> ScheduleView
    decreases n,
{
    if n == 0 {
        v
    } else {
        schedule_step(schedule_run(v, (n - 1) as nat)).0
    }
}

impl View for SubwindowSchedule {
    type V = ScheduleView;

    closed spec fn view(&self) -> ScheduleView {
        ScheduleView {
            frame_counter: self.frame_counter as nat,
            subwindow_counter: self.subwindow_counter as nat,
            initialized: self.initialized,
        }
    }
}

impl SubwindowSchedule {
    #[verifier::type_invariant]
    spec fn inv(self) -> bool {
        &&& self.frame_counter < SUBWINDOW_LENGTH
        &&& self.subwindow_counter < NUM_SUBWINDOWS
        &&& !self.initialized ==> self.frame_counter == 0 && self.subwindow_counter == 0
    }

    /// Counters of an estimator that has not seen a frame.
    pub fn new() -> (r: Self)
        ensures
            r@ == fresh_schedule(),
    {
        SubwindowSchedule { frame_counter: 0, subwindow_counter: 0, initialized: false }
    }

    /// Account for one update of the estimator.
    pub fn advance(&mut self) -> (step: SubwindowStep)
        ensures
            (final(self)@, step) == schedule_step(old(self)@),
            final(self)@.frame_counter < SUBWINDOW_LENGTH,
            final(self)@.subwindow_counter < NUM_SUBWINDOWS,
    {
        proof { use_type_invariant(&*self); }
        if !self.initialized {
            self.initialized = true;
            self.frame_counter = 1;
            return SubwindowStep::Initialize;
        }
        if self.frame_counter + 1 >= SUBWINDOW_LENGTH {
            let slot = self.subwindow_counter % NUM_SUBWINDOWS;
            self.frame_counter = 0;
            self.subwindow_counter = (self.subwindow_counter + 1) % NUM_SUBWINDOWS;
            SubwindowStep::Rotate { slot }
        } else {
            self.frame_counter = self.frame_counter + 1;
            SubwindowStep::Accumulate
        }
    }

    /// Back to the counters of an estimator that has not seen a frame.
    pub fn reset(&mut self)
        ensures
            final(self)@ == fresh_schedule(),
    {
        *self = SubwindowSchedule::new();
    }

    /// Frames folded into the current subwindow.
    pub fn frame_counter(&self) -> (r: usize)
        ensures
            r == self@.frame_counter,
    {
        self.frame_counter
    }

    /// Ring slot of the next completed subwindow.
    pub fn subwindow_counter(&self) -> (r: usize)
        ensures
            r == self@.subwindow_counter,
    {
        self.subwindow_counter
    }

    /// Whether the first frame has been seen.
    pub fn initialized(&self) -> (r: bool)
        ensures
            r == self@.initialized,
    {
        self.initialized
    }
}


proof fn lemma_count_step(n: int)
    requires
        n >= 1,
    ensures
        n % 12 + 1 >= 12 ==> (n + 1) % 12 == 0 && (n + 1) / 12 == n / 12 + 1,
        n % 12 + 1 < 12 ==> (n + 1) % 12 == n % 12 + 1 && (n + 1) / 12 == n / 12,
        ((n / 12) % 8 + 1) % 8 == (n / 12 + 1) % 8,
        n / 12 >= 0,
{
    assert(n % 12 + 1 >= 12 ==> (n + 1) % 12 == 0 && (n + 1) / 12 == n / 12 + 1) by (nonlinear_arith)
        requires n >= 1;
    assert(n % 12 + 1 < 12 ==> (n + 1) % 12 == n % 12 + 1 && (n + 1) / 12 == n / 12) by (nonlinear_arith)
        requires n >= 1;
    let q = n / 12;
    assert(q >= 0) by (nonlinear_arith) requires n >= 1, q == n / 12;
    assert((q % 8 + 1) % 8 == (q + 1) % 8) by (nonlinear_arith) requires q >= 0;
}

/// From a fresh estimator, the first update seeds the subwindows; after
/// that a subwindow completes every `V` updates and is stored in the ring
/// slots in turn: after `n >= 1` updates the frame counter is `n mod V` and
/// the ring position is `(n / V) mod U`.
pub proof fn lemma_schedule_counts(n: int)
    requires
        n >= 1,
    ensures
        schedule_run(fresh_schedule(), n as nat).initialized,
        schedule_run(fresh_schedule(), n as nat).frame_counter == n % (SUBWINDOW_LENGTH as int),
        schedule_run(fresh_schedule(), n as nat).subwindow_counter == (n / (SUBWINDOW_LENGTH as int)) % (
        NUM_SUBWINDOWS as int),
        schedule_step(schedule_run(fresh_schedule(), (n - 1) as nat)).1 == if n == 1 {
            SubwindowStep::Initialize
        } else if n % (SUBWINDOW_LENGTH as int) == 0 {
            SubwindowStep::Rotate {
                slot: ((n / (SUBWINDOW_LENGTH as int) - 1) % (NUM_SUBWINDOWS as int)) as usize,
            }
        } else {
            SubwindowStep::Accumulate
        },
    decreases n,
{
    if n > 1 {
        let m = n - 1;
        lemma_schedule_counts(m);
        lemma_count_step(m);
    }
}

} // verus!
