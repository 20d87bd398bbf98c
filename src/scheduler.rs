use vstd::prelude::*;

verus! {

/// Where the frame loop stands.
#[derive(Clone, Copy, Debug, PartialEq, Eq, Structural)]
pub enum Phase {
    /// Nothing registered yet.
    Idle,
    /// A callback is registered for the next refresh.
    Scheduled,
    /// The callback is running.
    Running,
}

/// The decisions of a frame loop that registers its callback once at start
/// and again at the end of every frame. The caller performs each registration
/// that a method asks for.
#[derive(Clone, Copy, Debug)]
pub struct FrameScheduler {
    phase: Phase,
    frames: u64,
    registrations: u64,
}

/// The scheduler as plain values: its phase, the frames begun, and the
/// registrations asked for.
pub struct SchedulerView {
    pub phase: Phase,
    pub frames: nat,
    pub registrations: nat,
}

impl SchedulerView {
    /// Every frame begun came from a registration, and each registration
    /// leads to at most one frame.
    pub open spec fn wf(self) -> bool {
        match self.phase {
            Phase::Idle => self.frames == 0 && self.registrations == 0,
            Phase::Scheduled => self.registrations == self.frames + 1,
            Phase::Running => self.registrations == self.frames,
        }
    }
}

/// After `start`: the first registration, if none was made.
pub open spec fn after_start(v: SchedulerView) -> SchedulerView {
    if v.phase == Phase::Idle {
        SchedulerView { phase: Phase::Scheduled, registrations: v.registrations + 1, ..v }
    } else {
        v
    }
}

/// After `begin_frame`: a registered callback runs.
pub open spec fn after_begin(v: SchedulerView) -> SchedulerView {
    if v.phase == Phase::Scheduled {
        SchedulerView { phase: Phase::Running, frames: v.frames + 1, ..v }
    } else {
        v
    }
}

/// After `end_frame`: the running callback registers itself again.
pub open spec fn after_end(v: SchedulerView) -> SchedulerView {
    if v.phase == Phase::Running {
        SchedulerView { phase: Phase::Scheduled, registrations: v.registrations + 1, ..v }
    } else {
        v
    }
}

/// The scheduler after `n` whole frames, each begun and ended.
pub open spec fn after_frames(v: SchedulerView, n: nat) -> SchedulerView
    decreases n,
{
    if n == 0 {
        v
    } else {
        after_end(after_begin(after_frames(v, (n - 1) as nat)))
    }
}

impl View for FrameScheduler {
    type V = SchedulerView;

    closed spec fn view(&self) -> SchedulerView {
        SchedulerView {
            phase: self.phase,
            frames: self.frames as nat,
            registrations: self.registrations as nat,
        }
    }
}

impl FrameScheduler {
    #[verifier::type_invariant]
    spec fn well_formed(self) -> bool {
        self@.wf()
    }

    pub fn new() -> (r: FrameScheduler)
        ensures
            r@ == (SchedulerView { phase: Phase::Idle, frames: 0, registrations: 0 }),
            r@.wf(),
    {
        FrameScheduler { phase: Phase::Idle, frames: 0, registrations: 0 }
    }

    pub fn phase(&self) -> (r: Phase)
        ensures
            r == self@.phase,
    {
        self.phase
    }

    /// How many frames have begun.
    pub fn frames(&self) -> (r: u64)
        ensures
            r == self@.frames,
    {
        self.frames
    }

    /// How many registrations have been asked for.
    pub fn registrations(&self) -> (r: u64)
        ensures
            r == self@.registrations,
    {
        self.registrations
    }

    /// Starts the loop. Returns whether the callback must be registered now:
    /// only the first start registers it.
    pub fn start(&mut self) -> (r: bool)
        ensures
            final(self)@ == after_start(old(self)@),
            final(self)@.wf(),
            r == (old(self)@.phase == Phase::Idle),
    {
        proof {
            use_type_invariant(&*self);
        }
        if self.phase == Phase::Idle {
            *self = FrameScheduler { phase: Phase::Scheduled, frames: 0, registrations: 1 };
            true
        } else {
            false
        }
    }

    /// The platform invoked the callback. Returns whether it was expected,
    /// that is whether a registration was pending; if not, nothing changes.
    pub fn begin_frame(&mut self) -> (r: bool)
        requires
            old(self)@.frames < u64::MAX,
        ensures
            final(self)@ == after_begin(old(self)@),
            final(self)@.wf(),
            r == (old(self)@.phase == Phase::Scheduled),
    {
        proof {
            use_type_invariant(&*self);
        }
        if self.phase == Phase::Scheduled {
            *self = FrameScheduler {
                phase: Phase::Running,
                frames: self.frames + 1,
                registrations: self.registrations,
            };
            true
        } else {
            false
        }
    }

    /// The callback's work is done. Returns whether the callback must be
    /// registered for the next refresh: exactly when a frame was running.
    pub fn end_frame(&mut self) -> (r: bool)
        requires
            old(self)@.registrations < u64::MAX,
        ensures
            final(self)@ == after_end(old(self)@),
            final(self)@.wf(),
            r == (old(self)@.phase == Phase::Running),
    {
        proof {
            use_type_invariant(&*self);
        }
        if self.phase == Phase::Running {
            *self = FrameScheduler {
                phase: Phase::Scheduled,
                frames: self.frames,
                registrations: self.registrations + 1,
            };
            true
        } else {
            false
        }
    }
}

/// From a scheduled loop, `n` frames run the callback exactly `n` times and
/// ask for exactly `n` registrations, one per frame, and leave the loop
/// scheduled again.
pub proof fn lemma_frames_liveness(v: SchedulerView, n: nat)
    requires
        v.wf(),
        v.phase == Phase::Scheduled,
    ensures
        after_frames(v, n).phase == Phase::Scheduled,
        after_frames(v, n).frames == v.frames + n,
        after_frames(v, n).registrations == v.registrations + n,
        after_frames(v, n).wf(),
    decreases n,
{
    if n > 0 {
        lemma_frames_liveness(v, (n - 1) as nat);
    }
}

} // verus!
