use vstd::prelude::*;
use crate::angle::{advance_angle, advanced, FULL_TURN};
use crate::clock::{elapsed, FrameClock};

verus! {

/// Lifecycle of the render loop. It only moves forward:
/// setup, then running, then stopped.
#[derive(Clone, Copy, Debug, PartialEq, Eq, Structural)]
pub enum Phase {
    Setup,
    Running,
    Stopped,
}

/// The keys the loop tells apart.
#[derive(Clone, Copy, Debug, PartialEq, Eq, Structural)]
pub enum Key {
    Escape,
    Other,
}

/// A queued window event, as the loop sees it.
#[derive(Clone, Copy, Debug, PartialEq, Eq, Structural)]
pub enum InputEvent {
    Closed,
    KeyPressed(Key),
    Other,
}

/// Whether `e` asks the loop to stop: a window close or the escape key.
pub open spec fn is_stop_event(e: InputEvent) -> bool {
    e == InputEvent::Closed || e == InputEvent::KeyPressed(Key::Escape)
}

/// The phase after observing `e` in phase `p`.
pub open spec fn phase_after_event(p: Phase, e: InputEvent) -> Phase {
    if is_stop_event(e) {
        Phase::Stopped
    } else {
        p
    }
}

/// The phase after observing the events `es`, in order, from phase `p`.
pub open spec fn phase_after_events(p: Phase, es: Seq<InputEvent>) -> Phase
    decreases es.len(),
{
    if es.len() == 0 {
        p
    } else {
        phase_after_event(phase_after_events(p, es.drop_last()), es.last())
    }
}

/// Tells whether `e` asks the loop to stop.
pub fn stops_loop(e: InputEvent) -> (r: bool)
    ensures
        r == is_stop_event(e),
{
    match e {
        InputEvent::Closed => true,
        InputEvent::KeyPressed(Key::Escape) => true,
        _ => false,
    }
}

/// The state that the render loop carries from frame to frame: its phase,
/// the camera transform fixed at setup, the cube's angle in nanodegrees
/// and the frame clock.
pub struct FrameLoop<M> {
    phase: Phase,
    transform: M,
    angle: u64,
    clock: FrameClock,
}

impl<M> FrameLoop<M> {
    pub closed spec fn phase_spec(&self) -> Phase {
        self.phase
    }

    pub closed spec fn transform_spec(&self) -> M {
        self.transform
    }

    pub closed spec fn angle_spec(&self) -> u64 {
        self.angle
    }

    pub closed spec fn previous_spec(&self) -> u64 {
        self.clock.previous
    }

    /// The angle always lies within one turn.
    pub closed spec fn wf(&self) -> bool {
        self.angle < FULL_TURN
    }

    /// A loop in setup, holding the camera transform computed for it once;
    /// the angle starts at zero.
    pub fn new(transform: M) -> (r: Self)
        ensures
            r.wf(),
            r.phase_spec() == Phase::Setup,
            r.transform_spec() == transform,
            r.angle_spec() == 0,
    {
        FrameLoop { phase: Phase::Setup, transform, angle: 0, clock: FrameClock::new(0) }
    }

    /// Ends setup: the loop runs from the clock reading `now`. In any other
    /// phase nothing changes.
    pub fn start(&mut self, now: u64)
        requires
            old(self).wf(),
        ensures
            final(self).wf(),
            final(self).transform_spec() == old(self).transform_spec(),
            final(self).angle_spec() == old(self).angle_spec(),
            old(self).phase_spec() == Phase::Setup ==> final(self).phase_spec() == Phase::Running
                && final(self).previous_spec() == now,
            old(self).phase_spec() != Phase::Setup ==> final(self).phase_spec() == old(
                self,
            ).phase_spec() && final(self).previous_spec() == old(self).previous_spec(),
    {
        if self.phase == Phase::Setup {
            self.phase = Phase::Running;
            self.clock = FrameClock::new(now);
        }
    }

    /// Whether the loop is running.
    pub fn is_running(&self) -> (r: bool)
        ensures
            r == (self.phase_spec() == Phase::Running),
    {
        self.phase == Phase::Running
    }

    /// The cube's angle, in nanodegrees.
    pub fn angle(&self) -> (r: u64)
        ensures
            r == self.angle_spec(),
    {
        self.angle
    }

    /// The camera transform fixed at setup.
    pub fn transform(&self) -> (r: &M)
        ensures
            *r == self.transform_spec(),
    {
        &self.transform
    }

    /// The phase of the loop.
    pub fn phase(&self) -> (r: Phase)
        ensures
            r == self.phase_spec(),
    {
        self.phase
    }

    /// Advances one frame at the clock reading `now`: returns the elapsed
    /// nanoseconds and turns the cube by that much. Outside the running
    /// phase nothing changes and zero is returned.
    pub fn frame(&mut self, now: u64) -> (dt: u64)
        requires
            old(self).wf(),
        ensures
            final(self).wf(),
            final(self).transform_spec() == old(self).transform_spec(),
            final(self).phase_spec() == old(self).phase_spec(),
            old(self).phase_spec() == Phase::Running ==> {
                &&& dt == elapsed(old(self).previous_spec() as int, now as int)
                &&& final(self).previous_spec() == now
                &&& final(self).angle_spec() == advanced(old(self).angle_spec() as int, dt as int)
            },
            old(self).phase_spec() != Phase::Running ==> {
                &&& dt == 0
                &&& final(self).previous_spec() == old(self).previous_spec()
                &&& final(self).angle_spec() == old(self).angle_spec()
            },
    {
        if self.phase == Phase::Running {
            let dt = self.clock.tick(now);
            self.angle = advance_angle(self.angle, dt);
            dt
        } else {
            0
        }
    }

    /// Observes one event: a close or an escape key press stops the loop;
    /// anything else is ignored.
    pub fn handle_event(&mut self, e: InputEvent)
        requires
            old(self).wf(),
        ensures
            final(self).wf(),
            final(self).phase_spec() == phase_after_event(old(self).phase_spec(), e),
            final(self).transform_spec() == old(self).transform_spec(),
            final(self).angle_spec() == old(self).angle_spec(),
            final(self).previous_spec() == old(self).previous_spec(),
    {
        if stops_loop(e) {
            self.phase = Phase::Stopped;
        }
    }

    /// Observes the events queued since the last poll, in order.
    pub fn handle_events(&mut self, events: &Vec<InputEvent>)
        requires
            old(self).wf(),
        ensures
            final(self).wf(),
            final(self).phase_spec() == phase_after_events(old(self).phase_spec(), events@),
            final(self).transform_spec() == old(self).transform_spec(),
            final(self).angle_spec() == old(self).angle_spec(),
            final(self).previous_spec() == old(self).previous_spec(),
    {
        let mut i: usize = 0;
        while i < events.len()
            invariant
                0 <= i <= events@.len(),
                self.wf(),
                self.phase_spec() == phase_after_events(old(self).phase_spec(), events@.take(i as int)),
                self.transform_spec() == old(self).transform_spec(),
                self.angle_spec() == old(self).angle_spec(),
                self.previous_spec() == old(self).previous_spec(),
            decreases events@.len() - i,
        {
            assert(events@.take(i as int + 1).drop_last() =~= events@.take(i as int));
            self.handle_event(events[i]);
            i = i + 1;
        }
        assert(events@.take(events@.len() as int) =~= events@);
    }
}

/// The escape key ends the loop exactly as a window close does, in every phase.
pub proof fn lemma_escape_same_as_close(p: Phase)
    ensures
        phase_after_event(p, InputEvent::KeyPressed(Key::Escape)) == phase_after_event(
            p,
            InputEvent::Closed,
        ),
        phase_after_event(p, InputEvent::Closed) == Phase::Stopped,
{
}

/// Once stopped, the loop stays stopped whatever events follow.
pub proof fn lemma_stopped_is_final(es: Seq<InputEvent>)
    ensures
        phase_after_events(Phase::Stopped, es) == Phase::Stopped,
    decreases es.len(),
{
    if es.len() > 0 {
        lemma_stopped_is_final(es.drop_last());
    }
}

/// A queue of events that holds a close or an escape key press stops a
/// running loop.
pub proof fn lemma_stop_event_stops(p: Phase, es: Seq<InputEvent>, j: int)
    requires
        0 <= j < es.len(),
        is_stop_event(es[j]),
    ensures
        phase_after_events(p, es) == Phase::Stopped,
    decreases es.len(),
{
    if j == es.len() - 1 {
    } else {
        lemma_stop_event_stops(p, es.drop_last(), j);
    }
}

} // verus!
