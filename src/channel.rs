//! The frame-buffered queue that carries thrust events from the body
//! controller to the effect spawner.
use vstd::prelude::*;
use crate::vector::Vector3;

verus! {

/// The body fired its thruster while standing at `position`.
#[derive(Clone, Copy, Debug, PartialEq, Eq, Structural)]
pub struct ThrusterFired {
    pub position: Vector3,
}

/// A first-in, first-out queue of pending thrust events.
pub struct EventChannel {
    events: Vec<ThrusterFired>,
}

impl View for EventChannel {
    type V = Seq<ThrusterFired>;

    closed spec fn view(&self) -> Seq<ThrusterFired> {
        self.events@
    }
}

impl EventChannel {
    pub fn new() -> (r: EventChannel)
        ensures
            r@ == Seq::<ThrusterFired>::empty(),
    {
        EventChannel { events: Vec::new() }
    }

    /// Appends `e` behind every pending event.
    pub fn send(&mut self, e: ThrusterFired)
        ensures
            final(self)@ == old(self)@.push(e),
    {
        self.events.push(e);
    }

    /// Removes and returns every pending event, oldest first.
    pub fn drain(&mut self) -> (r: Vec<ThrusterFired>)
        ensures
            r@ == old(self)@,
            final(self)@ == Seq::<ThrusterFired>::empty(),
    {
        let mut out: Vec<ThrusterFired> = Vec::new();
        std::mem::swap(&mut out, &mut self.events);
        out
    }

    pub fn len(&self) -> (r: usize)
        ensures
            r == self@.len(),
    {
        self.events.len()
    }

    pub fn is_empty(&self) -> (r: bool)
        ensures
            r == (self@.len() == 0),
    {
        self.events.len() == 0
    }
}

} // verus!
