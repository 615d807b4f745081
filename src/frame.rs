//! One simulation frame: sample input, drive the body, spawn emitters from
//! the queued events, then age and reap the emitters.
use vstd::prelude::*;
use crate::body::{control_body, moved, ControlledBody, Drive};
use crate::channel::{EventChannel, ThrusterFired};
use crate::effects::{aged, expired, spawned_from, EmitterSet, TransientEmitter};
use crate::input::{KeyEvent, MoveScheme, MovementIntent, MAX_FRAME_EVENTS};

verus! {

/// Everything the core keeps from one frame to the next.
pub struct Simulation {
    /// The controlled body, if it exists this frame.
    pub body: Option<ControlledBody>,
    pub channel: EventChannel,
    pub emitters: EmitterSet,
    pub scheme: MoveScheme,
    pub drive: Drive,
}

/// What the host has to mirror after a frame: emitters to create and ids of
/// emitters to destroy.
pub struct FrameReport {
    pub spawned: Vec<TransientEmitter>,
    pub expired: Vec<u64>,
}

/// The events a frame queues: one at the body's starting position when thrust
/// is requested and a body exists, none otherwise.
pub open spec fn thrust_events(body: Option<ControlledBody>, intent: MovementIntent) -> Seq<
    ThrusterFired,
> {
    match body {
        Some(b) => if intent.thrust {
            seq![ThrusterFired { position: b.position }]
        } else {
            Seq::empty()
        },
        None => Seq::empty(),
    }
}

/// The body after a frame with `intent`.
pub open spec fn body_after(body: Option<ControlledBody>, intent: MovementIntent, drive: Drive) -> Option<
    ControlledBody,
> {
    match body {
        Some(b) => Some(moved(b, intent, drive)),
        None => None,
    }
}

/// A frame queues exactly one event while thrust is requested and the body
/// exists, carrying the body's position at the start of that frame, and none
/// otherwise.
pub proof fn lemma_one_event_per_thrust_frame(body: Option<ControlledBody>, intent: MovementIntent)
    ensures
        thrust_events(body, intent).len() == if intent.thrust && body.is_some() {
            1int
        } else {
            0int
        },
        intent.thrust && body.is_some() ==> thrust_events(body, intent)[0].position
            == body.unwrap().position,
{
}

impl Simulation {
    pub open spec fn wf(&self) -> bool {
        self.scheme.wf() && self.emitters.wf()
    }

    pub fn new(body: Option<ControlledBody>, scheme: MoveScheme, drive: Drive, lifetime: u64) -> (r:
        Simulation)
        requires
            scheme.wf(),
            lifetime > 0,
        ensures
            r.wf(),
            r.body == body,
            r.scheme == scheme,
            r.drive == drive,
            r.channel@ == Seq::<ThrusterFired>::empty(),
            r.emitters@ == Seq::<TransientEmitter>::empty(),
            r.emitters.next_id() == 0,
            r.emitters.lifetime() == lifetime,
    {
        Simulation {
            body,
            channel: EventChannel::new(),
            emitters: EmitterSet::new(lifetime),
            scheme,
            drive,
        }
    }

    /// Runs one frame on the key transitions `keys` that arrived since the
    /// last one, `dt` microseconds after it.
    pub fn step_frame(&mut self, keys: &Vec<KeyEvent>, dt: u64) -> (r: FrameReport)
        requires
            old(self).wf(),
            keys.len() <= MAX_FRAME_EVENTS,
            old(self).emitters.next_id() + old(self).channel@.len() + 1 <= u64::MAX,
        ensures
            final(self).wf(),
            final(self).scheme == old(self).scheme,
            final(self).drive == old(self).drive,
            ({
                let intent = old(self).scheme.intent_of(keys@);
                let queued = old(self).channel@ + thrust_events(old(self).body, intent);
                let live = old(self).emitters@ + r.spawned@;
                &&& final(self).body == body_after(old(self).body, intent, old(self).drive)
                &&& r.spawned@ == spawned_from(
                    queued,
                    old(self).emitters.next_id() as int,
                    old(self).emitters.lifetime(),
                )
                &&& final(self).emitters@ == aged(live, dt)
                &&& r.expired@ == expired(live, dt)
                &&& final(self).emitters.next_id() == old(self).emitters.next_id() + queued.len()
            }),
            old(self).scheme.intent_of(keys@).offset.is_zero_spec() ==> final(self).body == old(
                self,
            ).body,
            final(self).emitters.lifetime() == old(self).emitters.lifetime(),
            final(self).channel@ == Seq::<ThrusterFired>::empty(),
    {
        let intent = self.scheme.sample_intent(keys);
        let ghost q0 = self.channel@;
        control_body(&mut self.body, &intent, self.drive, &mut self.channel);
        assert(self.channel@ =~= q0 + thrust_events(old(self).body, intent));
        let spawned = self.emitters.spawn_from(&mut self.channel);
        let expired = self.emitters.reap(dt);
        FrameReport { spawned, expired }
    }
}

} // verus!
