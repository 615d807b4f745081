//! Applying a movement intent to the single controlled body.
use vstd::prelude::*;
use crate::channel::{EventChannel, ThrusterFired};
use crate::input::MovementIntent;
use crate::vector::Vector3;

verus! {

/// How a nonzero intent acts on the body.
#[derive(Clone, Copy, Debug, PartialEq, Eq, Structural)]
pub enum Drive {
    /// The body's position moves by the intent's offset.
    Translate,
    /// The body's velocity is replaced by the intent's offset.
    SetVelocity,
}

/// The player-controlled body: where it stands and how fast it moves.
#[derive(Clone, Copy, Debug, PartialEq, Eq, Structural)]
pub struct ControlledBody {
    pub position: Vector3,
    pub velocity: Vector3,
}

impl ControlledBody {
    pub fn at_rest(position: Vector3) -> (r: ControlledBody)
        ensures
            r.position == position,
            r.velocity.is_zero_spec(),
    {
        ControlledBody { position, velocity: Vector3::zero() }
    }
}

/// What the body becomes under `intent`, with `drive`. A translation whose
/// result would not fit leaves the body where it was.
pub open spec fn moved(b: ControlledBody, intent: MovementIntent, drive: Drive) -> ControlledBody {
    if intent.offset.is_zero_spec() {
        b
    } else {
        match drive {
            Drive::Translate => if b.position.can_add(intent.offset) {
                ControlledBody { position: b.position.add_spec(intent.offset), ..b }
            } else {
                b
            },
            Drive::SetVelocity => ControlledBody { velocity: intent.offset, ..b },
        }
    }
}

/// Applies one frame's intent to the body, if there is one.
///
/// With no body nothing happens. Otherwise, when thrust is requested, one
/// event carrying the body's position at the start of the frame is queued;
/// then a nonzero offset moves or sets the body as `drive` says, and a zero
/// offset leaves it as it was.
pub fn control_body(
    body: &mut Option<ControlledBody>,
    intent: &MovementIntent,
    drive: Drive,
    channel: &mut EventChannel,
)
    ensures
        intent.offset.is_zero_spec() ==> *final(body) == *old(body),
        match *old(body) {
            None => *final(body) == None::<ControlledBody> && final(channel)@ == old(channel)@,
            Some(b) => {
                &&& *final(body) == Some(moved(b, *intent, drive))
                &&& final(channel)@ == if intent.thrust {
                    old(channel)@.push(ThrusterFired { position: b.position })
                } else {
                    old(channel)@
                }
            },
        },
{
    match body {
        None => {},
        Some(b) => {
            if intent.thrust {
                channel.send(ThrusterFired { position: b.position });
            }
            if intent.offset.is_zero() {
                return;
            }
            match drive {
                Drive::Translate => {
                    if let Some(p) = b.position.checked_add(&intent.offset) {
                        b.position = p;
                    }
                },
                Drive::SetVelocity => {
                    b.velocity = intent.offset;
                },
            }
        },
    }
}

} // verus!
