//! Turning one frame's key transitions into a movement intent.
use vstd::prelude::*;
use crate::vector::Vector3;

verus! {

/// Largest magnitude of any component of a key's contribution.
pub const MAX_KEY_STEP: i64 = 1_000_000_000;

/// Most key transitions that one frame may carry.
pub const MAX_FRAME_EVENTS: usize = 1_000_000_000;

/// The keys that movement schemes recognise; every other key is `Other`.
#[derive(Clone, Copy, Debug, PartialEq, Eq, Structural)]
pub enum Key {
    W,
    A,
    S,
    D,
    Q,
    E,
    Other,
}

#[derive(Clone, Copy, Debug, PartialEq, Eq, Structural)]
pub enum KeyState {
    Pressed,
    Released,
}

/// One key transition delivered since the previous frame.
#[derive(Clone, Copy, Debug, PartialEq, Eq, Structural)]
pub struct KeyEvent {
    pub key: Key,
    pub state: KeyState,
}

impl KeyEvent {
    pub fn pressed(key: Key) -> (r: KeyEvent)
        ensures
            r.key == key && r.state == KeyState::Pressed,
    {
        KeyEvent { key, state: KeyState::Pressed }
    }

    pub fn released(key: Key) -> (r: KeyEvent)
        ensures
            r.key == key && r.state == KeyState::Released,
    {
        KeyEvent { key, state: KeyState::Released }
    }
}

/// What each recognised key contributes when pressed, and which key, if
/// any, requests thrust.
#[derive(Clone, Copy, Debug, PartialEq, Eq, Structural)]
pub struct MoveScheme {
    pub forward: Vector3,
    pub back: Vector3,
    pub left: Vector3,
    pub right: Vector3,
    pub up: Vector3,
    pub down: Vector3,
    pub thrust_key: Option<Key>,
}

/// The movement requested for one frame.
#[derive(Clone, Copy, Debug, PartialEq, Eq, Structural)]
pub struct MovementIntent {
    pub offset: Vector3,
    pub thrust: bool,
}

pub open spec fn step_ok(v: Vector3) -> bool {
    -MAX_KEY_STEP <= v.x <= MAX_KEY_STEP && -MAX_KEY_STEP <= v.y <= MAX_KEY_STEP
        && -MAX_KEY_STEP <= v.z <= MAX_KEY_STEP
}

/// The sum of one frame's contributions, as mathematical integers.
pub struct OffsetSum {
    pub x: int,
    pub y: int,
    pub z: int,
}

impl MoveScheme {
    pub open spec fn wf(self) -> bool {
        step_ok(self.forward) && step_ok(self.back) && step_ok(self.left) && step_ok(self.right)
            && step_ok(self.up) && step_ok(self.down)
    }

    pub open spec fn delta_spec(self, key: Key) -> Vector3 {
        match key {
            Key::W => self.forward,
            Key::S => self.back,
            Key::A => self.left,
            Key::D => self.right,
            Key::Q => self.up,
            Key::E => self.down,
            Key::Other => Vector3 { x: 0, y: 0, z: 0 },
        }
    }

    /// What one transition contributes: its key's step if pressed, else nothing.
    pub open spec fn contribution(self, e: KeyEvent) -> Vector3 {
        if e.state == KeyState::Pressed {
            self.delta_spec(e.key)
        } else {
            Vector3 { x: 0, y: 0, z: 0 }
        }
    }

    /// The algebraic sum of the contributions of `events`.
    pub open spec fn offset_of(self, events: Seq<KeyEvent>) -> OffsetSum
        decreases events.len(),
    {
        if events.len() == 0 {
            OffsetSum { x: 0, y: 0, z: 0 }
        } else {
            let rest = self.offset_of(events.drop_last());
            let c = self.contribution(events.last());
            OffsetSum { x: rest.x + c.x, y: rest.y + c.y, z: rest.z + c.z }
        }
    }

    /// Whether some transition of `events` presses the thrust key.
    pub open spec fn thrust_of(self, events: Seq<KeyEvent>) -> bool {
        exists|i: int|
            0 <= i < events.len() && events[i].state == KeyState::Pressed && self.thrust_key
                == Some(events[i].key)
    }

    /// The intent that `events` resolve to.
    pub open spec fn intent_of(self, events: Seq<KeyEvent>) -> MovementIntent {
        let o = self.offset_of(events);
        MovementIntent {
            offset: Vector3 { x: o.x as i64, y: o.y as i64, z: o.z as i64 },
            thrust: self.thrust_of(events),
        }
    }

    /// Sprite movement: ten world units per press on the four planar keys.
    pub fn sprite_2d() -> (r: MoveScheme)
        ensures
            r.wf(),
            r.forward == Vector3::new_spec(0, 10_000, 0),
            r.back == Vector3::new_spec(0, -10_000, 0),
            r.left == Vector3::new_spec(-10_000, 0, 0),
            r.right == Vector3::new_spec(10_000, 0, 0),
            r.up.is_zero_spec() && r.down.is_zero_spec(),
            r.thrust_key.is_none(),
    {
        MoveScheme {
            forward: Vector3::new(0, 10_000, 0),
            back: Vector3::new(0, -10_000, 0),
            left: Vector3::new(-10_000, 0, 0),
            right: Vector3::new(10_000, 0, 0),
            up: Vector3::zero(),
            down: Vector3::zero(),
            thrust_key: None,
        }
    }

    /// Rigid-body control: `W` thrusts upward at 500 units per second and
    /// requests thrust, `A` and `D` push sideways at 100.
    pub fn physics_2d() -> (r: MoveScheme)
        ensures
            r.wf(),
            r.forward == Vector3::new_spec(0, 500_000, 0),
            r.back.is_zero_spec(),
            r.left == Vector3::new_spec(-100_000, 0, 0),
            r.right == Vector3::new_spec(100_000, 0, 0),
            r.up.is_zero_spec() && r.down.is_zero_spec(),
            r.thrust_key == Some(Key::W),
    {
        MoveScheme {
            forward: Vector3::new(0, 500_000, 0),
            back: Vector3::zero(),
            left: Vector3::new(-100_000, 0, 0),
            right: Vector3::new(100_000, 0, 0),
            up: Vector3::zero(),
            down: Vector3::zero(),
            thrust_key: Some(Key::W),
        }
    }

    /// Moving an object in space: a tenth of a unit per press, `W`/`S`
    /// along depth, `A`/`D` sideways, `Q`/`E` up and down.
    pub fn cube_3d() -> (r: MoveScheme)
        ensures
            r.wf(),
            r.forward == Vector3::new_spec(0, 0, 100),
            r.back == Vector3::new_spec(0, 0, -100),
            r.left == Vector3::new_spec(-100, 0, 0),
            r.right == Vector3::new_spec(100, 0, 0),
            r.up == Vector3::new_spec(0, 100, 0),
            r.down == Vector3::new_spec(0, -100, 0),
            r.thrust_key.is_none(),
    {
        MoveScheme {
            forward: Vector3::new(0, 0, 100),
            back: Vector3::new(0, 0, -100),
            left: Vector3::new(-100, 0, 0),
            right: Vector3::new(100, 0, 0),
            up: Vector3::new(0, 100, 0),
            down: Vector3::new(0, -100, 0),
            thrust_key: None,
        }
    }

    pub fn delta(&self, key: Key) -> (r: Vector3)
        ensures
            r == self.delta_spec(key),
    {
        match key {
            Key::W => self.forward,
            Key::S => self.back,
            Key::A => self.left,
            Key::D => self.right,
            Key::Q => self.up,
            Key::E => self.down,
            Key::Other => Vector3::zero(),
        }
    }

    fn is_thrust(&self, e: &KeyEvent) -> (r: bool)
        ensures
            r == (e.state == KeyState::Pressed && self.thrust_key == Some(e.key)),
    {
        match (e.state, self.thrust_key) {
            (KeyState::Pressed, Some(k)) => k == e.key,
            _ => false,
        }
    }

    /// Resolves one frame's key transitions into a movement intent: the sum
    /// of the steps of the pressed keys, and whether thrust was pressed.
    /// Released and unrecognised keys contribute nothing.
    pub fn sample_intent(&self, events: &Vec<KeyEvent>) -> (r: MovementIntent)
        requires
            self.wf(),
            events.len() <= MAX_FRAME_EVENTS,
        ensures
            r.offset.x == self.offset_of(events@).x,
            r.offset.y == self.offset_of(events@).y,
            r.offset.z == self.offset_of(events@).z,
            r.thrust == self.thrust_of(events@),
            r == self.intent_of(events@),
    {
        let mut x: i64 = 0;
        let mut y: i64 = 0;
        let mut z: i64 = 0;
        let mut thrust = false;
        let mut i: usize = 0;
        while i < events.len()
            invariant
                self.wf(),
                events.len() <= MAX_FRAME_EVENTS,
                0 <= i <= events.len(),
                x == self.offset_of(events@.subrange(0, i as int)).x,
                y == self.offset_of(events@.subrange(0, i as int)).y,
                z == self.offset_of(events@.subrange(0, i as int)).z,
                -(i as int) * MAX_KEY_STEP <= x <= (i as int) * MAX_KEY_STEP,
                -(i as int) * MAX_KEY_STEP <= y <= (i as int) * MAX_KEY_STEP,
                -(i as int) * MAX_KEY_STEP <= z <= (i as int) * MAX_KEY_STEP,
                thrust == self.thrust_of(events@.subrange(0, i as int)),
            decreases events.len() - i,
        {
            let e = events[i];
            let d = if e.state == KeyState::Pressed {
                self.delta(e.key)
            } else {
                Vector3::zero()
            };
            assert(d == self.contribution(e));
            assert(events@.subrange(0, i + 1).drop_last() =~= events@.subrange(0, i as int));
            x = x + d.x;
            y = y + d.y;
            z = z + d.z;
            let t = self.is_thrust(&e);
            proof {
                let pre = events@.subrange(0, i as int);
                let post = events@.subrange(0, i + 1);
                if t {
                    assert(post[i as int] == e);
                }
                if self.thrust_of(post) && !self.thrust_of(pre) {
                    let j = choose|j: int|
                        0 <= j < post.len() && post[j].state == KeyState::Pressed
                            && self.thrust_key == Some(post[j].key);
                    if j < i {
                        assert(pre[j] == post[j]);
                    }
                }
                if self.thrust_of(pre) {
                    let j = choose|j: int|
                        0 <= j < pre.len() && pre[j].state == KeyState::Pressed
                            && self.thrust_key == Some(pre[j].key);
                    assert(post[j] == pre[j]);
                }
            }
            thrust = thrust || t;
            i = i + 1;
        }
        assert(events@.subrange(0, i as int) =~= events@);
        MovementIntent { offset: Vector3 { x, y, z }, thrust }
    }
}

} // verus!
