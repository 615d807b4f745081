use thruster_core::body::{control_body, ControlledBody, Drive};
use thruster_core::channel::{EventChannel, ThrusterFired};
use thruster_core::effects::{EmitterSet, DEFAULT_LIFETIME_MICROS};
use thruster_core::frame::Simulation;
use thruster_core::input::{Key, KeyEvent, MoveScheme, MovementIntent};
use thruster_core::orbit::advance_orbit_phase;
use thruster_core::vector::Vector3;

fn origin_body() -> Option<ControlledBody> {
    Some(ControlledBody::at_rest(Vector3::zero()))
}

#[test]
fn forward_key_moves_sprite_up_ten_units() {
    let mut sim = Simulation::new(origin_body(), MoveScheme::sprite_2d(), Drive::Translate, DEFAULT_LIFETIME_MICROS);
    let report = sim.step_frame(&vec![KeyEvent::pressed(Key::W)], 16_000);
    let b = sim.body.unwrap();
    assert_eq!(b.position, Vector3::new(0, 10_000, 0));
    assert!(b.velocity.is_zero());
    assert!(report.spawned.is_empty());
    assert!(report.expired.is_empty());
}

#[test]
fn opposing_keys_cancel_and_leave_body_alone() {
    let start = ControlledBody { position: Vector3::new(7, 8, 9), velocity: Vector3::new(3, 4, 0) };
    let mut sim = Simulation::new(Some(start), MoveScheme::physics_2d(), Drive::SetVelocity, DEFAULT_LIFETIME_MICROS);
    let keys = vec![KeyEvent::pressed(Key::A), KeyEvent::pressed(Key::D)];
    let intent = MoveScheme::physics_2d().sample_intent(&keys);
    assert!(intent.offset.is_zero());
    assert!(!intent.thrust);
    sim.step_frame(&keys, 16_000);
    assert_eq!(sim.body, Some(start));
    assert!(sim.channel.is_empty());
}

#[test]
fn held_thrust_for_three_frames_spawns_three_emitters() {
    let mut sim = Simulation::new(origin_body(), MoveScheme::physics_2d(), Drive::SetVelocity, DEFAULT_LIFETIME_MICROS);
    let mut spawned = Vec::new();
    for _ in 0..3 {
        let report = sim.step_frame(&vec![KeyEvent::pressed(Key::W)], 16_000);
        assert_eq!(report.spawned.len(), 1);
        assert!(report.expired.is_empty());
        spawned.extend(report.spawned);
    }
    assert_eq!(spawned.len(), 3);
    for (i, e) in spawned.iter().enumerate() {
        assert_eq!(e.id, i as u64);
        assert_eq!(e.remaining, 3_000_000);
    }
    assert_eq!(sim.emitters.len(), 3);
    assert_eq!(sim.body.unwrap().velocity, Vector3::new(0, 500_000, 0));
    // Each emitter has been aged by the frames it has lived through.
    assert_eq!(sim.emitters.get(0).remaining, 3_000_000 - 3 * 16_000);
    assert_eq!(sim.emitters.get(2).remaining, 3_000_000 - 16_000);
}

#[test]
fn emitter_is_destroyed_when_elapsed_time_reaches_lifetime() {
    let mut set = EmitterSet::with_default_lifetime();
    let mut channel = EventChannel::new();
    channel.send(ThrusterFired { position: Vector3::new(1, 2, 3) });
    let spawned = set.spawn_from(&mut channel);
    assert_eq!(spawned.len(), 1);
    let id = spawned[0].id;
    for frame in 0..5 {
        let gone = set.reap(500_000);
        assert!(gone.is_empty(), "destroyed early, on frame {}", frame);
        assert_eq!(set.len(), 1);
    }
    assert_eq!(set.get(0).remaining, 500_000);
    let gone = set.reap(500_000);
    assert_eq!(gone, vec![id]);
    assert_eq!(set.len(), 0);
}

#[test]
fn emitter_lifetime_is_initial_minus_elapsed() {
    let mut set = EmitterSet::new(1_000_000);
    let mut channel = EventChannel::new();
    channel.send(ThrusterFired { position: Vector3::zero() });
    set.spawn_from(&mut channel);
    let dts = [16_000u64, 17_000, 250_000, 1];
    let mut sum = 0u64;
    for dt in dts {
        set.reap(dt);
        sum += dt;
        assert_eq!(set.get(0).remaining, 1_000_000 - sum);
    }
    let gone = set.reap(1_000_000 - sum + 5);
    assert_eq!(gone, vec![0]);
    assert_eq!(set.len(), 0);
}

#[test]
fn events_are_spawned_in_emission_order() {
    let mut set = EmitterSet::with_default_lifetime();
    let mut channel = EventChannel::new();
    let first_at = Vector3::new(10, 0, 0);
    let second_at = Vector3::new(20, 0, 0);
    channel.send(ThrusterFired { position: first_at });
    channel.send(ThrusterFired { position: second_at });
    channel.send(ThrusterFired { position: second_at });
    let spawned = set.spawn_from(&mut channel);
    assert_eq!(spawned.len(), 3);
    assert_eq!(spawned[0].position, first_at);
    assert_eq!(spawned[1].position, second_at);
    assert_eq!(spawned[2].position, second_at);
    assert!(spawned[0].id < spawned[1].id && spawned[1].id < spawned[2].id);
    assert_eq!(set.next_emitter_id(), 3);
}

#[test]
fn draining_twice_spawns_nothing_the_second_time() {
    let mut set = EmitterSet::with_default_lifetime();
    let mut channel = EventChannel::new();
    channel.send(ThrusterFired { position: Vector3::zero() });
    assert_eq!(set.spawn_from(&mut channel).len(), 1);
    assert!(channel.is_empty());
    assert!(set.spawn_from(&mut channel).is_empty());
    assert_eq!(set.len(), 1);
}

#[test]
fn thrust_event_carries_position_at_frame_start() {
    let start = ControlledBody::at_rest(Vector3::new(5_000, -2_000, 0));
    let mut body = Some(start);
    let mut channel = EventChannel::new();
    let intent = MoveScheme::sprite_2d().sample_intent(&vec![KeyEvent::pressed(Key::W)]);
    let thrusting = MovementIntent { offset: intent.offset, thrust: true };
    control_body(&mut body, &thrusting, Drive::Translate, &mut channel);
    assert_eq!(body.unwrap().position, Vector3::new(5_000, 8_000, 0));
    let events = channel.drain();
    assert_eq!(events, vec![ThrusterFired { position: Vector3::new(5_000, -2_000, 0) }]);
}

#[test]
fn thrust_without_movement_still_fires_once() {
    let mut body = origin_body();
    let mut channel = EventChannel::new();
    let intent = MovementIntent { offset: Vector3::zero(), thrust: true };
    control_body(&mut body, &intent, Drive::SetVelocity, &mut channel);
    assert_eq!(body, origin_body());
    assert_eq!(channel.len(), 1);
}

#[test]
fn repeated_thrust_presses_in_one_frame_fire_once() {
    let mut sim = Simulation::new(origin_body(), MoveScheme::physics_2d(), Drive::SetVelocity, DEFAULT_LIFETIME_MICROS);
    let keys = vec![KeyEvent::pressed(Key::W), KeyEvent::pressed(Key::W)];
    let report = sim.step_frame(&keys, 0);
    assert_eq!(report.spawned.len(), 1);
    assert_eq!(sim.body.unwrap().velocity, Vector3::new(0, 1_000_000, 0));
}

#[test]
fn missing_body_is_a_silent_no_op() {
    let mut sim = Simulation::new(None, MoveScheme::physics_2d(), Drive::SetVelocity, DEFAULT_LIFETIME_MICROS);
    let report = sim.step_frame(&vec![KeyEvent::pressed(Key::W), KeyEvent::pressed(Key::D)], 16_000);
    assert!(sim.body.is_none());
    assert!(report.spawned.is_empty());
    assert_eq!(sim.emitters.len(), 0);
}

#[test]
fn velocity_is_replaced_not_accumulated() {
    let mut sim = Simulation::new(origin_body(), MoveScheme::physics_2d(), Drive::SetVelocity, DEFAULT_LIFETIME_MICROS);
    sim.step_frame(&vec![KeyEvent::pressed(Key::D)], 16_000);
    assert_eq!(sim.body.unwrap().velocity, Vector3::new(100_000, 0, 0));
    sim.step_frame(&vec![KeyEvent::pressed(Key::D)], 16_000);
    assert_eq!(sim.body.unwrap().velocity, Vector3::new(100_000, 0, 0));
    sim.step_frame(&vec![KeyEvent::pressed(Key::A)], 16_000);
    assert_eq!(sim.body.unwrap().velocity, Vector3::new(-100_000, 0, 0));
    assert_eq!(sim.body.unwrap().position, Vector3::zero());
    sim.step_frame(&vec![], 16_000);
    assert_eq!(sim.body.unwrap().velocity, Vector3::new(-100_000, 0, 0));
}

#[test]
fn released_and_unknown_keys_are_ignored() {
    let scheme = MoveScheme::sprite_2d();
    let keys = vec![
        KeyEvent::released(Key::W),
        KeyEvent::pressed(Key::Other),
        KeyEvent::pressed(Key::Q),
        KeyEvent::pressed(Key::S),
    ];
    let intent = scheme.sample_intent(&keys);
    assert_eq!(intent.offset, Vector3::new(0, -10_000, 0));
    assert!(!intent.thrust);
    let physics = MoveScheme::physics_2d();
    assert!(!physics.sample_intent(&vec![KeyEvent::released(Key::W)]).thrust);
    assert!(physics.sample_intent(&vec![]).offset.is_zero());
}

#[test]
fn cube_scheme_moves_on_all_three_axes() {
    let scheme = MoveScheme::cube_3d();
    let keys = vec![
        KeyEvent::pressed(Key::W),
        KeyEvent::pressed(Key::W),
        KeyEvent::pressed(Key::Q),
        KeyEvent::pressed(Key::D),
        KeyEvent::pressed(Key::E),
        KeyEvent::pressed(Key::E),
    ];
    assert_eq!(scheme.sample_intent(&keys).offset, Vector3::new(100, -100, 200));
    assert_eq!(scheme.delta(Key::S), Vector3::new(0, 0, -100));
}

#[test]
fn translation_that_would_overflow_is_skipped() {
    let far = ControlledBody::at_rest(Vector3::new(0, i64::MAX - 5, 0));
    let mut body = Some(far);
    let mut channel = EventChannel::new();
    let intent = MoveScheme::sprite_2d().sample_intent(&vec![KeyEvent::pressed(Key::W)]);
    control_body(&mut body, &intent, Drive::Translate, &mut channel);
    assert_eq!(body, Some(far));
    assert_eq!(Vector3::new(1, 2, 3).checked_add(&Vector3::new(i64::MAX, 0, 0)), None);
    assert_eq!(Vector3::new(1, 2, 3).checked_add(&Vector3::new(-1, 5, 0)), Some(Vector3::new(0, 7, 3)));
}

#[test]
fn several_emitters_expire_in_one_frame() {
    let mut set = EmitterSet::new(100);
    let mut channel = EventChannel::new();
    channel.send(ThrusterFired { position: Vector3::zero() });
    set.spawn_from(&mut channel);
    set.reap(40);
    channel.send(ThrusterFired { position: Vector3::zero() });
    channel.send(ThrusterFired { position: Vector3::zero() });
    set.spawn_from(&mut channel);
    let gone = set.reap(60);
    assert_eq!(gone, vec![0]);
    assert_eq!(set.len(), 2);
    assert_eq!(set.get(0).remaining, 40);
    let gone = set.reap(u64::MAX);
    assert_eq!(gone, vec![1, 2]);
    assert_eq!(set.len(), 0);
    assert_eq!(set.lifetime_micros(), 100);
}

#[test]
fn orbit_phase_wraps_after_a_full_turn() {
    assert_eq!(advance_orbit_phase(0), 1);
    assert_eq!(advance_orbit_phase(358), 359);
    assert_eq!(advance_orbit_phase(359), 0);
    assert_eq!(advance_orbit_phase(u32::MAX), 0);
}
