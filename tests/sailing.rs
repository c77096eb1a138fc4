use solar_sailer::input::{GrabConfig, GrabInput, Input, InputSample, Signal, SourceKind};
use solar_sailer::monado_movement::apply_offset;
use solar_sailer::object_set::{QueryEvent, ReactiveObjectSet, SetChange};
use solar_sailer::reparentable_movement::ReparentMovement;
use solar_sailer::solar_sailer::{FramePlan, Mode, ModeCycle, Movement, SolarSailer};
use solar_sailer::vector::{scale_by_time, Vec3i, VELOCITY_LIMIT};
use solar_sailer::velocity::integrate;

const THRESHOLD: u128 = 500_000_000;

fn sailer(monado: bool) -> SolarSailer {
    let input = Input::Grab(GrabInput::new(GrabConfig::standard()));
    SolarSailer::new(input, monado, 77, THRESHOLD, ModeCycle::ActiveOnly)
}

fn hand_at(x: i64) -> InputSample {
    InputSample {
        id: 1,
        kind: SourceKind::Hand,
        position: Vec3i::new(x, 0, 0),
        signal: Signal::Strength(1000),
    }
}

/// `normalize(raw) * |raw|^0.9`, with lengths in metres.
fn shape(raw: Vec3i) -> Vec3i {
    let v = [raw.x as f64, raw.y as f64, raw.z as f64].map(|c| c / 1e6);
    let len = (v[0] * v[0] + v[1] * v[1] + v[2] * v[2]).sqrt();
    let scale = len.powf(0.9) / len;
    let [x, y, z] = v.map(|c| (c * scale * 1e6).round() as i64);
    Vec3i::new(x, y, z)
}

#[test]
fn velocity_decays_by_hundredth() {
    let v = Vec3i::new(1000, -1000, 0);
    let v = integrate(&v, None);
    assert_eq!(v, Vec3i::new(990, -990, 0));
    let v = integrate(&v, None);
    // 990 * 0.99 = 980.1, rounded toward zero
    assert_eq!(v, Vec3i::new(980, -980, 0));
}

#[test]
fn velocity_adds_offset_after_decay() {
    let v = integrate(&Vec3i::new(200, 0, 50), Some(Vec3i::new(10, 20, -100)));
    assert_eq!(v, Vec3i::new(208, 20, -51));
}

#[test]
fn velocity_is_clamped() {
    let v = integrate(&Vec3i::new(VELOCITY_LIMIT, 0, 0), Some(Vec3i::new(i64::MAX, i64::MIN, 0)));
    assert_eq!(v, Vec3i::new(VELOCITY_LIMIT, -VELOCITY_LIMIT, 0));
}

#[test]
fn velocity_decay_converges_to_zero() {
    let v0 = Vec3i::new(123_456, -7, 0);
    let mut v = v0;
    for n in 1..=2000u32 {
        v = integrate(&v, None);
        let bound = 123_456f64 * 0.99f64.powi(n as i32);
        assert!((v.x as f64) <= bound + 1e-9);
        assert!(v.x >= 0 && v.y <= 0);
    }
    assert_eq!(v, Vec3i::new(0, 0, 0));
}

#[test]
fn scale_by_time_rounds_toward_zero() {
    let m = scale_by_time(&Vec3i::new(1_000_000, -1_500_001, 7), 16_667);
    assert_eq!(m, Vec3i::new(16_667, -25_000, 0));
}

#[test]
fn monado_shifts_readable_origins() {
    let offsets = vec![Some(Vec3i::new(1, 2, 3)), None, Some(Vec3i::new(-5, 0, 0))];
    let shifted = apply_offset(&offsets, &Vec3i::new(10, -10, 0));
    assert_eq!(shifted, vec![Some(Vec3i::new(11, -8, 3)), None, Some(Vec3i::new(5, -10, 0))]);
}

#[test]
fn starts_in_reparent_without_runtime() {
    assert_eq!(sailer(false).current_mode(), Mode::Reparent);
    assert_eq!(sailer(true).current_mode(), Mode::MonadoOffset);
}

#[test]
fn mode_cycles() {
    let mut s = sailer(true);
    assert_eq!(s.next_mode(), Mode::Reparent);
    s.switch_mode(Mode::Reparent, &mut no_objects());
    assert_eq!(s.next_mode(), Mode::MonadoOffset);
    s.switch_mode(Mode::Disabled, &mut no_objects());
    assert_eq!(s.next_mode(), Mode::MonadoOffset);
    let input = Input::Grab(GrabInput::new(GrabConfig::standard()));
    let mut full = SolarSailer::new(input, true, 1, THRESHOLD, ModeCycle::Full);
    full.switch_mode(Mode::Disabled, &mut no_objects());
    assert_eq!(full.next_mode(), Mode::MonadoOffset);
    let next = full.next_mode();
    full.switch_mode(next, &mut no_objects());
    assert_eq!(full.next_mode(), Mode::Reparent);
    let next = full.next_mode();
    full.switch_mode(next, &mut no_objects());
    assert_eq!(full.next_mode(), Mode::Disabled);
}

fn no_objects() -> ReactiveObjectSet<u32> {
    ReactiveObjectSet::new()
}

fn spin_up(s: &mut SolarSailer) {
    s.update_velocity(Some(Vec3i::new(100_000, 0, 0)));
}

#[test]
fn monado_offset_shifts_against_velocity() {
    let mut s = sailer(true);
    spin_up(&mut s);
    let plan = s.apply_offset(10_000);
    assert_eq!(plan.movement, Movement::ShiftOrigins(Vec3i::new(-1_000, 0, 0)));
    assert!(!plan.engage_objects && !plan.release_objects);
}

#[test]
fn runtime_unavailable_offset_is_inert() {
    let mut s = sailer(false);
    s.switch_mode(Mode::MonadoOffset, &mut no_objects());
    let still = FramePlan { release_objects: false, engage_objects: false, movement: Movement::Still };
    for _ in 0..5 {
        spin_up(&mut s);
        assert_eq!(s.apply_offset(16_667), still);
    }
    for _ in 0..2000 {
        s.update_velocity(None);
        assert_eq!(s.apply_offset(16_667), still);
    }
}

#[test]
fn reparent_engages_moves_and_releases() {
    let mut s = sailer(false);
    let plan = s.apply_offset(10_000);
    assert_eq!(plan.movement, Movement::Still);
    spin_up(&mut s);
    let plan = s.apply_offset(10_000);
    assert!(plan.engage_objects);
    assert_eq!(plan.movement, Movement::MoveAnchor(Vec3i::new(1_000, 0, 0)));
    let plan = s.apply_offset(10_000);
    assert!(!plan.engage_objects);
    assert!(s.is_engaged());
    // 100000 * 0.99^n falls under sqrt(5e8) ~ 22361 after 150 frames
    let mut released = 0;
    for _ in 0..200 {
        s.update_velocity(None);
        let plan = s.apply_offset(10_000);
        if plan.release_objects {
            released += 1;
        }
    }
    assert_eq!(released, 1);
    assert!(!s.is_engaged());
    assert!(!s.is_moving());
}

#[test]
fn switching_away_releases_engaged_objects() {
    let mut s = sailer(false);
    spin_up(&mut s);
    s.apply_offset(10_000);
    assert!(s.is_engaged());
    let mut objects = no_objects();
    objects.handle_event(QueryEvent::NewMatch(1, 10));
    objects.confirm_parent(1, true);
    assert_eq!(s.switch_mode(Mode::MonadoOffset, &mut objects), vec![10]);
    assert!(!s.is_engaged());
    assert_eq!(objects.len(), 0);
    // leaving another mode releases nothing and leaves the set alone
    objects.handle_event(QueryEvent::NewMatch(2, 20));
    objects.confirm_parent(2, true);
    assert!(s.switch_mode(Mode::Reparent, &mut objects).is_empty());
    assert_eq!(objects.ids(), vec![2]);
}

#[test]
fn reparent_backend_threshold() {
    let mut r = ReparentMovement::new(5, THRESHOLD);
    let slow = r.apply_offset(1_000_000, &Vec3i::new(22_360, 0, 0));
    assert!(!slow.engage && slow.movement.is_none());
    let fast = r.apply_offset(1_000_000, &Vec3i::new(22_361, 0, 0));
    assert!(fast.engage);
    assert_eq!(fast.movement, Some(Vec3i::new(22_361, 0, 0)));
    assert!(r.stopped_moving());
    assert!(!r.stopped_moving());
    assert_eq!(r.anchor_id(), 5);
}

#[test]
fn leaving_reparent_unparents_each_attached_object() {
    let mut s = sailer(false);
    let mut objects: ReactiveObjectSet<String> = ReactiveObjectSet::new();
    spin_up(&mut s);
    assert!(s.apply_offset(10_000).engage_objects);
    for id in 0..4u64 {
        assert!(matches!(
            objects.handle_event(QueryEvent::NewMatch(id, format!("object {id}"))),
            SetChange::Parent(_)
        ));
        // one parent call fails; that object stays unattached
        assert!(objects.confirm_parent(id, id != 2));
    }
    let handles = s.switch_mode(Mode::MonadoOffset, &mut objects);
    assert_eq!(handles, vec!["object 0", "object 1", "object 3"]);
    assert!(!s.is_engaged());
    assert_eq!(objects.len(), 0);
}

#[test]
fn drag_moves_object_by_shaped_decayed_velocity() {
    // one second at 60 frames, the hand drags 10 cm along x
    let frames = 60;
    let dt_us = 16_667u32;
    let mut s = sailer(false);
    let mut objects: ReactiveObjectSet<&str> = ReactiveObjectSet::new();
    let mut object_position = Vec3i::new(0, 0, 0);
    let before = object_position;
    let mut expected_velocity = 0.0f64;
    let mut last_x = 0i64;
    let mut expected_position = 0.0f64;
    for frame in 0..=frames {
        let x = 100_000 * frame as i64 / frames as i64;
        s.handle_input(&vec![hand_at(x)]);
        let offset = s.waft().map(shape);
        let raw_m = (x - last_x) as f64 / 1e6;
        last_x = x;
        expected_velocity = expected_velocity * 0.99 + if frame == 0 { 0.0 } else { raw_m.powf(0.9) };
        s.update_velocity(offset);
        let plan = s.apply_offset(dt_us);
        if plan.engage_objects {
            objects.handle_event(QueryEvent::NewMatch(9, "crate"));
            assert!(objects.confirm_parent(9, true));
        }
        if let Movement::MoveAnchor(m) = plan.movement {
            expected_position += expected_velocity * dt_us as f64 / 1e6;
            if objects.is_parented(9) {
                object_position = Vec3i::new(
                    object_position.x + m.x,
                    object_position.y + m.y,
                    object_position.z + m.z,
                );
            }
        }
    }
    let moved = object_position.x - before.x;
    assert_eq!((object_position.y, object_position.z), (0, 0));
    assert!(moved > 0);
    assert_ne!(moved, 100_000);
    let expected_um = expected_position * 1e6;
    assert!((moved as f64 - expected_um).abs() <= expected_um * 0.01 + 100.0);
}

#[test]
fn lost_object_is_unparented_once_and_left_behind() {
    let mut s = sailer(false);
    let mut objects: ReactiveObjectSet<&str> = ReactiveObjectSet::new();
    spin_up(&mut s);
    assert!(s.apply_offset(10_000).engage_objects);
    objects.handle_event(QueryEvent::NewMatch(1, "lamp"));
    objects.handle_event(QueryEvent::NewMatch(2, "chair"));
    objects.confirm_parent(1, true);
    objects.confirm_parent(2, true);
    // mid-drag the lamp disappears
    match objects.handle_event(QueryEvent::MatchLost(1)) {
        SetChange::Detach(id, handle) => {
            assert_eq!(id, 1);
            assert_eq!(handle, "lamp");
        }
        _ => panic!("an attached object must be detached"),
    }
    assert!(!objects.contains(1));
    assert!(matches!(objects.handle_event(QueryEvent::MatchLost(1)), SetChange::Forgotten));
    s.update_velocity(None);
    assert!(matches!(s.apply_offset(10_000).movement, Movement::MoveAnchor(_)));
    assert_eq!(objects.ids(), vec![2]);
    assert_eq!(objects.drain_attached(), vec!["chair"]);
}
