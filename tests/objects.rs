use solar_sailer::mode_button::ButtonLocation;
use solar_sailer::object_set::{QueryEvent, ReactiveObjectSet, SetChange};
use solar_sailer::vector::Vec3i;
use solar_sailer::zone_movement::{ZoneEvent, ZoneMovement};

#[test]
fn new_match_joins_then_modified_refreshes() {
    let mut set: ReactiveObjectSet<u32> = ReactiveObjectSet::new();
    assert!(matches!(set.handle_event(QueryEvent::NewMatch(5, 50)), SetChange::Parent(5)));
    assert!(set.confirm_parent(5, true));
    assert!(matches!(set.handle_event(QueryEvent::Modified(5, 51)), SetChange::Refreshed(5)));
    assert_eq!(set.handle(5), Some(&51));
    assert!(set.is_parented(5));
    assert_eq!(set.len(), 1);
    assert!(matches!(set.handle_event(QueryEvent::Modified(6, 60)), SetChange::Parent(6)));
    assert!(!set.is_parented(6));
    assert_eq!(set.ids(), vec![5, 6]);
}

#[test]
fn repeated_match_of_unattached_object_asks_parenting_again() {
    let mut set: ReactiveObjectSet<u32> = ReactiveObjectSet::new();
    assert!(matches!(set.handle_event(QueryEvent::NewMatch(1, 10)), SetChange::Parent(1)));
    assert!(set.confirm_parent(1, false));
    assert!(matches!(set.handle_event(QueryEvent::NewMatch(1, 11)), SetChange::Parent(1)));
    assert!(set.confirm_parent(1, true));
    assert!(set.is_parented(1));
    assert!(matches!(set.handle_event(QueryEvent::NewMatch(1, 12)), SetChange::Refreshed(1)));
    assert_eq!(set.len(), 1);
}

#[test]
fn match_lost_of_unattached_object_needs_no_unparent() {
    let mut set: ReactiveObjectSet<u32> = ReactiveObjectSet::new();
    set.handle_event(QueryEvent::NewMatch(1, 10));
    assert!(set.confirm_parent(1, false));
    assert!(matches!(set.handle_event(QueryEvent::MatchLost(1)), SetChange::Forgotten));
    assert!(!set.contains(1));
    assert_eq!(set.handle(1), None);
    assert!(!set.confirm_parent(1, true));
}

#[test]
fn drain_of_empty_set_is_empty() {
    let mut set: ReactiveObjectSet<u32> = ReactiveObjectSet::new();
    assert!(set.drain_attached().is_empty());
}

#[test]
fn zone_captures_at_rest_and_releases_when_moving() {
    let mut zone: ZoneMovement<&str> = ZoneMovement::new(12);
    zone.update_zone(ZoneEvent::Enter(1, "a"));
    zone.update_zone(ZoneEvent::Enter(2, "b"));
    zone.update_zone(ZoneEvent::Capture(2, "b"));
    zone.set_velocity(Vec3i::new(3, 0, 0));
    let plan = zone.apply_offset(1_000_000);
    assert_eq!(plan.capture, vec![1]);
    assert!(plan.release.is_empty());
    assert_eq!(plan.nudge, Vec3i::new(0, 0, 0));
    zone.set_velocity(Vec3i::new(4_000, 0, 0));
    let plan = zone.apply_offset(500_000);
    assert!(plan.capture.is_empty());
    assert_eq!(plan.release, vec![2]);
    assert_eq!(plan.nudge, Vec3i::new(2_000, 0, 0));
    zone.update_zone(ZoneEvent::Release(2));
    zone.update_zone(ZoneEvent::Leave(1));
    zone.set_velocity(Vec3i::new(0, 0, 0));
    let plan = zone.apply_offset(500_000);
    assert_eq!(plan.capture, vec![2]);
    assert!(plan.release.is_empty());
}

#[test]
fn button_endpoints_by_location() {
    let hand = ButtonLocation::Hand.endpoints();
    assert_eq!(hand.destination, "org.stardustxr.Hands");
    assert_eq!(hand.spatial_path, "/org/stardustxr/Hand/right/palm");
    assert_eq!(hand.tracked_path, "/org/stardustxr/Hand/right");
    let controller = ButtonLocation::Controller.endpoints();
    assert_eq!(controller.destination, "org.stardustxr.Controllers");
    assert_eq!(controller.spatial_path, "/org/stardustxr/Controller/right");
    assert_eq!(ButtonLocation::Hand.button_offset(), Vec3i::new(0, -20_000, 30_000));
    assert_eq!(ButtonLocation::Controller.button_offset(), Vec3i::new(0, 10_000, 20_000));
}
