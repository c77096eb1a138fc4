use solar_sailer::input::{
    generate_signifier, GrabConfig, GrabEdge, GrabInput, Input, InputSample, Signal,
    SourceKind, Tint,
};
use solar_sailer::solar_sailer::Mode;
use solar_sailer::vector::Vec3i;

fn hand(id: u64, x: i64, strength: u32) -> InputSample {
    InputSample {
        id,
        kind: SourceKind::Hand,
        position: Vec3i::new(x, 0, 0),
        signal: Signal::Strength(strength),
    }
}

fn tracker() -> GrabInput {
    GrabInput::new(GrabConfig::standard())
}

#[test]
fn grab_starts_above_engage_threshold() {
    let mut g = tracker();
    g.handle_input(&vec![hand(1, 0, 900)]);
    assert_eq!(g.actor(), None);
    assert_eq!(g.edge(), GrabEdge::Idle);
    g.handle_input(&vec![hand(1, 0, 901)]);
    assert_eq!(g.actor().map(|s| s.id), Some(1));
    assert_eq!(g.edge(), GrabEdge::Started);
}

#[test]
fn grab_holds_between_thresholds() {
    let mut g = tracker();
    g.handle_input(&vec![hand(1, 0, 950)]);
    assert_eq!(g.edge(), GrabEdge::Started);
    for strength in [899, 800, 751, 750] {
        g.handle_input(&vec![hand(1, 0, strength)]);
        assert_eq!(g.actor().map(|s| s.id), Some(1));
        assert_eq!(g.edge(), GrabEdge::Acting);
    }
    g.handle_input(&vec![hand(1, 0, 749)]);
    assert_eq!(g.actor(), None);
    assert_eq!(g.edge(), GrabEdge::Stopped);
}

#[test]
fn grab_does_not_start_between_thresholds() {
    let mut g = tracker();
    for strength in [751, 800, 899, 900] {
        g.handle_input(&vec![hand(1, 0, strength)]);
        assert_eq!(g.actor(), None);
        assert_eq!(g.edge(), GrabEdge::Idle);
    }
}

#[test]
fn grab_single_actor_among_many() {
    let mut g = tracker();
    g.handle_input(&vec![hand(1, 0, 1000), hand(2, 0, 1000), hand(3, 0, 100)]);
    assert_eq!(g.actor().map(|s| s.id), Some(1));
    let hovering: Vec<u64> = g.hovering().iter().map(|s| s.id).collect();
    assert_eq!(hovering, vec![2, 3]);
    // the actor is sticky even when the other source is stronger
    g.handle_input(&vec![hand(2, 0, 1000), hand(1, 0, 800)]);
    assert_eq!(g.actor().map(|s| s.id), Some(1));
    let hovering: Vec<u64> = g.hovering().iter().map(|s| s.id).collect();
    assert_eq!(hovering, vec![2]);
}

#[test]
fn grab_actor_kept_at_release_threshold_while_other_engages() {
    let mut g = tracker();
    g.handle_input(&vec![hand(1, 0, 950)]);
    g.handle_input(&vec![hand(2, 0, 1000), hand(1, 0, 750)]);
    assert_eq!(g.actor().map(|s| s.id), Some(1));
    assert_eq!(g.edge(), GrabEdge::Acting);
}

#[test]
fn grab_stops_when_actor_disappears() {
    let mut g = tracker();
    g.handle_input(&vec![hand(1, 0, 1000)]);
    g.handle_input(&vec![hand(2, 0, 1000)]);
    assert_eq!(g.actor(), None);
    assert_eq!(g.edge(), GrabEdge::Stopped);
    g.handle_input(&vec![hand(2, 0, 1000)]);
    assert_eq!(g.actor().map(|s| s.id), Some(2));
    assert_eq!(g.edge(), GrabEdge::Started);
}

#[test]
fn grab_ignores_pointers() {
    let mut g = tracker();
    let ray = InputSample {
        id: 7,
        kind: SourceKind::Pointer,
        position: Vec3i::new(0, 0, 0),
        signal: Signal::Strength(1000),
    };
    g.handle_input(&vec![ray]);
    assert_eq!(g.actor(), None);
    assert!(g.hovering().is_empty());
}

#[test]
fn grab_pinch_distance_hysteresis() {
    let mut g = tracker();
    let pinch = |d: u64| InputSample {
        id: 4,
        kind: SourceKind::Tip,
        position: Vec3i::new(0, 0, 0),
        signal: Signal::Distance(d),
    };
    g.handle_input(&vec![pinch(30_000)]);
    assert_eq!(g.actor(), None);
    g.handle_input(&vec![pinch(29_999)]);
    assert_eq!(g.actor().map(|s| s.id), Some(4));
    g.handle_input(&vec![pinch(45_000)]);
    assert_eq!(g.actor().map(|s| s.id), Some(4));
    g.handle_input(&vec![pinch(45_001)]);
    assert_eq!(g.actor(), None);
}

#[test]
fn waft_zero_when_source_still() {
    let mut g = tracker();
    g.handle_input(&vec![hand(1, 5_000, 1000)]);
    assert_eq!(g.waft(), None);
    g.handle_input(&vec![hand(1, 5_000, 1000)]);
    assert_eq!(g.waft(), None);
}

#[test]
fn waft_measures_from_last_frame() {
    let mut g = tracker();
    g.handle_input(&vec![hand(1, 1_000, 1000)]);
    assert_eq!(g.waft(), None);
    g.handle_input(&vec![hand(1, 3_000, 1000)]);
    assert_eq!(g.waft(), Some(Vec3i::new(2_000, 0, 0)));
    g.handle_input(&vec![hand(1, 6_000, 1000)]);
    assert_eq!(g.waft(), Some(Vec3i::new(3_000, 0, 0)));
    g.handle_input(&vec![hand(1, 6_000, 1000)]);
    assert_eq!(g.waft(), None);
    // letting go clears the previous position
    g.handle_input(&vec![hand(1, 6_000, 0)]);
    assert_eq!(g.waft(), None);
    g.handle_input(&vec![hand(1, 9_000, 1000)]);
    assert_eq!(g.waft(), None);
    g.handle_input(&vec![hand(1, 8_000, 1000)]);
    assert_eq!(g.waft(), Some(Vec3i::new(-1_000, 0, 0)));
}

#[test]
fn signifiers_follow_mode() {
    let mut input = Input::Grab(tracker());
    input.handle_input(&vec![hand(1, 0, 1000), hand(2, 0, 0)]);
    let rings = input.update_signifiers(Mode::MonadoOffset);
    assert_eq!(rings.len(), 2);
    assert_eq!(rings[0].source, 2);
    assert_eq!(rings[0].tint, Tint::Offset);
    assert_eq!(rings[0].radius, 100_000);
    assert_eq!(rings[1].source, 1);
    assert_eq!(rings[1].tint, Tint::Grabbing);
    let rings = input.update_signifiers(Mode::Reparent);
    assert_eq!(rings[0].tint, Tint::Plain);
    assert!(input.update_signifiers(Mode::Disabled).is_empty());
}

#[test]
fn signifier_radius_by_kind() {
    let tip = InputSample {
        id: 3,
        kind: SourceKind::Tip,
        position: Vec3i::new(0, 0, 0),
        signal: Signal::Strength(0),
    };
    let ring = generate_signifier(&tip, false, Mode::Reparent);
    assert_eq!(ring.radius, 2_500);
    assert_eq!(ring.tint, Tint::Plain);
}

#[test]
fn grab_precision_strength_hysteresis() {
    let mut g = tracker();
    let precise = |v: u32| InputSample {
        id: 6,
        kind: SourceKind::Hand,
        position: Vec3i::new(0, 0, 0),
        signal: Signal::PrecisionStrength(v),
    };
    g.handle_input(&vec![precise(800)]);
    assert_eq!(g.actor(), None);
    g.handle_input(&vec![precise(801)]);
    assert_eq!(g.actor().map(|s| s.id), Some(6));
    g.handle_input(&vec![precise(650)]);
    assert_eq!(g.edge(), GrabEdge::Acting);
    g.handle_input(&vec![precise(649)]);
    assert_eq!(g.edge(), GrabEdge::Stopped);
}

#[test]
fn standard_config_thresholds() {
    let cfg = GrabConfig::standard();
    assert_eq!((cfg.hand.engage, cfg.hand.release), (900, 750));
    assert_eq!((cfg.tip.engage, cfg.tip.release), (900, 750));
    assert_eq!((cfg.precision.engage, cfg.precision.release), (800, 650));
    assert_eq!((cfg.pinch.engage, cfg.pinch.release), (30_000, 45_000));
}
