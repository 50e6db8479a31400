use cg_util::navigator::MouseButton;
use cg_util::navigator::Navigator;
use cg_util::navigator::PointerEvent;

fn moved(x: i32, y: i32) -> PointerEvent {
    PointerEvent::Moved { x, y }
}

#[test]
fn defaults() {
    let n = Navigator::default();
    assert_eq!(n.phi(), 75);
    assert_eq!(n.theta(), 175);
    assert_eq!(n.zoom(), 0);
    assert_eq!(n.distance(), 5);
    assert_eq!(n.pixels_per_revolution(), 500);
    assert_eq!(n.pixels_per_double_distance(), 200);
}

#[test]
fn new_wraps_phi_and_clamps_theta() {
    let n = Navigator::new(-1, 900, 3, 400, 100);
    assert_eq!(n.phi(), 799);
    assert_eq!(n.theta(), 400);
    let n = Navigator::new(1601, -5, 3, 400, 100);
    assert_eq!(n.phi(), 1);
    assert_eq!(n.theta(), 0);
    let n = Navigator::new(i64::MIN, 10, 3, 400, 100);
    assert_eq!(n.phi(), (i64::MIN as i128).rem_euclid(800) as i64);
}

#[test]
fn quarter_revolution_drag_turns_phi_by_a_quarter_turn() {
    let mut n = Navigator::default();
    n.handle_event(PointerEvent::Pressed(MouseButton::Left));
    n.handle_event(moved(125, 0));
    // dx = anchor - new = -125 pixels: a quarter turn, -π/2, which is
    // 1.65π after wrapping 0.15π - 0.5π into [0, 2π).
    assert_eq!(n.phi(), 825);
    assert_eq!((n.phi() - 75).rem_euclid(1000), 750);
    assert_eq!(n.theta(), 175);
    assert_eq!(n.zoom(), 0);
    assert_eq!(n.distance(), 5);
}

#[test]
fn quarter_revolution_drag_the_other_way() {
    let mut n = Navigator::default();
    n.handle_event(moved(125, 0));
    n.handle_event(PointerEvent::Pressed(MouseButton::Left));
    n.handle_event(moved(0, 0));
    assert_eq!(n.phi(), 75 + 250);
    assert_eq!(n.theta(), 175);
}

#[test]
fn rotation_uses_the_rolling_delta() {
    let mut n = Navigator::new(0, 100, 5, 500, 200);
    n.handle_event(moved(10, 10));
    n.handle_event(PointerEvent::Pressed(MouseButton::Left));
    n.handle_event(moved(7, 12));
    assert_eq!(n.phi(), 6);
    assert_eq!(n.theta(), 96);
    n.handle_event(moved(5, 12));
    assert_eq!(n.phi(), 10);
    assert_eq!(n.theta(), 96);
}

#[test]
fn release_stops_rotation() {
    let mut n = Navigator::default();
    n.handle_event(PointerEvent::Pressed(MouseButton::Left));
    n.handle_event(PointerEvent::Released(MouseButton::Left));
    n.handle_event(moved(300, -40));
    assert_eq!(n.phi(), 75);
    assert_eq!(n.theta(), 175);
}

#[test]
fn zoom_drag_down_doubles_distance() {
    let mut n = Navigator::default();
    n.handle_event(moved(50, 50));
    n.handle_event(PointerEvent::Pressed(MouseButton::Right));
    n.handle_event(moved(50, 250));
    assert_eq!(n.zoom(), 200);
    let distance = n.distance() as f64 * 2f64.powf(n.zoom() as f64 / n.pixels_per_double_distance() as f64);
    assert!((distance - 10.0).abs() < 1e-9);
    assert_eq!(n.phi(), 75);
    assert_eq!(n.theta(), 175);
}

#[test]
fn zoom_drag_up_halves_distance() {
    let mut n = Navigator::default();
    n.handle_event(PointerEvent::Pressed(MouseButton::Right));
    n.handle_event(moved(0, -200));
    assert_eq!(n.zoom(), -200);
    let distance = n.distance() as f64 * 2f64.powf(n.zoom() as f64 / n.pixels_per_double_distance() as f64);
    assert!((distance - 2.5).abs() < 1e-9);
}

#[test]
fn rotation_and_zoom_together() {
    let mut n = Navigator::default();
    n.handle_event(PointerEvent::Pressed(MouseButton::Left));
    n.handle_event(PointerEvent::Pressed(MouseButton::Right));
    n.handle_event(moved(-10, 20));
    assert_eq!(n.phi(), 95);
    assert_eq!(n.theta(), 135);
    assert_eq!(n.zoom(), 20);
    n.handle_event(PointerEvent::Released(MouseButton::Right));
    n.handle_event(moved(-10, 30));
    assert_eq!(n.theta(), 115);
    assert_eq!(n.zoom(), 20);
}

#[test]
fn theta_is_clamped_for_any_drag() {
    let mut n = Navigator::default();
    n.handle_event(PointerEvent::Pressed(MouseButton::Left));
    n.handle_event(moved(0, i32::MIN));
    assert_eq!(n.theta(), 500);
    n.handle_event(moved(0, i32::MAX));
    assert_eq!(n.theta(), 0);
    for step in 0..1000 {
        let y = if step % 2 == 0 { 1_000_000 } else { -1_000_000 };
        n.handle_event(moved(step, y));
        assert!(n.theta() >= 0 && n.theta() <= 500);
        assert!(n.phi() >= 0 && n.phi() < 1000);
    }
}

#[test]
fn other_buttons_change_nothing() {
    let mut n = Navigator::default();
    n.handle_event(PointerEvent::Pressed(MouseButton::Middle));
    n.handle_event(PointerEvent::Pressed(MouseButton::Other(7)));
    n.handle_event(moved(100, 100));
    assert_eq!(n.phi(), 75);
    assert_eq!(n.theta(), 175);
    assert_eq!(n.zoom(), 0);
}
