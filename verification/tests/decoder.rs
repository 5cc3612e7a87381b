use contour_control::decoder::ContourEvents;
use contour_control::decoder::SystemState;
use contour_control::report::ContourHidEvent;

fn report(jog: i8, wheel: u8, keys: u16) -> ContourHidEvent {
    ContourHidEvent { id: 0, jog, wheel, fill: 0, keys }
}

/// A tracker that has already converged on `r`: the sentinel was replaced by
/// one update whose events are discarded.
fn converged(r: ContourHidEvent) -> SystemState {
    let mut s = SystemState::new();
    s.update(r);
    s
}

#[test]
fn first_report_emits_no_wheel_event() {
    let mut s = SystemState::new();
    let evts = s.update(report(0, 123, 0));
    assert_eq!(evts, vec![]);
}

#[test]
fn first_report_still_emits_jog_and_buttons() {
    let mut s = SystemState::new();
    let evts = s.update(report(3, 200, 0x1));
    assert_eq!(
        evts,
        vec![ContourEvents::Jog(3), ContourEvents::ButtonDown(0)]
    );
}

#[test]
fn repeated_report_is_silent() {
    let a = ContourHidEvent { id: 0, jog: 5, wheel: 77, fill: 9, keys: 0x25 };
    let mut s = SystemState::new();
    s.update(a);
    let evts = s.update(a);
    assert_eq!(evts, vec![]);
}

#[test]
fn second_report_with_changed_wheel_emits() {
    let mut s = SystemState::new();
    let first = s.update(report(0, 100, 0));
    assert_eq!(first, vec![]);
    let second = s.update(report(0, 101, 0));
    assert_eq!(second, vec![ContourEvents::WheelRight]);
}

#[test]
fn wheel_wraparound_right() {
    let mut s = converged(report(0, 255, 0));
    let evts = s.update(report(0, 0, 0));
    assert_eq!(evts, vec![ContourEvents::WheelRight]);
}

#[test]
fn wheel_wraparound_left() {
    let mut s = converged(report(0, 0, 0));
    let evts = s.update(report(0, 255, 0));
    assert_eq!(evts, vec![ContourEvents::WheelLeft]);
}

#[test]
fn wheel_small_steps() {
    let mut s = converged(report(0, 10, 0));
    assert_eq!(s.update(report(0, 11, 0)), vec![ContourEvents::WheelRight]);
    assert_eq!(s.update(report(0, 10, 0)), vec![ContourEvents::WheelLeft]);
}

#[test]
fn wheel_half_turn_edges() {
    // A raw difference of exactly +128 is not folded and counts as rightward;
    // exactly -128 is not folded either and counts as leftward.
    let mut s = converged(report(0, 0, 0));
    assert_eq!(s.update(report(0, 128, 0)), vec![ContourEvents::WheelRight]);
    let mut s = converged(report(0, 128, 0));
    assert_eq!(s.update(report(0, 0, 0)), vec![ContourEvents::WheelLeft]);
}

#[test]
fn button_three_pressed() {
    let mut s = converged(report(0, 7, 0));
    let evts = s.update(report(0, 7, 0x8));
    assert_eq!(evts, vec![ContourEvents::ButtonDown(3)]);
    assert_eq!(s.last.keys, 0x8);
}

#[test]
fn jog_change_and_button_release_in_order() {
    let mut s = converged(report(0, 7, 0x40));
    let evts = s.update(report(2, 7, 0));
    assert_eq!(
        evts,
        vec![ContourEvents::Jog(2), ContourEvents::ButtonUp(6)]
    );
}

#[test]
fn high_key_bit_toggle_emits_nothing() {
    let mut s = converged(report(0, 7, 0));
    assert_eq!(s.update(report(0, 7, 0x8000)), vec![]);
    assert_eq!(s.last.keys, 0x8000);
    assert_eq!(s.update(report(0, 7, 0)), vec![]);
}

#[test]
fn all_fifteen_buttons_down_in_order() {
    let mut s = converged(report(0, 0, 0));
    let evts = s.update(report(0, 0, 0x7FFF));
    let expected: Vec<ContourEvents> =
        (0u16..15).map(ContourEvents::ButtonDown).collect();
    assert_eq!(evts, expected);
}

#[test]
fn mixed_button_edges_low_to_high() {
    let mut s = converged(report(0, 0, 0b101));
    let evts = s.update(report(0, 0, 0b011));
    assert_eq!(
        evts,
        vec![ContourEvents::ButtonDown(1), ContourEvents::ButtonUp(2)]
    );
}

#[test]
fn jog_event_carries_absolute_value() {
    let mut s = converged(report(2, 0, 0));
    let evts = s.update(report(-3, 0, 0));
    assert_eq!(evts, vec![ContourEvents::Jog(-3)]);
}

#[test]
fn update_replaces_whole_report() {
    let mut s = SystemState::new();
    let r = ContourHidEvent { id: 0, jog: -1, wheel: 44, fill: 0xAB, keys: 0x11 };
    s.update(r);
    assert_eq!(s.last, r);
    assert_eq!(s.scroll_zoom, 0);
}
