use contour_control::decoder::ContourEvents;
use contour_control::decoder::SystemState;
use contour_control::policy::ContourAction;
use contour_control::policy::VK_OEM_4;
use contour_control::policy::VK_OEM_6;
use contour_control::policy::VK_OEM_PLUS;
use contour_control::policy::VK_SPACE;

#[test]
fn jog_backward_taps_left_bracket() {
    let mut s = SystemState::new();
    let acts = s.react(ContourEvents::Jog(-1));
    assert_eq!(acts, vec![ContourAction::PressKey(VK_OEM_4)]);
}

#[test]
fn jog_forward_taps_right_bracket() {
    let mut s = SystemState::new();
    let acts = s.react(ContourEvents::Jog(7));
    assert_eq!(acts, vec![ContourAction::PressKey(VK_OEM_6)]);
}

#[test]
fn jog_at_rest_does_nothing() {
    let mut s = SystemState::new();
    assert_eq!(s.react(ContourEvents::Jog(0)), vec![]);
}

#[test]
fn wheel_scrolls_by_current_speed() {
    let mut s = SystemState::new();
    assert_eq!(
        s.react(ContourEvents::WheelLeft),
        vec![ContourAction::ScrollLeft(1)]
    );
    let acts = s.react(ContourEvents::ButtonUp(2));
    assert_eq!(acts, vec![ContourAction::NotifyScrollSpeed(4)]);
    assert_eq!(s.scroll_zoom, 2);
    assert_eq!(
        s.react(ContourEvents::WheelRight),
        vec![ContourAction::ScrollRight(4)]
    );
}

#[test]
fn speed_buttons_select_every_index() {
    let mut s = SystemState::new();
    for b in 0u16..4 {
        let acts = s.react(ContourEvents::ButtonUp(b));
        assert_eq!(acts, vec![ContourAction::NotifyScrollSpeed(1 << b)]);
        assert_eq!(s.scroll_zoom, b as u8);
    }
}

#[test]
fn button_six_release_taps_space() {
    let mut s = SystemState::new();
    let acts = s.react(ContourEvents::ButtonUp(6));
    assert_eq!(acts, vec![ContourAction::PressKey(VK_SPACE)]);
}

#[test]
fn playback_reset_buttons_tap_plus_and_notify() {
    let mut s = SystemState::new();
    for b in [13u16, 14] {
        let acts = s.react(ContourEvents::ButtonUp(b));
        assert_eq!(
            acts,
            vec![
                ContourAction::PressKey(VK_OEM_PLUS),
                ContourAction::NotifyPlaybackNormal,
            ]
        );
    }
}

#[test]
fn unmapped_button_release_does_nothing() {
    let mut s = SystemState::new();
    assert_eq!(s.react(ContourEvents::ButtonUp(9)), vec![]);
    assert_eq!(s.scroll_zoom, 0);
}

#[test]
fn button_presses_never_act() {
    let mut s = SystemState::new();
    assert_eq!(s.react(ContourEvents::ButtonDown(2)), vec![]);
    assert_eq!(s.scroll_zoom, 0);
}

#[test]
fn react_leaves_tracked_report_alone() {
    let mut s = SystemState::new();
    let before = s.last;
    s.react(ContourEvents::ButtonUp(3));
    assert_eq!(s.last, before);
}
