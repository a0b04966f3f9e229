use better_aim_assist::controller::ControllerType;
use better_aim_assist::gamepad::{
    advance_tick, apply_jitter, hid_frame, jitter_axis, stick_idle, xinput_frame, Gamepad, AXIS_MAX, AXIS_MIN,
};
use better_aim_assist::polling::{handle_f5_toggle, key_is_down, HidLoop, HidStep, PollAction, XInputLoop};

fn pad(lx: i16, ly: i16, lt: u8) -> Gamepad {
    Gamepad { buttons: 0x1001, left_trigger: lt, right_trigger: 7, thumb_lx: lx, thumb_ly: ly, thumb_rx: -5, thumb_ry: 9 }
}

#[test]
fn dead_zone_edges() {
    assert!(stick_idle(7999, -7999));
    assert!(!stick_idle(8000, 0));
    assert!(!stick_idle(0, -8000));
    assert!(!stick_idle(-32768, 0));
}

#[test]
fn jitter_alternates_extremes() {
    assert_eq!(jitter_axis(0), AXIS_MIN);
    assert_eq!(jitter_axis(1), AXIS_MAX);
    assert_eq!(jitter_axis(u64::MAX), AXIS_MAX);
    assert_eq!(jitter_axis(advance_tick(u64::MAX)), AXIS_MIN);
    assert_eq!(advance_tick(u64::MAX), 0);
    assert_eq!(advance_tick(41), 42);
}

#[test]
fn jitter_replaces_only_left_x_when_enabled() {
    let p = pad(100, -200, 0);
    let out = apply_jitter(p, true, false, 3);
    assert_eq!(out, Gamepad { thumb_lx: AXIS_MAX, ..p });
}

#[test]
fn moved_stick_is_never_jittered() {
    let p = pad(9000, 0, 255);
    assert_eq!(apply_jitter(p, true, true, 0), p);
    let q = pad(0, -12000, 0);
    assert_eq!(apply_jitter(q, true, false, 1), q);
}

#[test]
fn l2_activates_jitter_while_switch_is_off() {
    let held = pad(0, 0, 31);
    assert_eq!(xinput_frame(held, false, 2).thumb_lx, AXIS_MIN);
    let light = pad(0, 0, 30);
    assert_eq!(xinput_frame(light, false, 2), light);
    assert_eq!(apply_jitter(light, false, false, 2), light);
}

#[test]
fn hid_frames() {
    let short = [0x01u8, 0x80, 0x80, 0x80, 0x80, 0x08, 0, 0, 0];
    assert_eq!(hid_frame(ControllerType::DualShock4, &short, true, 0), None);
    let report = [0x01u8, 0x80, 0x80, 0xFF, 0x80, 0x28, 0x00, 0x00, 0, 0];
    assert_eq!(hid_frame(ControllerType::Xbox, &report, true, 0), None);
    let frame = hid_frame(ControllerType::DualShock4, &report, true, 1).unwrap();
    assert_eq!(frame, Gamepad { buttons: 0x1000, left_trigger: 0, right_trigger: 0, thumb_lx: AXIS_MAX, thumb_ly: 0, thumb_rx: 32767, thumb_ry: 0 });
    let off = hid_frame(ControllerType::DualShock4, &report, false, 1).unwrap();
    assert_eq!(off.thumb_lx, 0);
}

#[test]
fn xinput_loop_rescans_on_tenth_failure() {
    let mut l = XInputLoop::new(1);
    for _ in 0..9 {
        assert_eq!(l.on_poll(None, true), PollAction::Retry);
    }
    assert_eq!(l.on_poll(None, true), PollAction::Rescan);
    assert_eq!(l.on_poll(None, true), PollAction::Rescan);
    l.on_rescan(None);
    assert_eq!(l.errors, 11);
    assert_eq!(l.slot, 1);
    l.on_rescan(Some(3));
    assert_eq!((l.slot, l.errors), (3, 0));
}

#[test]
fn xinput_loop_success_resets_and_oscillates() {
    let mut l = XInputLoop::new(0);
    assert_eq!(l.on_poll(None, true), PollAction::Retry);
    let p = pad(0, 0, 0);
    assert_eq!(l.on_poll(Some(p), true), PollAction::Forward(Gamepad { thumb_lx: AXIS_MIN, ..p }));
    assert_eq!(l.errors, 0);
    assert_eq!(l.on_poll(Some(p), true), PollAction::Forward(Gamepad { thumb_lx: AXIS_MAX, ..p }));
    assert_eq!(l.tick, 2);
}

#[test]
fn hid_loop_ticks_only_on_frames() {
    let mut l = HidLoop::new();
    let report = [0x01u8, 0x80, 0x80, 0x80, 0x80, 0x08, 0, 0, 0, 0];
    assert_eq!(l.on_read(ControllerType::DualSense, Some(&report[..5]), true), HidStep::Skip);
    assert_eq!(l.tick, 0);
    match l.on_read(ControllerType::DualSense, Some(&report), true) {
        HidStep::Send(f) => assert_eq!(f.thumb_lx, AXIS_MIN),
        other => panic!("unexpected {:?}", other),
    }
    match l.on_read(ControllerType::DualSense, Some(&report), true) {
        HidStep::Send(f) => assert_eq!(f.thumb_lx, AXIS_MAX),
        other => panic!("unexpected {:?}", other),
    }
    assert_eq!(l.tick, 2);
}

#[test]
fn hid_loop_read_error_releases_and_reconnects() {
    let mut l = HidLoop::new();
    assert!(l.on_opened());
    assert!(!l.on_opened());
    assert_eq!(l.on_read(ControllerType::DualShock4, None, true), HidStep::Reconnect(Gamepad::neutral()));
    assert_eq!(l.tick, 0);
    assert!(!l.on_opened());
}

#[test]
fn key_state_high_bit() {
    assert!(key_is_down(-32768));
    assert!(key_is_down(-32767));
    assert!(!key_is_down(1));
    assert!(!key_is_down(0));
}

#[test]
fn f5_press_toggles_once() {
    let mut enabled = false;
    let mut was_down = false;
    assert!(handle_f5_toggle(&mut enabled, &mut was_down, -32768));
    assert!(enabled && was_down);
    assert!(!handle_f5_toggle(&mut enabled, &mut was_down, -32768));
    assert!(enabled);
    assert!(!handle_f5_toggle(&mut enabled, &mut was_down, 0));
    assert!(enabled && !was_down);
    assert!(handle_f5_toggle(&mut enabled, &mut was_down, -32767));
    assert!(!enabled);
}

#[test]
fn f5_long_hold_flips_once_and_release_keeps() {
    let mut enabled = false;
    let mut was_down = false;
    let mut flips = 0;
    for _ in 0..50 {
        if handle_f5_toggle(&mut enabled, &mut was_down, -32768) { flips += 1; }
    }
    assert_eq!(flips, 1);
    assert!(enabled);
    assert!(!handle_f5_toggle(&mut enabled, &mut was_down, 0));
    assert!(enabled);
    for _ in 0..7 {
        handle_f5_toggle(&mut enabled, &mut was_down, -1);
    }
    handle_f5_toggle(&mut enabled, &mut was_down, 0);
    assert!(!enabled);
}
