//! The virtual controller's input and the rule that makes its left stick
//! jitter; the decisions of the XInput and HID read loops; the F5 toggle.
use vstd::prelude::*;
use crate::controller::ControllerType;
use crate::report::{
    read_ds4, read_dualsense, spec_ps_axis, spec_ps_buttons, spec_read_ds4, spec_read_dualsense, PadReport,
    TRIGGER_HELD_ABOVE,
};

verus! {

/// Left-stick x value on even ticks of the jitter.
pub const AXIS_MIN: i16 = -32768;
/// Left-stick x value on odd ticks of the jitter.
pub const AXIS_MAX: i16 = 32767;
/// A stick counts as moved once either axis reaches this magnitude.
pub const STICK_DEADZONE: i32 = 8000;
/// Consecutive failed XInput polls after which the virtual controller is
/// released to neutral and the physical one looked for again.
pub const POLL_FAILURES_BEFORE_RESCAN: u32 = 10;
/// Shortest HID report that is decoded.
pub const MIN_HID_REPORT: usize = 10;

/// State of an Xbox 360 pad: button word, triggers and sticks.
#[derive(Clone, Copy, Debug, PartialEq, Eq, Structural)]
pub struct Gamepad {
    pub buttons: u16,
    pub left_trigger: u8,
    pub right_trigger: u8,
    pub thumb_lx: i16,
    pub thumb_ly: i16,
    pub thumb_rx: i16,
    pub thumb_ry: i16,
}

/// A pad with nothing pressed and both sticks centred.
pub open spec fn neutral_pad() -> Gamepad {
    Gamepad { buttons: 0, left_trigger: 0, right_trigger: 0, thumb_lx: 0, thumb_ly: 0, thumb_rx: 0, thumb_ry: 0 }
}

pub open spec fn abs(x: int) -> int {
    if x < 0 { -x } else { x }
}

/// Both left-stick axes are inside the dead zone.
pub open spec fn spec_stick_idle(lx: i16, ly: i16) -> bool {
    abs(lx as int) < STICK_DEADZONE && abs(ly as int) < STICK_DEADZONE
}

/// The jitter value for a tick: minimum on even ticks, maximum on odd ones.
pub open spec fn spec_jitter_axis(tick: u64) -> i16 {
    if tick % 2 == 0 { AXIS_MIN } else { AXIS_MAX }
}

/// Jitter runs while it is switched on or L2 is held, and the left stick is
/// not being moved.
pub open spec fn spec_jitter_on(enabled: bool, lt_held: bool, lx: i16, ly: i16) -> bool {
    (enabled || lt_held) && spec_stick_idle(lx, ly)
}

/// The pad forwarded to the virtual controller: the physical pad, with the
/// left stick's x axis replaced by the jitter value while jitter runs.
pub open spec fn spec_with_jitter(pad: Gamepad, enabled: bool, lt_held: bool, tick: u64) -> Gamepad {
    if spec_jitter_on(enabled, lt_held, pad.thumb_lx, pad.thumb_ly) {
        Gamepad { thumb_lx: spec_jitter_axis(tick), ..pad }
    } else {
        pad
    }
}

/// L2 counts as held past this left-trigger value.
pub open spec fn trigger_held(left_trigger: u8) -> bool {
    left_trigger > TRIGGER_HELD_ABOVE
}

/// The frame forwarded for an XInput pad: L2 is read from its left trigger.
pub open spec fn spec_xinput_frame(pad: Gamepad, enabled: bool, tick: u64) -> Gamepad {
    spec_with_jitter(pad, enabled, trigger_held(pad.left_trigger), tick)
}

/// The pad carried by a decoded PlayStation report.
pub open spec fn spec_pad_of(r: PadReport) -> Gamepad {
    Gamepad {
        buttons: r.6,
        left_trigger: r.4,
        right_trigger: r.5,
        thumb_lx: r.0,
        thumb_ly: r.1,
        thumb_rx: r.2,
        thumb_ry: r.3,
    }
}

/// The frame forwarded for a HID report of the given controller kind;
/// none for a report shorter than `MIN_HID_REPORT` or for an Xbox pad,
/// which is not read through HID.
pub open spec fn spec_hid_frame(ct: ControllerType, report: Seq<u8>, enabled: bool, tick: u64) -> Option<Gamepad> {
    if report.len() < MIN_HID_REPORT {
        None
    } else {
        match ct {
            ControllerType::Xbox => None,
            ControllerType::DualShock4 => {
                let r = spec_read_ds4(report);
                Some(spec_with_jitter(spec_pad_of(r), enabled, r.7, tick))
            },
            ControllerType::DualSense => {
                let r = spec_read_dualsense(report);
                Some(spec_with_jitter(spec_pad_of(r), enabled, r.7, tick))
            },
        }
    }
}

/// The tick after `t`, wrapping to 0 after the last.
pub open spec fn next_tick(t: u64) -> u64 {
    if t == u64::MAX { 0 } else { (t + 1) as u64 }
}

impl Gamepad {
    /// The neutral pad: nothing pressed, sticks centred.
    pub fn neutral() -> (r: Gamepad)
        ensures
            r == neutral_pad(),
    {
        Gamepad { buttons: 0, left_trigger: 0, right_trigger: 0, thumb_lx: 0, thumb_ly: 0, thumb_rx: 0, thumb_ry: 0 }
    }
}

/// Whether the left stick is inside the dead zone on both axes.
pub fn stick_idle(lx: i16, ly: i16) -> (r: bool)
    ensures
        r == spec_stick_idle(lx, ly),
{
    let x: i32 = lx as i32;
    let y: i32 = ly as i32;
    let ax: i32 = if x < 0 { -x } else { x };
    let ay: i32 = if y < 0 { -y } else { y };
    ax < STICK_DEADZONE && ay < STICK_DEADZONE
}

/// The left-stick x value that the jitter sends on a tick.
pub fn jitter_axis(tick: u64) -> (r: i16)
    ensures
        r == spec_jitter_axis(tick),
{
    if tick % 2 == 0 { AXIS_MIN } else { AXIS_MAX }
}

/// The pad to forward: `pad` with its left-stick x replaced by the jitter
/// value when jitter is switched on or L2 is held, and the stick is idle.
pub fn apply_jitter(pad: Gamepad, enabled: bool, lt_held: bool, tick: u64) -> (r: Gamepad)
    ensures
        r == spec_with_jitter(pad, enabled, lt_held, tick),
{
    let jitter = (enabled || lt_held) && stick_idle(pad.thumb_lx, pad.thumb_ly);
    if jitter {
        Gamepad { thumb_lx: jitter_axis(tick), ..pad }
    } else {
        pad
    }
}

/// The frame forwarded for a pad read through XInput.
pub fn xinput_frame(pad: Gamepad, enabled: bool, tick: u64) -> (r: Gamepad)
    ensures
        r == spec_xinput_frame(pad, enabled, tick),
{
    apply_jitter(pad, enabled, pad.left_trigger > TRIGGER_HELD_ABOVE, tick)
}

/// The pad carried by a decoded PlayStation report.
pub fn pad_of(r: PadReport) -> (p: Gamepad)
    ensures
        p == spec_pad_of(r),
{
    Gamepad {
        buttons: r.6,
        left_trigger: r.4,
        right_trigger: r.5,
        thumb_lx: r.0,
        thumb_ly: r.1,
        thumb_rx: r.2,
        thumb_ry: r.3,
    }
}

/// The frame forwarded for a HID report, if the report is one to forward.
pub fn hid_frame(ct: ControllerType, report: &[u8], enabled: bool, tick: u64) -> (r: Option<Gamepad>)
    ensures
        r == spec_hid_frame(ct, report@, enabled, tick),
{
    if report.len() < MIN_HID_REPORT {
        return None;
    }
    let decoded = match ct {
        ControllerType::Xbox => {
            return None;
        },
        ControllerType::DualShock4 => read_ds4(report),
        ControllerType::DualSense => read_dualsense(report),
    };
    Some(apply_jitter(pad_of(decoded), enabled, decoded.7, tick))
}

/// The tick after `tick`, wrapping after the last.
pub fn advance_tick(tick: u64) -> (r: u64)
    ensures
        r == next_tick(tick),
{
    tick.wrapping_add(1)
}

/// The jitter flips between the two extremes on every tick, across the
/// wrap of the tick counter too.
pub proof fn law_jitter_alternates(tick: u64)
    ensures
        spec_jitter_axis(tick) == AXIS_MIN || spec_jitter_axis(tick) == AXIS_MAX,
        spec_jitter_axis(tick) != spec_jitter_axis(next_tick(tick)),
{
}

/// Jitter never overrides a moved left stick: once either axis leaves the
/// dead zone, the physical pad is forwarded unchanged.
pub proof fn law_moved_stick_passes_through(pad: Gamepad, enabled: bool, lt_held: bool, tick: u64)
    requires
        !spec_stick_idle(pad.thumb_lx, pad.thumb_ly),
    ensures
        spec_with_jitter(pad, enabled, lt_held, tick) == pad,
{
}

/// With jitter off and L2 released, the physical pad is mirrored exactly.
pub proof fn law_off_mirrors(pad: Gamepad, tick: u64)
    ensures
        spec_with_jitter(pad, false, false, tick) == pad,
{
}

/// Buttons, triggers, the left stick's y axis and the right stick are
/// always mirrored; only the left stick's x axis is ever replaced.
pub proof fn law_mirrors_all_but_left_x(pad: Gamepad, enabled: bool, lt_held: bool, tick: u64)
    ensures
        spec_with_jitter(pad, enabled, lt_held, tick).buttons == pad.buttons,
        spec_with_jitter(pad, enabled, lt_held, tick).left_trigger == pad.left_trigger,
        spec_with_jitter(pad, enabled, lt_held, tick).right_trigger == pad.right_trigger,
        spec_with_jitter(pad, enabled, lt_held, tick).thumb_ly == pad.thumb_ly,
        spec_with_jitter(pad, enabled, lt_held, tick).thumb_rx == pad.thumb_rx,
        spec_with_jitter(pad, enabled, lt_held, tick).thumb_ry == pad.thumb_ry,
{
}

/// Holding L2 runs the jitter whether or not it is switched on (with the
/// stick idle); so does switching it on.
pub proof fn law_l2_or_switch_activates(pad: Gamepad, enabled: bool, lt_held: bool, tick: u64)
    requires
        spec_stick_idle(pad.thumb_lx, pad.thumb_ly),
        enabled || lt_held,
    ensures
        spec_with_jitter(pad, enabled, lt_held, tick).thumb_lx == spec_jitter_axis(tick),
{
}

/// The stick counts as idle exactly when both axes lie strictly between
/// -8000 and 8000.
pub proof fn law_idle_range(lx: i16, ly: i16)
    ensures
        spec_stick_idle(lx, ly) <==> (-8000 < lx < 8000 && -8000 < ly < 8000),
{
}

/// The jitter rule, field by field: while the switch is on or L2 is held,
/// and both left-stick axes lie strictly between -8000 and 8000, the left
/// stick's x becomes -32768 on even ticks and 32767 on odd ones; otherwise
/// it is the pad's own. Every other field is the pad's own.
pub proof fn law_jitter_rule(pad: Gamepad, enabled: bool, lt_held: bool, tick: u64)
    ensures
        ({
            let out = spec_with_jitter(pad, enabled, lt_held, tick);
            let runs = (enabled || lt_held) && -8000 < pad.thumb_lx < 8000 && -8000 < pad.thumb_ly < 8000;
            &&& out.thumb_lx == (if runs { if tick % 2 == 0 { -32768i16 } else { 32767i16 } } else { pad.thumb_lx })
            &&& out.buttons == pad.buttons
            &&& out.left_trigger == pad.left_trigger
            &&& out.right_trigger == pad.right_trigger
            &&& out.thumb_ly == pad.thumb_ly
            &&& out.thumb_rx == pad.thumb_rx
            &&& out.thumb_ry == pad.thumb_ry
        }),
{
}

/// An XInput pad is forwarded by the jitter rule with L2 held exactly when
/// its left trigger is above 30: with the switch off and the trigger at 30
/// or below, the pad is forwarded exactly as polled.
pub proof fn law_xinput_frame_rule(pad: Gamepad, enabled: bool, tick: u64)
    ensures
        spec_xinput_frame(pad, enabled, tick) == spec_with_jitter(pad, enabled, pad.left_trigger > 30, tick),
        !enabled && pad.left_trigger <= 30 ==> spec_xinput_frame(pad, enabled, tick) == pad,
{
}

/// The frame forwarded for a HID report, byte by byte: nothing for a
/// report under 10 bytes or an Xbox pad; for a DualSense (payload at byte 3
/// for report 0x31, else byte 1) the triggers are payload bytes 4 and 5 and
/// the buttons come from payload bytes 7 and 8; for a DualShock 4 (payload
/// at byte 1 for report 0x01, else byte 3) the triggers are payload bytes 7
/// and 8 and the buttons come from payload bytes 4 and 5. The sticks are
/// payload bytes 0 to 3, y inverted; the jitter runs when the switch is on
/// or the left trigger is above 30, and the left stick is idle.
pub proof fn law_hid_frame_layout(ct: ControllerType, report: Seq<u8>, enabled: bool, tick: u64)
    ensures
        report.len() < 10 ==> spec_hid_frame(ct, report, enabled, tick) is None,
        ct == ControllerType::Xbox ==> spec_hid_frame(ct, report, enabled, tick) is None,
        ({
            let o: int = if ct == ControllerType::DualSense {
                if report.len() > 0 && report[0] == 0x31 { 3 } else { 1 }
            } else {
                if report.len() > 0 && report[0] == 0x01 { 1 } else { 3 }
            };
            let lt_at: int = if ct == ControllerType::DualSense { o + 4 } else { o + 7 };
            let face_at: int = if ct == ControllerType::DualSense { o + 7 } else { o + 4 };
            ct != ControllerType::Xbox && report.len() >= 10 && report.len() >= o + 9 ==> {
                &&& spec_hid_frame(ct, report, enabled, tick) matches Some(f)
                &&& f.left_trigger == report[lt_at]
                &&& f.right_trigger == report[lt_at + 1]
                &&& f.buttons == spec_ps_buttons(report[face_at], report[face_at + 1])
                &&& f.thumb_ly as int == -spec_ps_axis(report[o + 1])
                &&& f.thumb_rx as int == spec_ps_axis(report[o + 2])
                &&& f.thumb_ry as int == -spec_ps_axis(report[o + 3])
                &&& {
                    let lx = spec_ps_axis(report[o]);
                    let ly = -spec_ps_axis(report[o + 1]);
                    let runs = (enabled || report[lt_at] > 30) && -8000 < lx < 8000 && -8000 < ly < 8000;
                    f.thumb_lx as int == (if runs { if tick % 2 == 0 { -32768 } else { 32767 } } else { lx })
                }
            }
        }),
{
    if report.len() > 0 {
        crate::report::law_dualsense_layout(report);
        crate::report::law_ds4_layout(report);
    }
}

} // verus!
