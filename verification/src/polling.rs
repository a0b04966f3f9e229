//! Decisions of the read loops and of the F5 key. The caller performs the
//! I/O (polling XInput, reading HID, sending to the virtual pad, sleeping)
//! and hands each outcome to these functions.
use vstd::prelude::*;
use crate::controller::ControllerType;
use crate::gamepad::{
    advance_tick, hid_frame, law_jitter_alternates, next_tick, spec_hid_frame, spec_stick_idle,
    spec_xinput_frame, trigger_held, xinput_frame, neutral_pad, Gamepad, AXIS_MAX, AXIS_MIN,
    POLL_FAILURES_BEFORE_RESCAN,
};

verus! {

/// What to do after an XInput poll.
#[derive(Clone, Copy, Debug, PartialEq, Eq, Structural)]
pub enum PollAction {
    /// Send this frame to the virtual controller, then wait for the next poll.
    Forward(Gamepad),
    /// Send the neutral pad, then look for the physical controller again.
    Rescan,
    /// Poll again at once.
    Retry,
}

/// State of the XInput read loop: the slot read from, the number of
/// consecutive failed polls, and the jitter tick.
#[derive(Clone, Copy, Debug, PartialEq, Eq, Structural)]
pub struct XInputLoop {
    pub slot: u32,
    pub errors: u32,
    pub tick: u64,
}

/// State of the HID read loop: the jitter tick, and whether the
/// controller's first connection has been announced.
#[derive(Clone, Copy, Debug, PartialEq, Eq, Structural)]
pub struct HidLoop {
    pub tick: u64,
    pub announced: bool,
}

/// What to do after a HID read.
#[derive(Clone, Copy, Debug, PartialEq, Eq, Structural)]
pub enum HidStep {
    /// Send this frame to the virtual controller and read again.
    Send(Gamepad),
    /// Nothing to send; read again.
    Skip,
    /// The device failed: send this (neutral) pad, then reopen the device.
    Reconnect(Gamepad),
}

/// One XInput poll: a pad read successfully, or a failed read.
pub open spec fn spec_on_poll(s: XInputLoop, polled: Option<Gamepad>, enabled: bool) -> (XInputLoop, PollAction) {
    match polled {
        Some(pad) => (
            XInputLoop { slot: s.slot, errors: 0, tick: next_tick(s.tick) },
            PollAction::Forward(spec_xinput_frame(pad, enabled, s.tick)),
        ),
        None => {
            let errors = (s.errors + 1) as u32;
            (
                XInputLoop { slot: s.slot, errors, tick: s.tick },
                if errors >= POLL_FAILURES_BEFORE_RESCAN { PollAction::Rescan } else { PollAction::Retry },
            )
        },
    }
}

/// The result of looking for the physical controller after a rescan.
pub open spec fn spec_on_rescan(s: XInputLoop, found: Option<u32>) -> XInputLoop {
    match found {
        Some(slot) => XInputLoop { slot, errors: 0, tick: s.tick },
        None => s,
    }
}

/// `k` failed polls in a row.
pub open spec fn after_failures(s: XInputLoop, enabled: bool, k: nat) -> (XInputLoop, PollAction)
    decreases k,
{
    if k <= 1 {
        spec_on_poll(s, None, enabled)
    } else {
        spec_on_poll(after_failures(s, enabled, (k - 1) as nat).0, None, enabled)
    }
}

impl XInputLoop {
    /// The loop's state before its first poll of `slot`.
    pub fn new(slot: u32) -> (r: XInputLoop)
        ensures
            r.slot == slot,
            r.errors == 0,
            r.tick == 0,
    {
        XInputLoop { slot, errors: 0, tick: 0 }
    }

    /// Takes the outcome of one poll and says what to do with it.
    pub fn on_poll(&mut self, polled: Option<Gamepad>, enabled: bool) -> (action: PollAction)
        requires
            polled is None ==> old(self).errors < u32::MAX,
        ensures
            (*final(self), action) == spec_on_poll(*old(self), polled, enabled),
    {
        match polled {
            Some(pad) => {
                let frame = xinput_frame(pad, enabled, self.tick);
                self.errors = 0;
                self.tick = advance_tick(self.tick);
                PollAction::Forward(frame)
            },
            None => {
                self.errors = self.errors + 1;
                if self.errors >= POLL_FAILURES_BEFORE_RESCAN {
                    PollAction::Rescan
                } else {
                    PollAction::Retry
                }
            },
        }
    }

    /// Takes the slot found by a rescan, if any; without one the state is
    /// kept (the caller waits before polling again).
    pub fn on_rescan(&mut self, found: Option<u32>)
        ensures
            *final(self) == spec_on_rescan(*old(self), found),
    {
        if let Some(slot) = found {
            self.slot = slot;
            self.errors = 0;
        }
    }
}

impl HidLoop {
    /// The loop's state before the device is first opened.
    pub fn new() -> (r: HidLoop)
        ensures
            r.tick == 0,
            !r.announced,
    {
        HidLoop { tick: 0, announced: false }
    }

    /// The device has been opened; says whether to announce that the
    /// controller is connected, which happens on the first opening only.
    pub fn on_opened(&mut self) -> (announce: bool)
        ensures
            announce == !old(self).announced,
            final(self).announced,
            final(self).tick == old(self).tick,
    {
        let announce = !self.announced;
        self.announced = true;
        announce
    }

    /// Takes the outcome of one HID read (the report read, or none when the
    /// read failed) and says what to do; the tick advances with each frame
    /// sent.
    pub fn on_read(&mut self, ct: ControllerType, read: Option<&[u8]>, enabled: bool) -> (step: HidStep)
        ensures
            final(self).announced == old(self).announced,
            match read {
                None => step == HidStep::Reconnect(neutral_pad()) && final(self).tick == old(self).tick,
                Some(report) => match spec_hid_frame(ct, report@, enabled, old(self).tick) {
                    Some(frame) => step == HidStep::Send(frame) && final(self).tick == next_tick(old(self).tick),
                    None => step == HidStep::Skip && final(self).tick == old(self).tick,
                },
            },
    {
        match read {
            None => HidStep::Reconnect(Gamepad::neutral()),
            Some(report) => match hid_frame(ct, report, enabled, self.tick) {
                Some(frame) => {
                    self.tick = advance_tick(self.tick);
                    HidStep::Send(frame)
                },
                None => HidStep::Skip,
            },
        }
    }
}

/// A virtual-key state as `GetAsyncKeyState` returns it: the key is down
/// when the high bit is set.
pub open spec fn spec_key_down(key_state: i16) -> bool {
    (key_state as u16) & 0x8000 != 0
}

/// One look at the F5 key: (aim assist on, key was down, toggled now).
pub open spec fn spec_f5_step(enabled: bool, was_down: bool, key_state: i16) -> (bool, bool, bool) {
    let down = spec_key_down(key_state);
    let toggled = down && !was_down;
    (if toggled { !enabled } else { enabled }, down, toggled)
}

/// Whether a `GetAsyncKeyState` value reports the key as held down.
pub fn key_is_down(key_state: i16) -> (r: bool)
    ensures
        r == spec_key_down(key_state),
        r == (key_state < 0),
{
    assert(((key_state as u16) & 0x8000 != 0) == (key_state < 0)) by (bit_vector);
    (key_state as u16) & 0x8000 != 0
}

/// Takes one reading of the F5 key: a press (down now, up before) flips the
/// aim-assist switch. Returns whether it flipped.
pub fn handle_f5_toggle(enabled: &mut bool, f5_was_down: &mut bool, key_state: i16) -> (toggled: bool)
    ensures
        (*final(enabled), *final(f5_was_down), toggled) == spec_f5_step(*old(enabled), *old(f5_was_down), key_state),
{
    let f5_down = key_is_down(key_state);
    let toggled = f5_down && !*f5_was_down;
    if toggled {
        *enabled = !*enabled;
    }
    *f5_was_down = f5_down;
    toggled
}

/// While jitter runs, two successive forwarded XInput frames carry opposite
/// extremes on the left stick's x axis.
pub proof fn law_frames_oscillate(s: XInputLoop, first: Gamepad, second: Gamepad, enabled: bool)
    requires
        enabled || trigger_held(first.left_trigger),
        enabled || trigger_held(second.left_trigger),
        spec_stick_idle(first.thumb_lx, first.thumb_ly),
        spec_stick_idle(second.thumb_lx, second.thumb_ly),
    ensures
        ({
            let (s1, a1) = spec_on_poll(s, Some(first), enabled);
            let (_s2, a2) = spec_on_poll(s1, Some(second), enabled);
            &&& a1 matches PollAction::Forward(f1)
            &&& a2 matches PollAction::Forward(f2)
            &&& (f1.thumb_lx == AXIS_MIN && f2.thumb_lx == AXIS_MAX
                || f1.thumb_lx == AXIS_MAX && f2.thumb_lx == AXIS_MIN)
        }),
{
    law_jitter_alternates(s.tick);
}

/// After a successful poll, failed polls are retried nine times; the tenth
/// failure in a row, and every one after it, releases the virtual pad and
/// rescans. A successful poll starts the count again.
pub proof fn law_rescan_from_tenth_failure(s: XInputLoop, enabled: bool, k: nat)
    requires
        s.errors == 0,
        1 <= k < u32::MAX,
    ensures
        after_failures(s, enabled, k).0.errors == k,
        after_failures(s, enabled, k).1 == (if k >= 10 { PollAction::Rescan } else { PollAction::Retry }),
        forall|pad: Gamepad| #[trigger] spec_on_poll(after_failures(s, enabled, k).0, Some(pad), enabled).0.errors == 0,
    decreases k,
{
    if k > 1 {
        law_rescan_from_tenth_failure(s, enabled, (k - 1) as nat);
    }
}

/// Holding F5 down flips the switch once, however long it is held.
pub proof fn law_f5_hold_flips_once(enabled: bool, was_down: bool, key_state: i16)
    requires
        !was_down,
        spec_key_down(key_state),
    ensures
        ({
            let (e1, d1, t1) = spec_f5_step(enabled, was_down, key_state);
            let (e2, d2, t2) = spec_f5_step(e1, d1, key_state);
            &&& t1 && !t2
            &&& e1 == !enabled && e2 == !enabled
        }),
{
}

/// Two presses of F5 (each a down then an up) bring the switch back.
pub proof fn law_f5_two_presses_restore(enabled: bool, down_state: i16, up_state: i16)
    requires
        spec_key_down(down_state),
        !spec_key_down(up_state),
    ensures
        ({
            let (e1, d1, _) = spec_f5_step(enabled, false, down_state);
            let (e2, d2, _) = spec_f5_step(e1, d1, up_state);
            let (e3, d3, _) = spec_f5_step(e2, d2, down_state);
            let (e4, d4, _) = spec_f5_step(e3, d3, up_state);
            e2 == !enabled && e4 == enabled && !d4
        }),
{
}

/// The switch and key memory after F5 reads `key_state` on `k` successive
/// calls, starting from `(enabled, was_down)`.
pub open spec fn f5_after(enabled: bool, was_down: bool, key_state: i16, k: nat) -> (bool, bool)
    decreases k,
{
    if k == 0 {
        (enabled, was_down)
    } else {
        let (e, d) = f5_after(enabled, was_down, key_state, (k - 1) as nat);
        let (e2, d2, _) = spec_f5_step(e, d, key_state);
        (e2, d2)
    }
}

/// One press of F5, seen down on any number `k >= 1` of successive readings
/// after an up: the first reading flips the switch, no later reading while
/// it is held flips it again, and the release keeps the new state. (The
/// same from `!enabled` shows a second press bringing the switch back.)
pub proof fn law_f5_press_flips_once(enabled: bool, down_state: i16, up_state: i16, k: nat)
    requires
        spec_key_down(down_state),
        !spec_key_down(up_state),
        k >= 1,
    ensures
        f5_after(enabled, false, down_state, k) == (!enabled, true),
        forall|j: nat| 1 <= j < k ==> !(#[trigger] spec_f5_step(
            f5_after(enabled, false, down_state, j).0,
            f5_after(enabled, false, down_state, j).1,
            down_state,
        )).2,
        spec_f5_step(!enabled, true, up_state) == (!enabled, false, false),
    decreases k,
{
    if k > 1 {
        law_f5_press_flips_once(enabled, down_state, up_state, (k - 1) as nat);
        assert forall|j: nat| 1 <= j < k implies !(#[trigger] spec_f5_step(
            f5_after(enabled, false, down_state, j).0,
            f5_after(enabled, false, down_state, j).1,
            down_state,
        )).2 by {
            if j < k - 1 {
            } else {
                assert(f5_after(enabled, false, down_state, j) == (!enabled, true));
            }
        }
    } else {
        assert(f5_after(enabled, false, down_state, 0) == (enabled, false));
    }
}

/// One XInput poll, field by field. A successful poll forwards the polled
/// pad with the jitter rule applied (x replaced by -32768 on even ticks and
/// 32767 on odd ones when the switch is on or the left trigger is above 30
/// and both left-stick axes lie strictly between -8000 and 8000, the pad's
/// own values everywhere else), clears the failure count and advances the
/// tick by one, wrapping; with the switch off and the trigger at 30 or
/// below, the pad is forwarded as polled. A failed poll counts one more
/// failure and rescans from the tenth on; slot and tick are kept.
pub proof fn law_poll_rule(s: XInputLoop, polled: Option<Gamepad>, enabled: bool)
    ensures
        ({
            let (s2, action) = spec_on_poll(s, polled, enabled);
            &&& s2.slot == s.slot
            &&& match polled {
                Some(pad) => {
                    let runs = (enabled || pad.left_trigger > 30) && -8000 < pad.thumb_lx < 8000
                        && -8000 < pad.thumb_ly < 8000;
                    let lx = if runs { if s.tick % 2 == 0 { -32768i16 } else { 32767i16 } } else { pad.thumb_lx };
                    &&& action == PollAction::Forward(Gamepad { thumb_lx: lx, ..pad })
                    &&& !enabled && pad.left_trigger <= 30 ==> action == PollAction::Forward(pad)
                    &&& s2.errors == 0
                    &&& s2.tick == (if s.tick == u64::MAX { 0 } else { s.tick + 1 })
                },
                None => {
                    &&& s.errors < u32::MAX ==> s2.errors == s.errors + 1
                    &&& s.errors < u32::MAX ==> (action == if s.errors + 1 >= 10 { PollAction::Rescan } else { PollAction::Retry })
                    &&& s2.tick == s.tick
                },
            }
        }),
{
    if let Some(pad) = polled {
        crate::gamepad::law_jitter_rule(pad, enabled, pad.left_trigger > 30, s.tick);
    }
}

/// A reading of `GetAsyncKeyState` shows the key down exactly when its
/// value is negative (the high bit of the 16-bit value).
pub proof fn law_key_down_is_negative(key_state: i16)
    ensures
        spec_key_down(key_state) <==> key_state < 0,
{
    assert(((key_state as u16) & 0x8000 != 0) == (key_state < 0)) by (bit_vector);
}

/// One reading of F5, for every state: with the key up nothing flips and
/// the key is remembered as up; with the key down the switch flips exactly
/// when the key was up before, and the key is remembered as down.
pub proof fn law_f5_reading(enabled: bool, was_down: bool, key_state: i16)
    ensures
        key_state >= 0 ==> spec_f5_step(enabled, was_down, key_state) == (enabled, false, false),
        key_state < 0 ==> spec_f5_step(enabled, was_down, key_state) == (
            if was_down { enabled } else { !enabled },
            true,
            !was_down,
        ),
{
    law_key_down_is_negative(key_state);
}

} // verus!
