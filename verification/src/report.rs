//! Decoding of DualShock 4 and DualSense HID input reports into the
//! Xbox-style values that the virtual controller is fed with.
use vstd::prelude::*;

verus! {

/// A decoded report: left stick x/y, right stick x/y, left trigger,
/// right trigger, Xbox button word, and whether L2 is held past its threshold.
pub type PadReport = (i16, i16, i16, i16, u8, u8, u16, bool);

/// Left trigger values above this count as "L2 held".
pub const TRIGGER_HELD_ABOVE: u8 = 30;

// Xbox button bits of the virtual controller.
pub const XB_DPAD_UP: u16 = 0x0001;
pub const XB_DPAD_DOWN: u16 = 0x0002;
pub const XB_DPAD_LEFT: u16 = 0x0004;
pub const XB_DPAD_RIGHT: u16 = 0x0008;
pub const XB_START: u16 = 0x0010;
pub const XB_BACK: u16 = 0x0020;
pub const XB_LEFT_THUMB: u16 = 0x0040;
pub const XB_RIGHT_THUMB: u16 = 0x0080;
pub const XB_LEFT_SHOULDER: u16 = 0x0100;
pub const XB_RIGHT_SHOULDER: u16 = 0x0200;
pub const XB_A: u16 = 0x1000;
pub const XB_B: u16 = 0x2000;
pub const XB_X: u16 = 0x4000;
pub const XB_Y: u16 = 0x8000;

/// A PlayStation stick byte (0..=255, centre 0x80) scaled to the signed
/// 16-bit stick range; the division truncates toward zero as Rust's does.
pub open spec fn spec_ps_axis(v: u8) -> int {
    let c = v as int - 0x80;
    if c >= 0 {
        c * 32767 / 127
    } else {
        -((-c) * 32767 / 128)
    }
}

/// The all-zero report produced for a report too short to decode.
pub open spec fn neutral_report() -> PadReport {
    (0, 0, 0, 0, 0, 0, 0, false)
}

pub open spec fn flag(on: bool, bit: u16) -> u16 {
    if on { bit } else { 0 }
}

/// Hat direction codes: 0 = N, 1 = NE, 2 = E, 3 = SE, 4 = S, 5 = SW, 6 = W, 7 = NW, 8 = none.
pub open spec fn hat_up(d: u8) -> bool {
    d == 0 || d == 1 || d == 7
}

pub open spec fn hat_down(d: u8) -> bool {
    d == 3 || d == 4 || d == 5
}

pub open spec fn hat_left(d: u8) -> bool {
    d == 5 || d == 6 || d == 7
}

pub open spec fn hat_right(d: u8) -> bool {
    d == 1 || d == 2 || d == 3
}

/// The Xbox button word for a PlayStation face byte (hat in the low nibble,
/// square/cross/circle/triangle in the high nibble) and shoulder byte
/// (L1, R1, -, -, share/create, options, L3, R3 from bit 0 up).
pub open spec fn spec_ps_buttons(face: u8, shoulder: u8) -> u16 {
    let d = face & 0x0F;
    flag(hat_up(d), XB_DPAD_UP)
    | flag(hat_down(d), XB_DPAD_DOWN)
    | flag(hat_left(d), XB_DPAD_LEFT)
    | flag(hat_right(d), XB_DPAD_RIGHT)
    | flag(face & 0x20 != 0, XB_A)
    | flag(face & 0x40 != 0, XB_B)
    | flag(face & 0x10 != 0, XB_X)
    | flag(face & 0x80 != 0, XB_Y)
    | flag(shoulder & 0x01 != 0, XB_LEFT_SHOULDER)
    | flag(shoulder & 0x02 != 0, XB_RIGHT_SHOULDER)
    | flag(shoulder & 0x40 != 0, XB_LEFT_THUMB)
    | flag(shoulder & 0x80 != 0, XB_RIGHT_THUMB)
    | flag(shoulder & 0x20 != 0, XB_START)
    | flag(shoulder & 0x10 != 0, XB_BACK)
}

/// The report decoded from the bytes at `o` on: sticks at o..o+4, the
/// face and shoulder bytes at `face_at` and `face_at + 1`, the triggers at
/// `lt_at` and `lt_at + 1`. The y axes are inverted (HID y grows downward).
pub open spec fn ps_fields(buf: Seq<u8>, o: int, face_at: int, lt_at: int) -> PadReport {
    (
        spec_ps_axis(buf[o]) as i16,
        (-spec_ps_axis(buf[o + 1])) as i16,
        spec_ps_axis(buf[o + 2]) as i16,
        (-spec_ps_axis(buf[o + 3])) as i16,
        buf[lt_at],
        buf[lt_at + 1],
        spec_ps_buttons(buf[face_at], buf[face_at + 1]),
        buf[lt_at] > TRIGGER_HELD_ABOVE,
    )
}

/// Where the DualShock 4 payload starts: right after report id 0x01 over
/// USB, three bytes in for the Bluetooth layout.
pub open spec fn ds4_offset(buf: Seq<u8>) -> int {
    if buf[0] == 0x01 { 1 } else { 3 }
}

pub open spec fn spec_read_ds4(buf: Seq<u8>) -> PadReport {
    let o = ds4_offset(buf);
    if buf.len() < o + 9 {
        neutral_report()
    } else {
        ps_fields(buf, o, o + 4, o + 7)
    }
}

/// Where the DualSense payload starts: three bytes in for Bluetooth report
/// 0x31, right after the report id otherwise.
pub open spec fn dualsense_offset(buf: Seq<u8>) -> int {
    if buf[0] == 0x31 { 3 } else { 1 }
}

pub open spec fn spec_read_dualsense(buf: Seq<u8>) -> PadReport {
    let o = dualsense_offset(buf);
    if buf.len() < o + 9 {
        neutral_report()
    } else {
        ps_fields(buf, o, o + 7, o + 4)
    }
}

proof fn lemma_ps_axis_range(v: u8)
    ensures
        -32767 <= spec_ps_axis(v) <= 32767,
{
    let c = v as int - 0x80;
    if c >= 0 {
        assert(c * 32767 <= 127 * 32767);
        assert(c * 32767 / 127 <= 32767);
        assert(0 <= c * 32767 / 127);
    } else {
        assert((-c) * 32767 <= 128 * 32767);
        assert((-c) * 32767 / 128 <= 32767);
        assert(0 <= (-c) * 32767 / 128);
    }
}

/// Scales a PlayStation stick byte to the signed 16-bit stick range,
/// clamped to -32767..=32767 so that its negation fits as well.
pub fn ps_axis_to_i16(v: u8) -> (r: i16)
    ensures
        r as int == spec_ps_axis(v),
        -32767 <= r <= 32767,
{
    proof {
        lemma_ps_axis_range(v);
    }
    let c: i32 = v as i32 - 0x80;
    let scaled: i32 = if c >= 0 {
        c * 32767 / 127
    } else {
        -((-c) * 32767 / 128)
    };
    let clamped: i32 = if scaled < -32767 {
        -32767
    } else if scaled > 32767 {
        32767
    } else {
        scaled
    };
    clamped as i16
}

fn flag_bits(on: bool, bit: u16) -> (r: u16)
    ensures
        r == flag(on, bit),
{
    if on { bit } else { 0 }
}

/// The Xbox button word for a PlayStation face byte and shoulder byte.
pub fn ps_buttons(face: u8, shoulder: u8) -> (r: u16)
    ensures
        r == spec_ps_buttons(face, shoulder),
{
    let d: u8 = face & 0x0F;
    flag_bits(d == 0 || d == 1 || d == 7, XB_DPAD_UP)
    | flag_bits(d == 3 || d == 4 || d == 5, XB_DPAD_DOWN)
    | flag_bits(d == 5 || d == 6 || d == 7, XB_DPAD_LEFT)
    | flag_bits(d == 1 || d == 2 || d == 3, XB_DPAD_RIGHT)
    | flag_bits(face & 0x20 != 0, XB_A)
    | flag_bits(face & 0x40 != 0, XB_B)
    | flag_bits(face & 0x10 != 0, XB_X)
    | flag_bits(face & 0x80 != 0, XB_Y)
    | flag_bits(shoulder & 0x01 != 0, XB_LEFT_SHOULDER)
    | flag_bits(shoulder & 0x02 != 0, XB_RIGHT_SHOULDER)
    | flag_bits(shoulder & 0x40 != 0, XB_LEFT_THUMB)
    | flag_bits(shoulder & 0x80 != 0, XB_RIGHT_THUMB)
    | flag_bits(shoulder & 0x20 != 0, XB_START)
    | flag_bits(shoulder & 0x10 != 0, XB_BACK)
}

fn read_ps_fields(buf: &[u8], o: usize, face_at: usize, lt_at: usize) -> (r: PadReport)
    requires
        o + 4 <= buf@.len(),
        face_at + 2 <= buf@.len(),
        lt_at + 2 <= buf@.len(),
    ensures
        r == ps_fields(buf@, o as int, face_at as int, lt_at as int),
{
    let lx = ps_axis_to_i16(buf[o]);
    let ly = -ps_axis_to_i16(buf[o + 1]);
    let rx = ps_axis_to_i16(buf[o + 2]);
    let ry = -ps_axis_to_i16(buf[o + 3]);
    let lt = buf[lt_at];
    let rt = buf[lt_at + 1];
    let buttons = ps_buttons(buf[face_at], buf[face_at + 1]);
    (lx, ly, rx, ry, lt, rt, buttons, lt > TRIGGER_HELD_ABOVE)
}

/// Decodes a DualShock 4 input report (USB report 0x01 or the Bluetooth
/// layout). A report too short for its layout decodes to all zeros.
pub fn read_ds4(buf: &[u8]) -> (r: PadReport)
    requires
        buf@.len() > 0,
    ensures
        r == spec_read_ds4(buf@),
{
    let offset: usize = if buf[0] == 0x01 { 1 } else { 3 };
    if buf.len() < offset + 9 {
        return (0, 0, 0, 0, 0, 0, 0, false);
    }
    read_ps_fields(buf, offset, offset + 4, offset + 7)
}

/// Decodes a DualSense input report (USB report 0x01 or Bluetooth report
/// 0x31). A report too short for its layout decodes to all zeros.
pub fn read_dualsense(buf: &[u8]) -> (r: PadReport)
    requires
        buf@.len() > 0,
    ensures
        r == spec_read_dualsense(buf@),
{
    let offset: usize = if buf[0] == 0x31 { 3 } else { 1 };
    if buf.len() < offset + 9 {
        return (0, 0, 0, 0, 0, 0, 0, false);
    }
    read_ps_fields(buf, offset, offset + 7, offset + 4)
}

/// Centre, full deflection and full opposite deflection of a stick byte.
pub proof fn law_axis_endpoints()
    ensures
        spec_ps_axis(0x80) == 0,
        spec_ps_axis(0xFF) == 32767,
        spec_ps_axis(0x00) == -32767,
{
}

/// Pushing a stick further never moves the scaled value back.
pub proof fn law_axis_monotonic(a: u8, b: u8)
    requires
        a <= b,
    ensures
        spec_ps_axis(a) <= spec_ps_axis(b),
{
    let ca = a as int - 0x80;
    let cb = b as int - 0x80;
    if ca >= 0 {
        assert(ca * 32767 <= cb * 32767);
        vstd::arithmetic::div_mod::lemma_div_is_ordered(ca * 32767, cb * 32767, 127);
    } else if cb >= 0 {
        assert(0 <= (-ca) * 32767 / 128) by {
            vstd::arithmetic::div_mod::lemma_div_pos_is_pos((-ca) * 32767, 128);
        }
        assert(0 <= cb * 32767 / 127) by {
            vstd::arithmetic::div_mod::lemma_div_pos_is_pos(cb * 32767, 127);
        }
    } else {
        assert((-cb) * 32767 <= (-ca) * 32767);
        vstd::arithmetic::div_mod::lemma_div_is_ordered((-cb) * 32767, (-ca) * 32767, 128);
    }
}

/// The documented button table: cross → A, circle → B, square → X,
/// triangle → Y, L1 → LB, R1 → RB, L3 → LS, R3 → RS, options → Start,
/// share/create → Back; each Xbox button is set exactly when its
/// PlayStation button is pressed.
pub proof fn law_button_table(face: u8, shoulder: u8)
    ensures
        (spec_ps_buttons(face, shoulder) & XB_A != 0) == (face & 0x20 != 0),
        (spec_ps_buttons(face, shoulder) & XB_B != 0) == (face & 0x40 != 0),
        (spec_ps_buttons(face, shoulder) & XB_X != 0) == (face & 0x10 != 0),
        (spec_ps_buttons(face, shoulder) & XB_Y != 0) == (face & 0x80 != 0),
        (spec_ps_buttons(face, shoulder) & XB_LEFT_SHOULDER != 0) == (shoulder & 0x01 != 0),
        (spec_ps_buttons(face, shoulder) & XB_RIGHT_SHOULDER != 0) == (shoulder & 0x02 != 0),
        (spec_ps_buttons(face, shoulder) & XB_LEFT_THUMB != 0) == (shoulder & 0x40 != 0),
        (spec_ps_buttons(face, shoulder) & XB_RIGHT_THUMB != 0) == (shoulder & 0x80 != 0),
        (spec_ps_buttons(face, shoulder) & XB_START != 0) == (shoulder & 0x20 != 0),
        (spec_ps_buttons(face, shoulder) & XB_BACK != 0) == (shoulder & 0x10 != 0),
{
    assert((spec_ps_buttons(face, shoulder) & 0x1000 != 0) == (face & 0x20 != 0)
        && (spec_ps_buttons(face, shoulder) & 0x2000 != 0) == (face & 0x40 != 0)
        && (spec_ps_buttons(face, shoulder) & 0x4000 != 0) == (face & 0x10 != 0)
        && (spec_ps_buttons(face, shoulder) & 0x8000 != 0) == (face & 0x80 != 0)
        && (spec_ps_buttons(face, shoulder) & 0x0100 != 0) == (shoulder & 0x01 != 0)
        && (spec_ps_buttons(face, shoulder) & 0x0200 != 0) == (shoulder & 0x02 != 0)
        && (spec_ps_buttons(face, shoulder) & 0x0040 != 0) == (shoulder & 0x40 != 0)
        && (spec_ps_buttons(face, shoulder) & 0x0080 != 0) == (shoulder & 0x80 != 0)
        && (spec_ps_buttons(face, shoulder) & 0x0010 != 0) == (shoulder & 0x20 != 0)
        && (spec_ps_buttons(face, shoulder) & 0x0020 != 0) == (shoulder & 0x10 != 0)) by (bit_vector);
}

/// The d-pad bits follow the hat nibble alone: a released hat (8 and above)
/// sets none of them, a diagonal sets two, and opposite directions are never
/// set together.
pub proof fn law_dpad(face: u8, shoulder: u8)
    ensures
        (face & 0x0F) >= 8 ==> spec_ps_buttons(face, shoulder) & 0x000F == 0,
        !(spec_ps_buttons(face, shoulder) & XB_DPAD_UP != 0
            && spec_ps_buttons(face, shoulder) & XB_DPAD_DOWN != 0),
        !(spec_ps_buttons(face, shoulder) & XB_DPAD_LEFT != 0
            && spec_ps_buttons(face, shoulder) & XB_DPAD_RIGHT != 0),
        (face & 0x0F) == 1 ==> spec_ps_buttons(face, shoulder) & 0x000F == XB_DPAD_UP + XB_DPAD_RIGHT,
        (face & 0x0F) == 0 ==> spec_ps_buttons(face, shoulder) & 0x000F == XB_DPAD_UP,
{
    assert(((face & 0x0F) >= 8 ==> spec_ps_buttons(face, shoulder) & 0x000F == 0)
        && !(spec_ps_buttons(face, shoulder) & 0x0001 != 0 && spec_ps_buttons(face, shoulder) & 0x0002 != 0)
        && !(spec_ps_buttons(face, shoulder) & 0x0004 != 0 && spec_ps_buttons(face, shoulder) & 0x0008 != 0)
        && ((face & 0x0F) == 1 ==> spec_ps_buttons(face, shoulder) & 0x000F == 0x0009)
        && ((face & 0x0F) == 0 ==> spec_ps_buttons(face, shoulder) & 0x000F == 0x0001)) by (bit_vector);
}

/// DualShock 4 and DualSense reports map their buttons identically: equal
/// face and shoulder bytes give equal Xbox button words.
pub proof fn law_same_button_mapping(ds4: Seq<u8>, dualsense: Seq<u8>)
    requires
        ds4.len() > 0,
        dualsense.len() > 0,
        ds4.len() >= ds4_offset(ds4) + 9,
        dualsense.len() >= dualsense_offset(dualsense) + 9,
        ds4[ds4_offset(ds4) + 4] == dualsense[dualsense_offset(dualsense) + 7],
        ds4[ds4_offset(ds4) + 5] == dualsense[dualsense_offset(dualsense) + 8],
    ensures
        spec_read_ds4(ds4).6 == spec_read_dualsense(dualsense).6,
{
}

/// What a DualSense report decodes to, byte by byte. The payload starts at
/// byte 3 for Bluetooth report 0x31, at byte 1 otherwise; from there: left
/// stick x, y, right stick x, y, L2, R2, a counter, the face byte and the
/// shoulder byte. Both y axes are inverted; a report too short for its
/// layout decodes to all zeros.
pub proof fn law_dualsense_layout(buf: Seq<u8>)
    requires
        buf.len() > 0,
    ensures
        ({
            let o: int = if buf[0] == 0x31 { 3 } else { 1 };
            let r = spec_read_dualsense(buf);
            &&& buf.len() < o + 9 ==> r == (0i16, 0i16, 0i16, 0i16, 0u8, 0u8, 0u16, false)
            &&& buf.len() >= o + 9 ==> {
                &&& r.0 as int == spec_ps_axis(buf[o])
                &&& r.1 as int == -spec_ps_axis(buf[o + 1])
                &&& r.2 as int == spec_ps_axis(buf[o + 2])
                &&& r.3 as int == -spec_ps_axis(buf[o + 3])
                &&& r.4 == buf[o + 4]
                &&& r.5 == buf[o + 5]
                &&& r.6 == spec_ps_buttons(buf[o + 7], buf[o + 8])
                &&& r.7 == (buf[o + 4] > 30)
            }
        }),
{
    let o: int = if buf[0] == 0x31 { 3 } else { 1 };
    if buf.len() >= o + 9 {
        lemma_ps_axis_range(buf[o]);
        lemma_ps_axis_range(buf[o + 1]);
        lemma_ps_axis_range(buf[o + 2]);
        lemma_ps_axis_range(buf[o + 3]);
    }
}

/// What a DualShock 4 report decodes to, byte by byte. The payload starts
/// at byte 1 for USB report 0x01, at byte 3 otherwise; from there: left
/// stick x, y, right stick x, y, the face byte, the shoulder byte, a
/// counter, L2, R2. Both y axes are inverted; a report too short for its
/// layout decodes to all zeros.
pub proof fn law_ds4_layout(buf: Seq<u8>)
    requires
        buf.len() > 0,
    ensures
        ({
            let o: int = if buf[0] == 0x01 { 1 } else { 3 };
            let r = spec_read_ds4(buf);
            &&& buf.len() < o + 9 ==> r == (0i16, 0i16, 0i16, 0i16, 0u8, 0u8, 0u16, false)
            &&& buf.len() >= o + 9 ==> {
                &&& r.0 as int == spec_ps_axis(buf[o])
                &&& r.1 as int == -spec_ps_axis(buf[o + 1])
                &&& r.2 as int == spec_ps_axis(buf[o + 2])
                &&& r.3 as int == -spec_ps_axis(buf[o + 3])
                &&& r.4 == buf[o + 7]
                &&& r.5 == buf[o + 8]
                &&& r.6 == spec_ps_buttons(buf[o + 4], buf[o + 5])
                &&& r.7 == (buf[o + 7] > 30)
            }
        }),
{
    let o: int = if buf[0] == 0x01 { 1 } else { 3 };
    if buf.len() >= o + 9 {
        lemma_ps_axis_range(buf[o]);
        lemma_ps_axis_range(buf[o + 1]);
        lemma_ps_axis_range(buf[o + 2]);
        lemma_ps_axis_range(buf[o + 3]);
    }
}

/// The scaling, characterised by what it divides: a byte at or above the
/// centre gives the largest value whose multiple of 127 does not exceed
/// its offset times 32767; a byte below gives minus the largest value whose
/// multiple of 128 does not exceed its distance times 32767 (division
/// truncating toward zero).
pub proof fn law_axis_scaling(v: u8)
    ensures
        v >= 0x80 ==> spec_ps_axis(v) * 127 <= (v - 128) * 32767 < (spec_ps_axis(v) + 1) * 127,
        v < 0x80 ==> (-spec_ps_axis(v)) * 128 <= (128 - v) * 32767 < (-spec_ps_axis(v) + 1) * 128,
{
    if v >= 0x80 {
        let x = (v - 128) * 32767;
        vstd::arithmetic::div_mod::lemma_fundamental_div_mod(x, 127);
        vstd::arithmetic::div_mod::lemma_mod_pos_bound(x, 127);
    } else {
        let x = (128 - v) * 32767;
        vstd::arithmetic::div_mod::lemma_fundamental_div_mod(x, 128);
        vstd::arithmetic::div_mod::lemma_mod_pos_bound(x, 128);
    }
}

} // verus!
