//! Controller kinds, the console choice among them, and how the physical
//! controller is recognised among HID devices and XInput slots.
use vstd::prelude::*;
use crate::text::{
    chars_of, contains_chars, decimal, seq_contains, trimmed, trimmed_chars, uppercase_chars, uppercase_of,
    zero_padded, zero_padded_decimal,
};

verus! {

/// The kind of physical controller the proxy reads from.
#[derive(Clone, Copy, Debug, PartialEq, Eq, Structural)]
pub enum ControllerType {
    Xbox,
    DualShock4,
    DualSense,
}

/// Sony's USB vendor id.
pub const SONY_VID: u16 = 0x054C;
/// DualShock 4 product ids (first and second hardware revision).
pub const DS4_PID_V1: u16 = 0x05C4;
pub const DS4_PID_V2: u16 = 0x09CC;
/// DualSense product id.
pub const DUALSENSE_PID: u16 = 0x0CE6;

/// Number of XInput slots.
pub const XINPUT_SLOTS: usize = 4;

/// The controller kind chosen by a console answer: "1", "2" or "3",
/// with surrounding whitespace ignored; any other answer chooses nothing.
pub open spec fn spec_choice(answer: Seq<char>) -> Option<ControllerType> {
    let t = trimmed(answer);
    if t == seq!['1'] {
        Some(ControllerType::Xbox)
    } else if t == seq!['2'] {
        Some(ControllerType::DualSense)
    } else if t == seq!['3'] {
        Some(ControllerType::DualShock4)
    } else {
        None
    }
}

/// The product ids that the proxy opens for a controller kind; Xbox
/// controllers are read through XInput, not HID.
pub open spec fn spec_product_ids(ct: ControllerType) -> Seq<u16> {
    match ct {
        ControllerType::Xbox => seq![],
        ControllerType::DualShock4 => seq![DS4_PID_V1, DS4_PID_V2],
        ControllerType::DualSense => seq![DUALSENSE_PID],
    }
}

/// The first index below `n` at which `s` holds, if any.
pub open spec fn first_true(s: Seq<bool>, n: int) -> Option<int>
    decreases n,
{
    if n <= 0 {
        None
    } else {
        match first_true(s, n - 1) {
            Some(i) => Some(i),
            None => if s[n - 1] { Some(n - 1) } else { None },
        }
    }
}

/// Per slot: connected and not the virtual controller.
pub open spec fn real_slots(connected: Seq<bool>, is_virtual: Seq<bool>) -> Seq<bool> {
    Seq::new(XINPUT_SLOTS as nat, |i: int| connected[i] && !is_virtual[i])
}

/// The XInput slot taken to be the physical controller: the first connected
/// slot that is not the virtual controller, else the first connected slot.
pub open spec fn spec_physical_slot(connected: Seq<bool>, is_virtual: Seq<bool>) -> Option<int> {
    match first_true(real_slots(connected, is_virtual), XINPUT_SLOTS as int) {
        Some(i) => Some(i),
        None => first_true(connected, XINPUT_SLOTS as int),
    }
}

/// Display name of a controller kind.
pub fn controller_name(ct: ControllerType) -> (r: &'static str)
    ensures
        ct == ControllerType::Xbox ==> r@ == "Xbox"@,
        ct == ControllerType::DualSense ==> r@ == "DualSense (PS5)"@,
        ct == ControllerType::DualShock4 ==> r@ == "DualShock 4 (PS4)"@,
{
    match ct {
        ControllerType::Xbox => "Xbox",
        ControllerType::DualSense => "DualSense (PS5)",
        ControllerType::DualShock4 => "DualShock 4 (PS4)",
    }
}

/// Reads the controller kind from a console answer line.
pub fn parse_controller_choice(answer: &str) -> (r: Option<ControllerType>)
    ensures
        r == spec_choice(answer@),
{
    let t = trimmed_chars(answer);
    if t.len() == 1 && t[0] == '1' {
        assert(t@ =~= seq!['1']);
        Some(ControllerType::Xbox)
    } else if t.len() == 1 && t[0] == '2' {
        assert(t@ =~= seq!['2']);
        Some(ControllerType::DualSense)
    } else if t.len() == 1 && t[0] == '3' {
        assert(t@ =~= seq!['3']);
        Some(ControllerType::DualShock4)
    } else {
        assert(t@ != seq!['1'] && t@ != seq!['2'] && t@ != seq!['3']) by {
            if t@.len() == 1 {
                assert(seq!['1'][0] == '1');
                assert(seq!['2'][0] == '2');
                assert(seq!['3'][0] == '3');
            }
        }
        None
    }
}

/// The HID product ids that identify a controller kind.
pub fn product_ids(ct: ControllerType) -> (r: Vec<u16>)
    ensures
        r@ == spec_product_ids(ct),
{
    match ct {
        ControllerType::Xbox => Vec::new(),
        ControllerType::DualShock4 => {
            let mut v = Vec::new();
            v.push(DS4_PID_V1);
            v.push(DS4_PID_V2);
            assert(v@ =~= seq![DS4_PID_V1, DS4_PID_V2]);
            v
        },
        ControllerType::DualSense => {
            let mut v = Vec::new();
            v.push(DUALSENSE_PID);
            assert(v@ =~= seq![DUALSENSE_PID]);
            v
        },
    }
}

/// Whether a HID device with these ids is the controller to open.
pub fn is_target_device(ct: ControllerType, vendor_id: u16, product_id: u16) -> (r: bool)
    ensures
        r == (vendor_id == SONY_VID && spec_product_ids(ct).contains(product_id)),
{
    let pids = product_ids(ct);
    if vendor_id != SONY_VID {
        return false;
    }
    let mut k: usize = 0;
    while k < pids.len()
        invariant
            pids@ == spec_product_ids(ct),
            vendor_id == SONY_VID,
            0 <= k <= pids@.len(),
            forall|m: int| 0 <= m < k ==> pids@[m] != product_id,
        decreases pids.len() - k,
    {
        if pids[k] == product_id {
            assert(pids@[k as int] == product_id);
            assert(spec_product_ids(ct).contains(product_id));
            return true;
        }
        k = k + 1;
    }
    false
}

/// Picks the physical controller's XInput slot from what each slot reported:
/// whether it is connected and whether it is the virtual controller.
pub fn pick_physical_slot(connected: [bool; 4], is_virtual: [bool; 4]) -> (r: Option<u32>)
    ensures
        r matches Some(i) ==> spec_physical_slot(connected@, is_virtual@) == Some(i as int),
        r is None ==> spec_physical_slot(connected@, is_virtual@) is None,
{
    let ghost eligible: Seq<bool> = real_slots(connected@, is_virtual@);
    let mut i: usize = 0;
    while i < 4
        invariant
            0 <= i <= 4,
            eligible == real_slots(connected@, is_virtual@),
            first_true(eligible, i as int) is None,
        decreases 4 - i,
    {
        if connected[i] && !is_virtual[i] {
            assert(eligible[i as int]);
            assert(first_true(eligible, i + 1) == Some(i as int));
            proof {
                lemma_first_true_stable(eligible, i + 1, 4);
            }
            return Some(i as u32);
        }
        assert(!eligible[i as int]);
        assert(first_true(eligible, i + 1) is None);
        i = i + 1;
    }
    let mut j: usize = 0;
    while j < 4
        invariant
            0 <= j <= 4,
            first_true(real_slots(connected@, is_virtual@), 4) is None,
            first_true(connected@, j as int) is None,
        decreases 4 - j,
    {
        if connected[j] {
            assert(first_true(connected@, j + 1) == Some(j as int));
            proof {
                lemma_first_true_stable(connected@, j + 1, 4);
            }
            return Some(j as u32);
        }
        j = j + 1;
    }
    None
}

pub(crate) proof fn lemma_first_true_stable(s: Seq<bool>, n: int, m: int)
    requires
        0 <= n <= m,
        first_true(s, n) is Some,
    ensures
        first_true(s, m) == first_true(s, n),
    decreases m - n,
{
    if n < m {
        lemma_first_true_stable(s, n, m - 1);
    }
}
/// Whether a device name from the XInput registry marks the ViGEm virtual
/// Xbox 360 controller (product id 028E), compared in upper case.
pub fn is_vigem_device_name(name: &str) -> (r: bool)
    ensures
        r == seq_contains(uppercase_of(name@), "PID_028E"@),
{
    let upper = uppercase_chars(name);
    let needle = chars_of("PID_028E");
    contains_chars(&upper, &needle)
}

/// Registry key (under HKLM) that holds the device name of the Xbox
/// controller in an XInput slot.
pub open spec fn xinput_key_prefix() -> Seq<char> {
    "SYSTEM\\CurrentControlSet\\Services\\XboxGip\\Parameters\\Devices\\"@
}

/// The registry key of the XInput device in slot `index`: the devices key
/// followed by the index in four zero-padded decimal digits.
pub fn xinput_device_key(index: u32) -> (r: String)
    ensures
        r@ == xinput_key_prefix() + zero_padded(decimal(index as nat), 4),
{
    let mut r = "SYSTEM\\CurrentControlSet\\Services\\XboxGip\\Parameters\\Devices\\".to_owned();
    let digits = zero_padded_decimal(index, 4);
    r.append(digits.as_str());
    r
}

pub(crate) proof fn lemma_first_true(s: Seq<bool>, n: int)
    requires
        0 <= n <= s.len(),
    ensures
        first_true(s, n) matches Some(i) ==> 0 <= i < n && s[i] && forall|j: int| 0 <= j < i ==> !s[j],
        first_true(s, n) is None ==> forall|j: int| 0 <= j < n ==> !s[j],
    decreases n,
{
    if n > 0 {
        lemma_first_true(s, n - 1);
    }
}

/// The physical slot, characterised: the chosen slot is connected; it is
/// not the virtual controller unless every connected slot is; no earlier
/// slot is a connected real controller, and when a virtual one is chosen
/// no earlier slot is connected at all. Nothing is chosen only when no slot
/// is connected.
pub proof fn law_physical_slot(connected: Seq<bool>, is_virtual: Seq<bool>)
    requires
        connected.len() == XINPUT_SLOTS,
        is_virtual.len() == XINPUT_SLOTS,
    ensures
        spec_physical_slot(connected, is_virtual) matches Some(i) ==> {
            &&& 0 <= i < 4
            &&& connected[i]
            &&& forall|j: int| 0 <= j < i ==> !(connected[j] && !is_virtual[j])
            &&& is_virtual[i] ==> forall|j: int| 0 <= j < 4 ==> !(connected[j] && !is_virtual[j])
            &&& is_virtual[i] ==> forall|j: int| 0 <= j < i ==> !connected[j]
        },
        spec_physical_slot(connected, is_virtual) is None <==> forall|j: int| 0 <= j < 4 ==> !connected[j],
{
    let eligible = real_slots(connected, is_virtual);
    lemma_first_true(eligible, 4);
    lemma_first_true(connected, 4);
    assert forall|j: int| 0 <= j < 4 implies eligible[j] == (connected[j] && !is_virtual[j]) by {}
    if spec_physical_slot(connected, is_virtual) is None {
        assert(first_true(connected, 4) is None);
    } else if forall|j: int| 0 <= j < 4 ==> !connected[j] {
        assert(first_true(connected, 4) is None);
        assert(first_true(eligible, 4) is None) by {
            if let Some(i) = first_true(eligible, 4) {
                assert(eligible[i]);
            }
        }
    }
}

} // verus!
