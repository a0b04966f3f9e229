use better_aim_assist::report::{ps_axis_to_i16, ps_buttons, read_ds4, read_dualsense};

#[test]
fn axis_centre_and_extremes() {
    assert_eq!(ps_axis_to_i16(0x80), 0);
    assert_eq!(ps_axis_to_i16(0xFF), 32767);
    assert_eq!(ps_axis_to_i16(0x00), -32767);
}

#[test]
fn axis_one_step_each_side() {
    // 1 * 32767 / 127 and -(1 * 32767 / 128), truncated toward zero
    assert_eq!(ps_axis_to_i16(0x81), 258);
    assert_eq!(ps_axis_to_i16(0x7F), -255);
    assert_eq!(ps_axis_to_i16(0xC0), (64i32 * 32767 / 127) as i16);
    assert_eq!(ps_axis_to_i16(0x40), -((64i32 * 32767 / 128) as i16));
}

#[test]
fn button_table_face_buttons() {
    // hat released (8), cross
    assert_eq!(ps_buttons(0x28, 0), 0x1000);
    assert_eq!(ps_buttons(0x48, 0), 0x2000);
    assert_eq!(ps_buttons(0x18, 0), 0x4000);
    assert_eq!(ps_buttons(0x88, 0), 0x8000);
}

#[test]
fn button_table_shoulder_buttons() {
    assert_eq!(ps_buttons(0x08, 0x01), 0x0100);
    assert_eq!(ps_buttons(0x08, 0x02), 0x0200);
    assert_eq!(ps_buttons(0x08, 0x40), 0x0040);
    assert_eq!(ps_buttons(0x08, 0x80), 0x0080);
    assert_eq!(ps_buttons(0x08, 0x20), 0x0010);
    assert_eq!(ps_buttons(0x08, 0x10), 0x0020);
    // L2/R2 digital bits map to nothing
    assert_eq!(ps_buttons(0x08, 0x0C), 0);
}

#[test]
fn hat_directions() {
    assert_eq!(ps_buttons(0, 0), 0x0001);
    assert_eq!(ps_buttons(1, 0), 0x0009);
    assert_eq!(ps_buttons(2, 0), 0x0008);
    assert_eq!(ps_buttons(3, 0), 0x000A);
    assert_eq!(ps_buttons(4, 0), 0x0002);
    assert_eq!(ps_buttons(5, 0), 0x0006);
    assert_eq!(ps_buttons(6, 0), 0x0004);
    assert_eq!(ps_buttons(7, 0), 0x0005);
    assert_eq!(ps_buttons(8, 0), 0);
    assert_eq!(ps_buttons(15, 0), 0);
}

#[test]
fn ds4_usb_report() {
    // id, lx, ly, rx, ry, face(cross, hat released), shoulder(L1), counter, lt, rt
    let buf = [0x01u8, 0xFF, 0x00, 0x80, 0xFF, 0x28, 0x01, 0x00, 200, 10];
    let r = read_ds4(&buf);
    assert_eq!(r, (32767, 32767, 0, -32767, 200, 10, 0x1100, true));
}

#[test]
fn ds4_bluetooth_report() {
    let buf = [0x11u8, 0xC0, 0x00, 0x80, 0x80, 0x80, 0x80, 0x08, 0x00, 0x00, 30, 31];
    let r = read_ds4(&buf);
    assert_eq!(r, (0, 0, 0, 0, 30, 31, 0, false));
}

#[test]
fn ds4_short_report_is_neutral() {
    let buf = [0x01u8, 0xFF, 0xFF, 0xFF, 0xFF, 0xFF, 0xFF, 0xFF, 0xFF];
    assert_eq!(read_ds4(&buf), (0, 0, 0, 0, 0, 0, 0, false));
    let bt = [0x11u8, 0, 0, 0, 0, 0, 0, 0, 0, 0, 0];
    assert_eq!(read_ds4(&bt), (0, 0, 0, 0, 0, 0, 0, false));
}

#[test]
fn dualsense_usb_report() {
    // id, lx, ly, rx, ry, lt, rt, counter, face(triangle, hat N), shoulder(options)
    let buf = [0x01u8, 0x00, 0xFF, 0x80, 0x80, 31, 255, 0x00, 0x80, 0x20];
    let r = read_dualsense(&buf);
    assert_eq!(r, (-32767, -32767, 0, 0, 31, 255, 0x8011, true));
}

#[test]
fn dualsense_bluetooth_report() {
    let buf = [0x31u8, 0x00, 0x00, 0x80, 0x80, 0x80, 0x80, 5, 6, 0, 0x08, 0x02];
    let r = read_dualsense(&buf);
    assert_eq!(r, (0, 0, 0, 0, 5, 6, 0x0200, false));
}

#[test]
fn dualsense_short_report_is_neutral() {
    let buf = [0x31u8, 0, 0, 0, 0, 0, 0, 0, 0, 0, 0];
    assert_eq!(read_dualsense(&buf), (0, 0, 0, 0, 0, 0, 0, false));
}

#[test]
fn same_mapping_for_both_pads() {
    let ds4 = [0x01u8, 0x80, 0x80, 0x80, 0x80, 0x65, 0xC3, 0, 0, 0];
    let ds = [0x01u8, 0x80, 0x80, 0x80, 0x80, 0, 0, 0, 0x65, 0xC3];
    assert_eq!(read_ds4(&ds4).6, read_dualsense(&ds).6);
}
