use better_aim_assist::controller::{
    controller_name, is_target_device, is_vigem_device_name, parse_controller_choice, pick_physical_slot,
    product_ids, xinput_device_key, ControllerType,
};
use better_aim_assist::hidhide::{hide_commands, hidhide_cli_candidates, release_commands, unhide_commands};
use better_aim_assist::text::chars_of;
use better_aim_assist::host::{
    detection_hint_due, ready_wait_ms, first_contained, anti_cheat_entry, detect_anti_cheat, game_running, is_shutdown_event, plan_dependencies, window_title,
    DependencyPlan,
};

#[test]
fn controller_choice() {
    assert_eq!(parse_controller_choice("1\r\n"), Some(ControllerType::Xbox));
    assert_eq!(parse_controller_choice(" 2 "), Some(ControllerType::DualSense));
    assert_eq!(parse_controller_choice("3"), Some(ControllerType::DualShock4));
    assert_eq!(parse_controller_choice("4\n"), None);
    assert_eq!(parse_controller_choice("12"), None);
    assert_eq!(parse_controller_choice("\n"), None);
    assert_eq!(parse_controller_choice("1 2"), None);
}

#[test]
fn controller_names() {
    assert_eq!(controller_name(ControllerType::Xbox), "Xbox");
    assert_eq!(controller_name(ControllerType::DualSense), "DualSense (PS5)");
    assert_eq!(controller_name(ControllerType::DualShock4), "DualShock 4 (PS4)");
}

#[test]
fn hid_device_matching() {
    assert_eq!(product_ids(ControllerType::DualShock4), vec![0x05C4, 0x09CC]);
    assert_eq!(product_ids(ControllerType::DualSense), vec![0x0CE6]);
    assert!(product_ids(ControllerType::Xbox).is_empty());
    assert!(is_target_device(ControllerType::DualShock4, 0x054C, 0x09CC));
    assert!(!is_target_device(ControllerType::DualShock4, 0x054C, 0x0CE6));
    assert!(is_target_device(ControllerType::DualSense, 0x054C, 0x0CE6));
    assert!(!is_target_device(ControllerType::DualSense, 0x045E, 0x0CE6));
    assert!(!is_target_device(ControllerType::Xbox, 0x054C, 0x05C4));
}

#[test]
fn physical_slot_choice() {
    assert_eq!(pick_physical_slot([true, true, false, false], [true, false, false, false]), Some(1));
    assert_eq!(pick_physical_slot([true, false, false, false], [true, false, false, false]), Some(0));
    assert_eq!(pick_physical_slot([false, false, true, true], [false, false, false, false]), Some(2));
    assert_eq!(pick_physical_slot([false; 4], [true; 4]), None);
}

#[test]
fn vigem_device_names() {
    assert!(is_vigem_device_name("USB\\VID_045E&PID_028E\\1"));
    assert!(is_vigem_device_name("usb\\vid_045e&pid_028e"));
    assert!(!is_vigem_device_name("USB\\VID_045E&PID_0B13"));
}

#[test]
fn xinput_registry_key() {
    assert_eq!(
        xinput_device_key(2),
        "SYSTEM\\CurrentControlSet\\Services\\XboxGip\\Parameters\\Devices\\0002"
    );
    assert_eq!(
        xinput_device_key(12345),
        format!(r"SYSTEM\CurrentControlSet\Services\XboxGip\Parameters\Devices\{:04}", 12345)
    );
}

#[test]
fn anti_cheat_detection() {
    let list = "Image Name   PID\nexplorer.exe 100\nFACEIT.EXE 200\nVGC.exe 300\n";
    let hit = detect_anti_cheat(list).unwrap();
    assert_eq!(hit.name, "Vanguard");
    assert_eq!(hit.process, "vgc.exe");
    assert_eq!(hit.message, "DO NOT use this tool with Vanguard — permanent Valorant ban risk.");
    let only_eac = detect_anti_cheat("easyanticheat_eos.exe 12");
    assert_eq!(only_eac.unwrap().process, "EasyAntiCheat_EOS.exe");
    assert!(detect_anti_cheat("explorer.exe\nsvchost.exe\n").is_none());
    assert_eq!(anti_cheat_entry(11).name, "Ricochet");
    assert_eq!(anti_cheat_entry(10).message, "Close FACEIT before running this tool.");
}

#[test]
fn game_detection() {
    assert!(game_running("FortniteClient-Win64-Shipping.exe  4242"));
    assert!(!game_running("fortnitelauncher.exe"));
}

#[test]
fn dependency_plans() {
    assert_eq!(plan_dependencies(true, true), DependencyPlan { ready: true, open_vigembus: false, open_hidhide: false });
    assert_eq!(plan_dependencies(false, true), DependencyPlan { ready: false, open_vigembus: true, open_hidhide: false });
    assert_eq!(plan_dependencies(false, false), DependencyPlan { ready: false, open_vigembus: true, open_hidhide: true });
}

#[test]
fn window_titles() {
    assert_eq!(window_title(0), "C:\\Windows\\System32\\cmd.exe");
    assert_eq!(window_title(9), "Administrator: Command Prompt");
    assert_eq!(window_title(7), "Administrator: C:\\Windows\\System32\\cmd.exe");
}

#[test]
fn shutdown_events() {
    assert!(is_shutdown_event(0));
    assert!(!is_shutdown_event(1));
    assert!(is_shutdown_event(2));
    assert!(!is_shutdown_event(3));
    assert!(is_shutdown_event(5));
    assert!(is_shutdown_event(6));
}

#[test]
fn hidhide_command_lines() {
    let devices = vec!["HID\\A".to_string(), "HID\\B".to_string()];
    let hide = hide_commands(&devices, "C:\\proxy.exe");
    assert_eq!(
        hide,
        vec![
            vec!["--dev-hide".to_string(), "HID\\A".to_string()],
            vec!["--dev-hide".to_string(), "HID\\B".to_string()],
            vec!["--app-reg".to_string(), "C:\\proxy.exe".to_string()],
            vec!["--cloak-on".to_string()],
        ]
    );
    assert_eq!(
        release_commands("C:\\proxy.exe"),
        vec![vec!["--cloak-off".to_string()], vec!["--app-unreg".to_string(), "C:\\proxy.exe".to_string()]]
    );
    assert_eq!(
        unhide_commands(&devices),
        vec![
            vec!["--dev-unhide".to_string(), "HID\\A".to_string()],
            vec!["--dev-unhide".to_string(), "HID\\B".to_string()],
        ]
    );
}

#[test]
fn first_needle_found() {
    let hay = chars_of("abc vgc.exe faceit.exe");
    let needles = vec![chars_of("vanguard.exe"), chars_of("faceit.exe"), chars_of("vgc.exe")];
    assert_eq!(first_contained(&hay, &needles), Some(1));
    assert_eq!(first_contained(&hay, &vec![chars_of("zzz")]), None);
    assert_eq!(first_contained(&hay, &Vec::new()), None);
}

#[test]
fn no_devices_no_hiding() {
    assert!(hide_commands(&Vec::new(), "C:\\proxy.exe").is_empty());
    assert!(unhide_commands(&Vec::new()).is_empty());
}

#[test]
fn readiness_waits() {
    assert_eq!(ready_wait_ms(0), None);
    assert_eq!(ready_wait_ms(1), Some(200));
    assert_eq!(ready_wait_ms(10), Some(2000));
    assert_eq!(ready_wait_ms(11), None);
}

#[test]
fn detection_hint_once_after_ten_seconds() {
    assert!(!detection_hint_due(9, false));
    assert!(detection_hint_due(10, false));
    assert!(!detection_hint_due(12, true));
}

#[test]
fn cli_candidates_in_order() {
    let dirs = vec!["C:\\A".to_string(), "D:\\B".to_string()];
    let c = hidhide_cli_candidates(&dirs);
    assert_eq!(c, vec![
        (Some("C:\\A".to_string()), "x64\\HidHideCLI.exe"),
        (Some("C:\\A".to_string()), "HidHideCLI.exe"),
        (Some("D:\\B".to_string()), "x64\\HidHideCLI.exe"),
        (Some("D:\\B".to_string()), "HidHideCLI.exe"),
        (None, "C:\\Program Files\\Nefarius Software Solutions\\HidHide\\x64\\HidHideCLI.exe"),
        (None, "C:\\Program Files\\Nefarius Software Solutions\\HidHide\\HidHideCLI.exe"),
    ]);
    assert_eq!(hidhide_cli_candidates(&Vec::new()).len(), 2);
}
