use better_aim_assist::layout::{
    aim_status_row, banner_rows, dashboard_rows, keybind_row, pair_row, text_row, trigger_status_row, Segment, Style,
    aim_badge, box_bot_line, box_empty_line, box_mid_line, box_top_line, gap_spaces, inner, key_column, pad,
    section_bar, section_end_line, trigger_badge, vlen, w, Tone,
};
use better_aim_assist::text::{
    chars_of, contains_chars, decimal_string, is_whitespace, trimmed_chars, zero_padded_decimal,
};

#[test]
fn widths() {
    assert_eq!(w(), 66);
    assert_eq!(inner(), 62);
    assert_eq!(vlen("║ ab"), 4);
    assert_eq!(vlen(""), 0);
}

#[test]
fn padding() {
    assert_eq!(pad("ab", 5), "ab   ");
    assert_eq!(pad("abcdef", 3), "abcdef");
    assert_eq!(pad("══", 3), "══ ");
}

#[test]
fn gaps() {
    assert_eq!(gap_spaces(60), "  ");
    assert_eq!(gap_spaces(62), "");
    assert_eq!(gap_spaces(100), "");
    assert_eq!(gap_spaces(0).len(), 62);
}

#[test]
fn frame_rules() {
    let top = box_top_line();
    assert_eq!(top.chars().count(), 66);
    assert!(top.starts_with('╔') && top.ends_with('╗'));
    assert_eq!(box_mid_line(), format!("╠{}╣", "═".repeat(64)));
    assert_eq!(box_bot_line(), format!("╚{}╝", "═".repeat(64)));
    assert_eq!(box_empty_line(), format!("║{}║", " ".repeat(64)));
}

#[test]
fn sections() {
    assert_eq!(section_bar("DEPENDENCIES"), "─".repeat(50));
    assert_eq!(section_bar(&"x".repeat(70)), "");
    assert_eq!(section_end_line(), format!("  └{}\r\n", "─".repeat(63)));
}

#[test]
fn key_columns() {
    assert_eq!(key_column("F5"), format!("  {:>7}", "F5"));
    assert_eq!(key_column("Ctrl+C"), "   Ctrl+C");
    assert_eq!(key_column("LongerKey"), "  LongerKey");
}

#[test]
fn badges() {
    assert_eq!(aim_badge(true), ("[ ENABLED ]", Tone::Success));
    assert_eq!(aim_badge(false), ("[ STANDBY ]", Tone::Dim));
    assert_eq!(trigger_badge(true), ("[ ON ]  ", Tone::Success));
    assert_eq!(trigger_badge(false), ("[ OFF ] ", Tone::Warning));
}

#[test]
fn status_row_is_frame_wide() {
    let label = "  Aim Assist";
    let (badge, _) = aim_badge(true);
    let row = format!("║ {}{}{} ║", label, gap_spaces(vlen(label) + vlen(badge)), badge);
    assert_eq!(row.chars().count(), 66);
    let text_row = format!("║ {} ║", pad("  !  Do NOT close via Task Manager or End Task", inner()));
    assert_eq!(text_row.chars().count(), 66);
}

#[test]
fn substring_search() {
    let hay = chars_of("abcabd");
    assert!(contains_chars(&hay, &chars_of("abd")));
    assert!(contains_chars(&hay, &chars_of("")));
    assert!(!contains_chars(&hay, &chars_of("abe")));
    assert!(!contains_chars(&chars_of("ab"), &chars_of("abc")));
}

#[test]
fn trimming() {
    assert_eq!(trimmed_chars("  1\r\n"), vec!['1']);
    assert_eq!(trimmed_chars("\u{3000}a b\u{a0}"), vec!['a', ' ', 'b']);
    assert_eq!(trimmed_chars(" \t\n"), Vec::<char>::new());
    assert!(is_whitespace('\u{2028}'));
    assert!(!is_whitespace('\u{200b}'));
    for c in ['\t', ' ', '\u{85}', '\u{1680}', '\u{2005}', 'x', '\u{200b}', '\u{feff}'] {
        assert_eq!(is_whitespace(c), c.is_whitespace());
    }
}

#[test]
fn decimals() {
    assert_eq!(decimal_string(0), "0");
    assert_eq!(decimal_string(1234), "1234");
    assert_eq!(decimal_string(u32::MAX), u32::MAX.to_string());
    assert_eq!(zero_padded_decimal(3, 4), "0003");
    assert_eq!(zero_padded_decimal(12345, 4), "12345");
    assert_eq!(zero_padded_decimal(0, 4), format!("{:04}", 0));
}

fn text_of(row: &[Segment]) -> String {
    row.iter().map(|s| s.text.as_str()).collect()
}

#[test]
fn banner_rows_fill_the_frame() {
    let rows = banner_rows();
    assert_eq!(rows.len(), 9);
    for row in &rows {
        assert_eq!(text_of(row).chars().count(), 66);
    }
    assert!(text_of(&rows[6]).contains("by Kira Kohler"));
}

#[test]
fn dashboard_rows_fill_the_frame() {
    let d = dashboard_rows("DualSense (PS5)", true);
    assert_eq!(d.rows.len(), 20);
    assert_eq!((d.aim_row, d.trigger_row), (4, 5));
    for row in &d.rows {
        assert_eq!(text_of(row).chars().count(), 66);
    }
    assert_eq!(text_of(&d.rows[4]), text_of(&aim_status_row(true)));
    assert!(text_of(&d.rows[4]).ends_with("[ ENABLED ] ║"));
    assert!(text_of(&d.rows[6]).ends_with("DualSense (PS5) ║"));
    assert!(text_of(&d.rows[10]).starts_with("║        F5  |  Toggle aim assist on / off"));
    let standby = dashboard_rows("Xbox", false);
    assert!(text_of(&standby.rows[4]).ends_with("[ STANDBY ] ║"));
    assert_eq!(standby.rows[4][3].style.tone, Tone::Dim);
}

#[test]
fn long_name_overflows_only_its_row() {
    let name = "n".repeat(60);
    let d = dashboard_rows(&name, false);
    assert!(text_of(&d.rows[6]).chars().count() > 66);
    assert_eq!(text_of(&d.rows[5]).chars().count(), 66);
}

#[test]
fn row_builders() {
    let plain = Style { tone: Tone::Plain, bold: false, dim: false };
    let r = pair_row("ab", plain, "cd", plain);
    assert_eq!(text_of(&r), format!("║ ab{}cd ║", " ".repeat(58)));
    assert_eq!(text_of(&text_row("x", plain)), format!("║ x{} ║", " ".repeat(61)));
    assert_eq!(text_of(&keybind_row("F6", "go")).chars().count(), 66);
    assert!(text_of(&trigger_status_row(false)).ends_with("[ OFF ]  ║"));
}

#[test]
fn character_counts() {
    let s = "a═b";
    assert_eq!(vlen(s), 3);
    assert!(vlen(s) < s.len());
    assert_eq!(vlen("abc"), "abc".len());
    let joined = "a═".to_string() + "bé";
    assert_eq!(vlen(&joined), vlen("a═") + vlen("bé"));
}

fn styles_of(row: &[Segment]) -> Vec<(Tone, bool, bool)> {
    row.iter().map(|s| (s.style.tone, s.style.bold, s.style.dim)).collect()
}

#[test]
fn banner_rows_exactly() {
    let rows = banner_rows();
    let texts: Vec<String> = rows.iter().map(|r| text_of(r)).collect();
    assert_eq!(texts[0], format!("╔{}╗", "═".repeat(64)));
    assert_eq!(texts[1], format!("║{}║", " ".repeat(64)));
    assert_eq!(texts[2], format!("║ {} ║", pad("  ▄▀█ █ █▀▄▀█   ▄▀█ █▀ █▀ █ █▀ ▀█▀", 62)));
    assert_eq!(texts[3], format!("║ {} ║", pad("  █▀█ █ █ ▀ █   █▀█ ▄█ ▄█ █ ▄█  █ ", 62)));
    assert_eq!(texts[4], texts[1]);
    assert_eq!(texts[5], format!("╠{}╣", "═".repeat(64)));
    assert_eq!(texts[6], format!("║   by Kira Kohler{}github.com/Kira-Kohler/BetterAimAssist   ║", " ".repeat(6)));
    assert_eq!(texts[7], texts[1]);
    assert_eq!(texts[8], format!("╚{}╝", "═".repeat(64)));
    assert_eq!(styles_of(&rows[2])[1], (Tone::Accent, true, false));
    assert_eq!(styles_of(&rows[6])[1], (Tone::Dim, false, true));
    assert_eq!(styles_of(&rows[6])[3], (Tone::Dim, false, true));
}

#[test]
fn dashboard_rows_exactly() {
    let d = dashboard_rows("Xbox", true);
    let texts: Vec<String> = d.rows.iter().map(|r| text_of(r)).collect();
    assert!(texts[0].starts_with('╔') && texts[19].starts_with('╚'));
    for t in &texts[1..19] {
        assert!((t.starts_with('║') && t.ends_with('║')) || (t.starts_with('╠') && t.ends_with('╣')));
    }
    assert_eq!(texts[1], format!("║   BETTER AIM-ASSIST{}* ACTIVE   ║", " ".repeat(62 - 19 - 10)));
    assert_eq!(texts[5], format!("║   Trigger Mode{}[ ON ] ║", " ".repeat(62 - 14 - 6)));
    assert_eq!(texts[6], format!("║   Controller{}Xbox ║", " ".repeat(62 - 12 - 4)));
    assert!(texts[10].contains("F5  |  Toggle aim assist on / off"));
    assert!(texts[11].contains("F6  |  Toggle trigger (LT/L2) activation"));
    assert!(texts[12].contains("Ctrl+C  |  Exit - restores controller automatically"));
    assert_eq!(texts[16], format!("║ {} ║", pad("  !  Do NOT close via Task Manager or End Task", 62)));
    assert_eq!(styles_of(&d.rows[4])[3], (Tone::Success, true, false));
    assert_eq!(styles_of(&d.rows[10]), vec![
        (Tone::Border, true, false),
        (Tone::Accent, true, false),
        (Tone::Dim, false, false),
        (Tone::Title, false, false),
        (Tone::Plain, false, false),
        (Tone::Border, true, false),
    ]);
    assert_eq!(styles_of(&d.rows[17])[1], (Tone::Dim, false, true));
}
