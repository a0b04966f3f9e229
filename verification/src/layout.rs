//! Text of the console frame: widths, padding, the box rules and the
//! status badges. Printing (colours, cursor moves) is left to the caller.
use vstd::prelude::*;
use vstd::string::StringSliceAdditionalSpecFns;

verus! {

/// Width of the console frame, in columns.
pub const W: u16 = 66;

/// Visual tone of a piece of text; the caller maps each to a colour.
#[derive(Clone, Copy, Debug, PartialEq, Eq, Structural)]
pub enum Tone {
    Border,
    Title,
    Dim,
    Success,
    Warning,
    Failure,
    Accent,
    /// The terminal's own colour.
    Plain,
}

/// How a piece of text is shown: its tone, and bold or dim.
#[derive(Clone, Copy, Debug, PartialEq, Eq, Structural)]
pub struct Style {
    pub tone: Tone,
    pub bold: bool,
    pub dim: bool,
}

/// A piece of a frame row.
#[derive(Debug)]
pub struct Segment {
    pub text: String,
    pub style: Style,
}

/// The rows of the dashboard, and which of them show the two statuses
/// (redrawn in place when they change).
#[derive(Debug)]
pub struct Dashboard {
    pub rows: Vec<Vec<Segment>>,
    pub aim_row: usize,
    pub trigger_row: usize,
}

/// `n` copies of `c`.
pub open spec fn repeat_char(c: char, n: nat) -> Seq<char> {
    Seq::new(n, |_i: int| c)
}

/// Width of the text area inside the frame: the frame less "║ " and " ║".
pub open spec fn inner_width() -> nat {
    (W - 4) as nat
}

/// `s` followed by enough spaces to make it `width` characters wide;
/// `s` itself when it is already that wide.
pub open spec fn spec_pad(s: Seq<char>, width: nat) -> Seq<char> {
    if s.len() >= width {
        s
    } else {
        s + repeat_char(' ', (width - s.len()) as nat)
    }
}

/// The spaces that fill the text area after `used` columns of content
/// (none once the content fills it).
pub open spec fn spec_gap(used: nat) -> Seq<char> {
    repeat_char(' ', if used >= inner_width() { 0 } else { (inner_width() - used) as nat })
}

/// A full-width frame rule: `left`, `W - 2` copies of `fill`, `right`.
pub open spec fn frame_rule(left: char, fill: char, right: char) -> Seq<char> {
    seq![left] + repeat_char(fill, (W - 2) as nat) + seq![right]
}

/// The rule under a section label: enough `─` to reach the frame width
/// after the four columns of "  ┌╴" and the label.
pub open spec fn spec_section_bar(label: Seq<char>) -> Seq<char> {
    repeat_char('─', if 4 + label.len() >= W { 0 } else { (W - 4 - label.len()) as nat })
}

/// A key name right-aligned in a 7-column field after two spaces, as
/// `format!("  {:>7}", key)` lays it out.
pub open spec fn spec_key_column(key: Seq<char>) -> Seq<char> {
    seq![' ', ' '] + repeat_char(' ', if key.len() >= 7 { 0 } else { (7 - key.len()) as nat }) + key
}

/// Frame width.
pub fn w() -> (r: usize)
    ensures
        r == W,
{
    66
}

/// Width of the text area inside the frame.
pub fn inner() -> (r: usize)
    ensures
        r == inner_width(),
{
    w() - 4
}

/// Number of characters (not bytes) in `s`.
pub fn vlen(s: &str) -> (r: usize)
    ensures
        r == s@.len(),
{
    s.unicode_len()
}

/// `n` copies of the one-character string `unit`.
fn repeat_str(unit: &str, n: usize) -> (r: String)
    requires
        unit@.len() == 1,
    ensures
        r@ == repeat_char(unit@[0], n as nat),
{
    let mut r = String::new();
    let mut k: usize = 0;
    while k < n
        invariant
            unit@.len() == 1,
            k <= n,
            r@ == repeat_char(unit@[0], k as nat),
        decreases n - k,
    {
        r.append(unit);
        k = k + 1;
        assert(r@ =~= repeat_char(unit@[0], k as nat));
    }
    r
}

/// `n` spaces.
fn spaces(n: usize) -> (r: String)
    ensures
        r@ == repeat_char(' ', n as nat),
{
    proof {
        reveal_strlit(" ");
    }
    repeat_str(" ", n)
}

/// `s` padded with spaces on the right to `width` characters.
pub fn pad(s: &str, width: usize) -> (r: String)
    ensures
        r@ == spec_pad(s@, width as nat),
{
    let len = vlen(s);
    if len >= width {
        s.to_owned()
    } else {
        let mut r = s.to_owned();
        let fill = spaces(width - len);
        r.append(fill.as_str());
        r
    }
}

/// The spaces that complete a frame row after `used` columns of content.
pub fn gap_spaces(used: usize) -> (r: String)
    ensures
        r@ == spec_gap(used as nat),
{
    let inner = w() - 4;
    let n: usize = if used >= inner { 0 } else { inner - used };
    spaces(n)
}

fn rule(left: &str, fill: &str, right: &str) -> (r: String)
    requires
        left@.len() == 1,
        fill@.len() == 1,
        right@.len() == 1,
    ensures
        r@ == frame_rule(left@[0], fill@[0], right@[0]),
{
    let mut r = left.to_owned();
    let body = repeat_str(fill, w() - 2);
    r.append(body.as_str());
    r.append(right);
    assert(r@ =~= frame_rule(left@[0], fill@[0], right@[0]));
    r
}

/// Top edge of the frame: "╔═…═╗".
pub fn box_top_line() -> (r: String)
    ensures
        r@ == frame_rule('╔', '═', '╗'),
{
    proof {
        reveal_strlit("╔");
        reveal_strlit("═");
        reveal_strlit("╗");
    }
    rule("╔", "═", "╗")
}

/// Divider inside the frame: "╠═…═╣".
pub fn box_mid_line() -> (r: String)
    ensures
        r@ == frame_rule('╠', '═', '╣'),
{
    proof {
        reveal_strlit("╠");
        reveal_strlit("═");
        reveal_strlit("╣");
    }
    rule("╠", "═", "╣")
}

/// Bottom edge of the frame: "╚═…═╝".
pub fn box_bot_line() -> (r: String)
    ensures
        r@ == frame_rule('╚', '═', '╝'),
{
    proof {
        reveal_strlit("╚");
        reveal_strlit("═");
        reveal_strlit("╝");
    }
    rule("╚", "═", "╝")
}

/// An empty frame row: "║ … ║".
pub fn box_empty_line() -> (r: String)
    ensures
        r@ == frame_rule('║', ' ', '║'),
{
    proof {
        reveal_strlit("║");
        reveal_strlit(" ");
    }
    rule("║", " ", "║")
}

/// The rule drawn after a section label.
pub fn section_bar(label: &str) -> (r: String)
    ensures
        r@ == spec_section_bar(label@),
{
    let len = vlen(label);
    let n: usize = if len >= w() - 4 { 0 } else { w() - 4 - len };
    proof {
        reveal_strlit("─");
    }
    repeat_str("─", n)
}

/// The line that closes a section: "  └" and a rule to the frame width.
pub fn section_end_line() -> (r: String)
    ensures
        r@ == seq![' ', ' ', '└'] + repeat_char('─', (W - 3) as nat) + seq!['\r', '\n'],
{
    proof {
        reveal_strlit("  └");
        reveal_strlit("─");
        reveal_strlit("\r\n");
    }
    let mut r = "  └".to_owned();
    let bar = repeat_str("─", w() - 3);
    r.append(bar.as_str());
    r.append("\r\n");
    assert(r@ =~= seq![' ', ' ', '└'] + repeat_char('─', (W - 3) as nat) + seq!['\r', '\n']);
    r
}

/// A key name right-aligned in the key-binding column.
pub fn key_column(key: &str) -> (r: String)
    ensures
        r@ == spec_key_column(key@),
{
    let len = vlen(key);
    let fill: usize = if len >= 7 { 0 } else { 7 - len };
    proof {
        reveal_strlit("  ");
    }
    let mut r = "  ".to_owned();
    let lead = spaces(fill);
    r.append(lead.as_str());
    r.append(key);
    assert(r@ =~= spec_key_column(key@));
    r
}

/// Badge and tone of the aim-assist status row.
pub fn aim_badge(enabled: bool) -> (r: (&'static str, Tone))
    ensures
        enabled ==> r.0@ == "[ ENABLED ]"@ && r.1 == Tone::Success,
        !enabled ==> r.0@ == "[ STANDBY ]"@ && r.1 == Tone::Dim,
{
    if enabled {
        ("[ ENABLED ]", Tone::Success)
    } else {
        ("[ STANDBY ]", Tone::Dim)
    }
}

/// Badge and tone of the trigger-mode status row.
pub fn trigger_badge(enabled: bool) -> (r: (&'static str, Tone))
    ensures
        enabled ==> r.0@ == "[ ON ]  "@ && r.1 == Tone::Success,
        !enabled ==> r.0@ == "[ OFF ] "@ && r.1 == Tone::Warning,
{
    if enabled {
        ("[ ON ]  ", Tone::Success)
    } else {
        ("[ OFF ] ", Tone::Warning)
    }
}

/// Every row of the frame is `W` columns wide: the rules and the empty row,
/// a padded text row "║ " + pad(text) + " ║",
/// and a label/badge row "║ " + label + gap + badge + " ║", whenever the
/// text, or the label and badge together, fit the text area.
pub proof fn law_rows_fill_frame(left: char, fill: char, right: char, text: Seq<char>, label: Seq<char>, badge: Seq<char>)
    ensures
        frame_rule(left, fill, right).len() == W,
        text.len() <= inner_width() ==> (seq!['║', ' '] + spec_pad(text, inner_width()) + seq![' ', '║']).len() == W,
        label.len() + badge.len() <= inner_width() ==>
            (seq!['║', ' '] + label + spec_gap(label.len() + badge.len()) + badge + seq![' ', '║']).len() == W,
{
}

/// Padding keeps the text as it is, at the front, and makes the result
/// exactly as wide as asked when the text is narrower, as wide as the text
/// otherwise.
pub proof fn law_pad_keeps_text(s: Seq<char>, width: nat)
    ensures
        spec_pad(s, width).subrange(0, s.len() as int) == s,
        spec_pad(s, width).len() == if s.len() >= width { s.len() } else { width },
        forall|i: int| s.len() <= i < spec_pad(s, width).len() ==> spec_pad(s, width)[i] == ' ',
{
    assert(spec_pad(s, width).subrange(0, s.len() as int) =~= s);
}

/// The text of a row: its segments' texts, in order.
pub open spec fn row_text(row: Seq<Segment>) -> Seq<char>
    decreases row.len(),
{
    if row.len() == 0 {
        Seq::empty()
    } else {
        row_text(row.drop_last()) + row.last().text@
    }
}

/// Every row is exactly `W` columns wide.
pub open spec fn rows_fill_frame(rows: Seq<Vec<Segment>>) -> bool {
    forall|i: int| 0 <= i < rows.len() ==> (#[trigger] row_text(rows[i]@)).len() == W
}

pub open spec fn border_style() -> Style {
    Style { tone: Tone::Border, bold: true, dim: false }
}

pub open spec fn plain_style() -> Style {
    Style { tone: Tone::Plain, bold: false, dim: false }
}

/// The text of a label/value row.
pub open spec fn pair_text(label: Seq<char>, value: Seq<char>) -> Seq<char> {
    seq!['║', ' '] + label + spec_gap(label.len() + value.len()) + value + seq![' ', '║']
}

/// The text of a padded text row.
pub open spec fn text_row_text(text: Seq<char>) -> Seq<char> {
    seq!['║', ' '] + spec_pad(text, inner_width()) + seq![' ', '║']
}

fn segment(text: String, style: Style) -> (r: Segment)
    ensures
        r.text@ == text@,
        r.style == style,
{
    Segment { text, style }
}

fn style(tone: Tone, bold: bool, dim: bool) -> (r: Style)
    ensures
        r == (Style { tone, bold, dim }),
{
    Style { tone, bold, dim }
}

fn border_piece(s: &str) -> (r: Segment)
    ensures
        r.text@ == s@,
        r.style == border_style(),
{
    segment(s.to_owned(), style(Tone::Border, true, false))
}

proof fn lemma_row_text_5(row: Seq<Segment>)
    requires
        row.len() == 5,
    ensures
        row_text(row) == row[0].text@ + row[1].text@ + row[2].text@ + row[3].text@ + row[4].text@,
{
    reveal_with_fuel(row_text, 6);
    assert(row.drop_last().drop_last().drop_last().drop_last().drop_last().len() == 0);
    assert(row_text(row) =~= row[0].text@ + row[1].text@ + row[2].text@ + row[3].text@ + row[4].text@);
}

proof fn lemma_row_text_3(row: Seq<Segment>)
    requires
        row.len() == 3,
    ensures
        row_text(row) == row[0].text@ + row[1].text@ + row[2].text@,
{
    reveal_with_fuel(row_text, 4);
    assert(row_text(row) =~= row[0].text@ + row[1].text@ + row[2].text@);
}

proof fn lemma_row_text_1(row: Seq<Segment>)
    requires
        row.len() == 1,
    ensures
        row_text(row) == row[0].text@,
{
    reveal_with_fuel(row_text, 2);
    assert(row_text(row) =~= row[0].text@);
}

/// The style with this tone, boldness and dimness.
pub open spec fn style_of(tone: Tone, bold: bool, dim: bool) -> Style {
    Style { tone, bold, dim }
}

/// `row` is a rule row: one bold border segment with this text.
pub open spec fn is_rule_row(row: Seq<Segment>, text: Seq<char>) -> bool {
    &&& row.len() == 1
    &&& row[0].style == border_style()
    &&& row_text(row) == text
}

/// `row` is a text row: bold borders around `text` padded to the text
/// area, shown in `text_style`.
pub open spec fn is_text_row(row: Seq<Segment>, text: Seq<char>, text_style: Style) -> bool {
    &&& row.len() == 3
    &&& row[0].style == border_style()
    &&& row[1].style == text_style
    &&& row[2].style == border_style()
    &&& row_text(row) == text_row_text(text)
}

/// `row` is a label/value row: bold borders, the label in `label_style`,
/// the gap, the value in `value_style`.
pub open spec fn is_pair_row(row: Seq<Segment>, label: Seq<char>, label_style: Style, value: Seq<char>, value_style: Style) -> bool {
    &&& row.len() == 5
    &&& row[0].style == border_style()
    &&& row[1].style == label_style
    &&& row[2].style == plain_style()
    &&& row[3].style == value_style
    &&& row[4].style == border_style()
    &&& row_text(row) == pair_text(label, value)
}

/// The text of a key-binding row.
pub open spec fn keybind_text(key: Seq<char>, desc: Seq<char>) -> Seq<char> {
    pair_text(spec_key_column(key) + "  |  "@ + desc, Seq::empty())
}

/// `row` is a key-binding row: bold borders, the key column in bold
/// accent, a dim separator, the description in the title tone, the gap.
pub open spec fn is_keybind_row(row: Seq<Segment>, key: Seq<char>, desc: Seq<char>) -> bool {
    &&& row.len() == 6
    &&& row[0].style == border_style()
    &&& row[1].style == style_of(Tone::Accent, true, false)
    &&& row[2].style == style_of(Tone::Dim, false, false)
    &&& row[3].style == style_of(Tone::Title, false, false)
    &&& row[4].style == plain_style()
    &&& row[5].style == border_style()
    &&& row_text(row) == keybind_text(key, desc)
}

/// The aim-assist badge shown for the switch.
pub open spec fn aim_badge_text(enabled: bool) -> Seq<char> {
    if enabled { "[ ENABLED ]"@ } else { "[ STANDBY ]"@ }
}

/// The trigger-mode badge shown for the switch.
pub open spec fn trigger_badge_text(enabled: bool) -> Seq<char> {
    if enabled { "[ ON ]  "@ } else { "[ OFF ] "@ }
}

/// The two lines of the banner's art.
pub open spec fn banner_art(i: int) -> Seq<char> {
    if i == 0 {
        "  ▄▀█ █ █▀▄▀█   ▄▀█ █▀ █▀ █ █▀ ▀█▀"@
    } else {
        "  █▀█ █ █ ▀ █   █▀█ ▄█ ▄█ █ ▄█  █ "@
    }
}

/// A frame rule as a row: one bold border segment.
pub fn rule_row(line: String) -> (r: Vec<Segment>)
    ensures
        is_rule_row(r@, line@),
{
    let mut r: Vec<Segment> = Vec::new();
    r.push(segment(line, style(Tone::Border, true, false)));
    proof {
        lemma_row_text_1(r@);
    }
    r
}

/// A row of text padded to the text area, between the borders.
pub fn text_row(text: &str, text_style: Style) -> (r: Vec<Segment>)
    ensures
        is_text_row(r@, text@, text_style),
{
    proof {
        reveal_strlit("║ ");
        reveal_strlit(" ║");
    }
    let mut r: Vec<Segment> = Vec::new();
    r.push(border_piece("║ "));
    r.push(segment(pad(text, inner()), text_style));
    r.push(border_piece(" ║"));
    proof {
        lemma_row_text_3(r@);
        assert(row_text(r@) =~= text_row_text(text@));
    }
    r
}

/// A row with a label on the left and a value on the right, between the
/// borders.
pub fn pair_row(label: &str, label_style: Style, value: &str, value_style: Style) -> (r: Vec<Segment>)
    ensures
        is_pair_row(r@, label@, label_style, value@, value_style),
{
    proof {
        reveal_strlit("║ ");
        reveal_strlit(" ║");
    }
    let label_len = vlen(label);
    let value_len = vlen(value);
    let used: usize = if label_len > inner() || value_len > inner() { inner() } else { label_len + value_len };
    let mut r: Vec<Segment> = Vec::new();
    r.push(border_piece("║ "));
    r.push(segment(label.to_owned(), label_style));
    r.push(segment(gap_spaces(used), style(Tone::Plain, false, false)));
    r.push(segment(value.to_owned(), value_style));
    r.push(border_piece(" ║"));
    proof {
        lemma_row_text_5(r@);
        assert(spec_gap(used as nat) == spec_gap(label@.len() + value@.len()));
        assert(row_text(r@) =~= pair_text(label@, value@));
    }
    r
}

/// The status row of aim assist.
pub fn aim_status_row(enabled: bool) -> (r: Vec<Segment>)
    ensures
        is_pair_row(
            r@,
            "  Aim Assist"@,
            style_of(Tone::Title, true, false),
            aim_badge_text(enabled),
            style_of(if enabled { Tone::Success } else { Tone::Dim }, true, false),
        ),
{
    let (badge, tone) = aim_badge(enabled);
    pair_row("  Aim Assist", style(Tone::Title, true, false), badge, style(tone, true, false))
}

/// The status row of trigger mode.
pub fn trigger_status_row(enabled: bool) -> (r: Vec<Segment>)
    ensures
        is_pair_row(
            r@,
            "  Trigger Mode"@,
            style_of(Tone::Title, true, false),
            trigger_badge_text(enabled),
            style_of(if enabled { Tone::Success } else { Tone::Warning }, true, false),
        ),
{
    let (badge, tone) = trigger_badge(enabled);
    pair_row("  Trigger Mode", style(Tone::Title, true, false), badge, style(tone, true, false))
}

/// A key-binding row: the key right-aligned, a separator, the description.
pub fn keybind_row(key: &str, desc: &str) -> (r: Vec<Segment>)
    ensures
        is_keybind_row(r@, key@, desc@),
{
    proof {
        reveal_strlit("║ ");
        reveal_strlit(" ║");
        reveal_strlit("  |  ");
        reveal_strlit("");
    }
    let key_col = key_column(key);
    let key_len = vlen(key_col.as_str());
    let desc_len = vlen(desc);
    let used: usize = if key_len > inner() || desc_len > inner() { inner() } else { key_len + 5 + desc_len };
    let mut r: Vec<Segment> = Vec::new();
    r.push(border_piece("║ "));
    r.push(segment(key_col, style(Tone::Accent, true, false)));
    r.push(segment("  |  ".to_owned(), style(Tone::Dim, false, false)));
    r.push(segment(desc.to_owned(), style(Tone::Title, false, false)));
    r.push(segment(gap_spaces(used), style(Tone::Plain, false, false)));
    r.push(border_piece(" ║"));
    proof {
        reveal_with_fuel(row_text, 7);
        let t = spec_key_column(key@) + "  |  "@ + desc@;
        assert(spec_gap(used as nat) == spec_gap(t.len() + Seq::<char>::empty().len()));
        assert(row_text(r@) =~= keybind_text(key@, desc@));
    }
    r
}

/// The rows of the opening banner: top rule, blank row, the two art lines,
/// blank row, divider, the credits, blank row, bottom rule.
pub fn banner_rows() -> (r: Vec<Vec<Segment>>)
    ensures
        r@.len() == 9,
        is_rule_row(r@[0]@, frame_rule('╔', '═', '╗')),
        is_rule_row(r@[1]@, frame_rule('║', ' ', '║')),
        is_text_row(r@[2]@, banner_art(0), style_of(Tone::Accent, true, false)),
        is_text_row(r@[3]@, banner_art(1), style_of(Tone::Accent, true, false)),
        is_rule_row(r@[4]@, frame_rule('║', ' ', '║')),
        is_rule_row(r@[5]@, frame_rule('╠', '═', '╣')),
        is_pair_row(
            r@[6]@,
            "  by Kira Kohler"@,
            style_of(Tone::Dim, false, true),
            "github.com/Kira-Kohler/BetterAimAssist  "@,
            style_of(Tone::Dim, false, true),
        ),
        is_rule_row(r@[7]@, frame_rule('║', ' ', '║')),
        is_rule_row(r@[8]@, frame_rule('╚', '═', '╝')),
        rows_fill_frame(r@),
{
    let art1 = "  ▄▀█ █ █▀▄▀█   ▄▀█ █▀ █▀ █ █▀ ▀█▀";
    let art2 = "  █▀█ █ █ ▀ █   █▀█ ▄█ ▄█ █ ▄█  █ ";
    let author = "  by Kira Kohler";
    let repo = "github.com/Kira-Kohler/BetterAimAssist  ";
    proof {
        reveal_strlit("  ▄▀█ █ █▀▄▀█   ▄▀█ █▀ █▀ █ █▀ ▀█▀");
        reveal_strlit("  █▀█ █ █ ▀ █   █▀█ ▄█ ▄█ █ ▄█  █ ");
        reveal_strlit("  by Kira Kohler");
        reveal_strlit("github.com/Kira-Kohler/BetterAimAssist  ");
    }
    let faint = style(Tone::Dim, false, true);
    let art = style(Tone::Accent, true, false);
    let mut rows: Vec<Vec<Segment>> = Vec::new();
    rows.push(rule_row(box_top_line()));
    rows.push(rule_row(box_empty_line()));
    rows.push(text_row(art1, art));
    rows.push(text_row(art2, art));
    rows.push(rule_row(box_empty_line()));
    rows.push(rule_row(box_mid_line()));
    rows.push(pair_row(author, faint, repo, faint));
    rows.push(rule_row(box_empty_line()));
    rows.push(rule_row(box_bot_line()));
    proof {
        assert forall|i: int| 0 <= i < rows@.len() implies (#[trigger] row_text(rows@[i]@)).len() == W by {
            if i == 2 || i == 3 {
                assert(spec_pad(banner_art(i - 2), inner_width()).len() == inner_width());
            }
        }
    }
    rows
}

/// The rows of the dashboard for a controller name and the aim-assist
/// switch. Each row is `W` columns wide when the name fits beside its label.
pub fn dashboard_rows(controller_name: &str, enabled: bool) -> (r: Dashboard)
    ensures
        r.rows@.len() == 20,
        r.aim_row == 4,
        r.trigger_row == 5,
        is_rule_row(r.rows@[0]@, frame_rule('╔', '═', '╗')),
        is_pair_row(
            r.rows@[1]@,
            "  BETTER AIM-ASSIST"@,
            style_of(Tone::Title, true, false),
            "* ACTIVE  "@,
            style_of(Tone::Success, true, false),
        ),
        is_rule_row(r.rows@[2]@, frame_rule('╠', '═', '╣')),
        is_rule_row(r.rows@[3]@, frame_rule('║', ' ', '║')),
        is_pair_row(
            r.rows@[4]@,
            "  Aim Assist"@,
            style_of(Tone::Title, true, false),
            aim_badge_text(enabled),
            style_of(if enabled { Tone::Success } else { Tone::Dim }, true, false),
        ),
        is_pair_row(
            r.rows@[5]@,
            "  Trigger Mode"@,
            style_of(Tone::Title, true, false),
            "[ ON ]"@,
            style_of(Tone::Success, true, false),
        ),
        is_pair_row(
            r.rows@[6]@,
            "  Controller"@,
            style_of(Tone::Dim, false, false),
            controller_name@,
            style_of(Tone::Accent, false, true),
        ),
        is_rule_row(r.rows@[7]@, frame_rule('║', ' ', '║')),
        is_rule_row(r.rows@[8]@, frame_rule('╠', '═', '╣')),
        is_rule_row(r.rows@[9]@, frame_rule('║', ' ', '║')),
        is_keybind_row(r.rows@[10]@, "F5"@, "Toggle aim assist on / off"@),
        is_keybind_row(r.rows@[11]@, "F6"@, "Toggle trigger (LT/L2) activation"@),
        is_keybind_row(r.rows@[12]@, "Ctrl+C"@, "Exit - restores controller automatically"@),
        is_rule_row(r.rows@[13]@, frame_rule('║', ' ', '║')),
        is_rule_row(r.rows@[14]@, frame_rule('╠', '═', '╣')),
        is_rule_row(r.rows@[15]@, frame_rule('║', ' ', '║')),
        is_text_row(
            r.rows@[16]@,
            "  !  Do NOT close via Task Manager or End Task"@,
            style_of(Tone::Warning, true, false),
        ),
        is_text_row(
            r.rows@[17]@,
            "     Physical controller stays hidden until reboot if forced"@,
            style_of(Tone::Dim, false, true),
        ),
        is_rule_row(r.rows@[18]@, frame_rule('║', ' ', '║')),
        is_rule_row(r.rows@[19]@, frame_rule('╚', '═', '╝')),
        controller_name@.len() + 12 <= inner_width() ==> rows_fill_frame(r.rows@),
{
    let title = "  BETTER AIM-ASSIST";
    let tag = "* ACTIVE  ";
    let trigger_label = "  Trigger Mode";
    let trigger_on = "[ ON ]";
    let controller_label = "  Controller";
    let warn_line = "  !  Do NOT close via Task Manager or End Task";
    let sub_line = "     Physical controller stays hidden until reboot if forced";
    proof {
        reveal_strlit("  BETTER AIM-ASSIST");
        reveal_strlit("* ACTIVE  ");
        reveal_strlit("  Aim Assist");
        reveal_strlit("[ ENABLED ]");
        reveal_strlit("[ STANDBY ]");
        reveal_strlit("  Trigger Mode");
        reveal_strlit("[ ON ]");
        reveal_strlit("  Controller");
        reveal_strlit("  !  Do NOT close via Task Manager or End Task");
        reveal_strlit("     Physical controller stays hidden until reboot if forced");
        reveal_strlit("F5");
        reveal_strlit("F6");
        reveal_strlit("Ctrl+C");
        reveal_strlit("  |  ");
        reveal_strlit("Toggle aim assist on / off");
        reveal_strlit("Toggle trigger (LT/L2) activation");
        reveal_strlit("Exit - restores controller automatically");
    }
    let bold_title = style(Tone::Title, true, false);
    let bold_success = style(Tone::Success, true, false);
    let mut rows: Vec<Vec<Segment>> = Vec::new();
    rows.push(rule_row(box_top_line()));
    rows.push(pair_row(title, bold_title, tag, bold_success));
    rows.push(rule_row(box_mid_line()));
    rows.push(rule_row(box_empty_line()));
    rows.push(aim_status_row(enabled));
    rows.push(pair_row(trigger_label, bold_title, trigger_on, bold_success));
    rows.push(pair_row(controller_label, style(Tone::Dim, false, false), controller_name, style(Tone::Accent, false, true)));
    rows.push(rule_row(box_empty_line()));
    rows.push(rule_row(box_mid_line()));
    rows.push(rule_row(box_empty_line()));
    rows.push(keybind_row("F5", "Toggle aim assist on / off"));
    rows.push(keybind_row("F6", "Toggle trigger (LT/L2) activation"));
    rows.push(keybind_row("Ctrl+C", "Exit - restores controller automatically"));
    rows.push(rule_row(box_empty_line()));
    rows.push(rule_row(box_mid_line()));
    rows.push(rule_row(box_empty_line()));
    rows.push(text_row(warn_line, style(Tone::Warning, true, false)));
    rows.push(text_row(sub_line, style(Tone::Dim, false, true)));
    rows.push(rule_row(box_empty_line()));
    rows.push(rule_row(box_bot_line()));
    proof {
        if controller_name@.len() + 12 <= inner_width() {
            assert forall|i: int| 0 <= i < rows@.len() implies (#[trigger] row_text(rows@[i]@)).len() == W by {
                if i == 16 {
                    assert(spec_pad(warn_line@, inner_width()).len() == inner_width());
                } else if i == 17 {
                    assert(spec_pad(sub_line@, inner_width()).len() == inner_width());
                }
            }
        }
    }
    Dashboard { rows, aim_row: 4, trigger_row: 5 }
}

proof fn lemma_encoded_len(chars: Seq<char>)
    ensures
        chars.len() <= vstd::utf8::encode_utf8(chars).len(),
        (chars.len() == vstd::utf8::encode_utf8(chars).len()) == vstd::utf8::is_ascii_chars(chars),
    decreases chars.len(),
{
    if chars.len() > 0 {
        let rest = chars.drop_first();
        lemma_encoded_len(rest);
        let c = chars[0];
        let first = vstd::utf8::encode_scalar(c as u32);
        assert(vstd::utf8::encode_utf8(chars) == first + vstd::utf8::encode_utf8(rest));
        vstd::utf8::char_is_scalar(c);
        assert(('\0' <= c && c <= '\u{7f}') ==> (c as u32) <= 0x7F);
        let u = c as u32;
        vstd::utf8::char_u32_cast(c, u);
        assert(u <= 0x7F ==> ('\0' <= (u as char) && (u as char) <= '\u{7f}'));
        assert((c as u32) <= 0x7F ==> ('\0' <= c && c <= '\u{7f}'));
        if (c as u32) <= 0x7F {
            assert(first.len() == 1);
        } else {
            assert(first.len() >= 2);
        }
        if vstd::utf8::is_ascii_chars(chars) {
            assert(vstd::utf8::is_ascii_chars(rest)) by {
                assert forall|i: int| 0 <= i < rest.len() implies '\0' <= #[trigger] rest[i] <= '\u{7f}' by {
                    assert(rest[i] == chars[i + 1]);
                }
            }
            assert('\0' <= chars[0] <= '\u{7f}');
        }
        if vstd::utf8::is_ascii_chars(rest) && (c as u32) <= 0x7F {
            assert forall|i: int| 0 <= i < chars.len() implies '\0' <= #[trigger] chars[i] <= '\u{7f}' by {
                if i > 0 {
                    assert(chars[i] == rest[i - 1]);
                }
            }
        }
    } else {
        assert(vstd::utf8::is_ascii_chars(chars));
    }
}

/// What `vlen` counts: characters, never more than the string's UTF-8 bytes,
/// as many exactly when the string is ASCII; and counts add up when strings
/// are joined.
pub proof fn law_vlen_counts_characters(s: &str, a: Seq<char>, b: Seq<char>)
    ensures
        s@.len() <= s.spec_bytes().len(),
        (s@.len() == s.spec_bytes().len()) == vstd::utf8::is_ascii_chars(s@),
        (a + b).len() == a.len() + b.len(),
{
    lemma_encoded_len(s@);
}

} // verus!
