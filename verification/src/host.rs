//! Decisions about the machine the proxy runs on: anti-cheat and game
//! detection in the process list, missing drivers, the console title, the
//! console events that end the program, and registry key names.
use vstd::prelude::*;
use crate::controller::first_true;
use crate::text::{chars_of, contains_chars, lowercase_chars, lowercase_of, seq_contains};

verus! {

/// Number of known anti-cheat processes.
pub const ANTI_CHEAT_COUNT: usize = 12;

/// Number of window titles the console can take.
pub const WINDOW_TITLE_COUNT: usize = 8;

/// An anti-cheat service: its name, the process that reveals it, and what
/// to tell the user.
#[derive(Clone, Copy, Debug)]
pub struct AntiCheatInfo {
    pub name: &'static str,
    pub process: &'static str,
    pub message: &'static str,
}

pub open spec fn vanguard_msg() -> Seq<char> {
    "DO NOT use this tool with Vanguard — permanent Valorant ban risk."@
}

pub open spec fn eac_msg() -> Seq<char> {
    "Close the game, restart this tool, then reopen the game."@
}

pub open spec fn close_game_msg() -> Seq<char> {
    "Close the game before running this tool."@
}

/// The known anti-cheat processes, in the order they are looked for:
/// (name, process, message).
pub open spec fn anti_cheat_table(i: int) -> (Seq<char>, Seq<char>, Seq<char>) {
    if i == 0 {
        ("Vanguard"@, "vanguard.exe"@, vanguard_msg())
    } else if i == 1 {
        ("Vanguard"@, "vgc.exe"@, vanguard_msg())
    } else if i == 2 {
        ("Vanguard"@, "vgk.sys"@, vanguard_msg())
    } else if i == 3 {
        ("EasyAntiCheat"@, "EasyAntiCheat.exe"@, eac_msg())
    } else if i == 4 {
        ("EasyAntiCheat"@, "EasyAntiCheat_EOS.exe"@, eac_msg())
    } else if i == 5 {
        ("EasyAntiCheat"@, "EasyAntiCheat_EOS.sys"@, eac_msg())
    } else if i == 6 {
        ("BattlEye"@, "BEService.exe"@, close_game_msg())
    } else if i == 7 {
        ("BattlEye"@, "BEDaisy.sys"@, close_game_msg())
    } else if i == 8 {
        ("nProtect GameGuard"@, "GameMon.des"@, close_game_msg())
    } else if i == 9 {
        ("nProtect GameGuard"@, "GGAuth.exe"@, close_game_msg())
    } else if i == 10 {
        ("FACEIT"@, "faceit.exe"@, "Close FACEIT before running this tool."@)
    } else {
        ("Ricochet"@, "ricochet.sys"@, close_game_msg())
    }
}

/// Per needle: it occurs in `hay`.
pub open spec fn needle_hits(hay: Seq<char>, needles: Seq<Seq<char>>) -> Seq<bool> {
    Seq::new(needles.len(), |i: int| seq_contains(hay, needles[i]))
}

/// The lower-cased process names of the anti-cheat table, in order.
pub open spec fn lowercase_processes() -> Seq<Seq<char>> {
    Seq::new(ANTI_CHEAT_COUNT as nat, |i: int| lowercase_of(anti_cheat_table(i).1))
}

/// The first anti-cheat entry whose process appears in the process list,
/// both compared in lower case.
pub open spec fn spec_anti_cheat_in(tasklist: Seq<char>) -> Option<int> {
    first_true(needle_hits(lowercase_of(tasklist), lowercase_processes()), ANTI_CHEAT_COUNT as int)
}

/// The index of the first of `needles` that occurs in `hay`.
pub fn first_contained(hay: &Vec<char>, needles: &Vec<Vec<char>>) -> (r: Option<usize>)
    ensures
        r matches Some(i) ==> i < needles@.len()
            && first_true(needle_hits(hay@, needles.deep_view()), needles@.len() as int) == Some(i as int),
        r is None ==> first_true(needle_hits(hay@, needles.deep_view()), needles@.len() as int) is None,
{
    let ghost hits = needle_hits(hay@, needles.deep_view());
    let mut i: usize = 0;
    while i < needles.len()
        invariant
            hits == needle_hits(hay@, needles.deep_view()),
            0 <= i <= needles@.len(),
            first_true(hits, i as int) is None,
        decreases needles.len() - i,
    {
        if contains_chars(hay, &needles[i]) {
            assert(needles.deep_view()[i as int] == needles@[i as int]@);
            assert(hits[i as int]);
            assert(first_true(hits, i + 1) == Some(i as int));
            proof {
                crate::controller::lemma_first_true_stable(hits, i + 1, needles@.len() as int);
            }
            return Some(i);
        }
        assert(needles.deep_view()[i as int] == needles@[i as int]@);
        assert(!hits[i as int]);
        i = i + 1;
    }
    None
}

/// The entry at `i` of the anti-cheat table.
pub fn anti_cheat_entry(i: usize) -> (r: AntiCheatInfo)
    requires
        i < ANTI_CHEAT_COUNT,
    ensures
        (r.name@, r.process@, r.message@) == anti_cheat_table(i as int),
{
    let vanguard = "DO NOT use this tool with Vanguard — permanent Valorant ban risk.";
    let eac = "Close the game, restart this tool, then reopen the game.";
    let close_game = "Close the game before running this tool.";
    if i == 0 {
        AntiCheatInfo { name: "Vanguard", process: "vanguard.exe", message: vanguard }
    } else if i == 1 {
        AntiCheatInfo { name: "Vanguard", process: "vgc.exe", message: vanguard }
    } else if i == 2 {
        AntiCheatInfo { name: "Vanguard", process: "vgk.sys", message: vanguard }
    } else if i == 3 {
        AntiCheatInfo { name: "EasyAntiCheat", process: "EasyAntiCheat.exe", message: eac }
    } else if i == 4 {
        AntiCheatInfo { name: "EasyAntiCheat", process: "EasyAntiCheat_EOS.exe", message: eac }
    } else if i == 5 {
        AntiCheatInfo { name: "EasyAntiCheat", process: "EasyAntiCheat_EOS.sys", message: eac }
    } else if i == 6 {
        AntiCheatInfo { name: "BattlEye", process: "BEService.exe", message: close_game }
    } else if i == 7 {
        AntiCheatInfo { name: "BattlEye", process: "BEDaisy.sys", message: close_game }
    } else if i == 8 {
        AntiCheatInfo { name: "nProtect GameGuard", process: "GameMon.des", message: close_game }
    } else if i == 9 {
        AntiCheatInfo { name: "nProtect GameGuard", process: "GGAuth.exe", message: close_game }
    } else if i == 10 {
        AntiCheatInfo { name: "FACEIT", process: "faceit.exe", message: "Close FACEIT before running this tool." }
    } else {
        AntiCheatInfo { name: "Ricochet", process: "ricochet.sys", message: close_game }
    }
}

/// The first known anti-cheat whose process appears in a process list
/// (as printed by `tasklist`), compared in lower case.
pub fn detect_anti_cheat(tasklist: &str) -> (r: Option<AntiCheatInfo>)
    ensures
        r is None <==> spec_anti_cheat_in(tasklist@) is None,
        r matches Some(info) ==> spec_anti_cheat_in(tasklist@) matches Some(i)
            && (info.name@, info.process@, info.message@) == anti_cheat_table(i),
{
    let text = lowercase_chars(tasklist);
    let mut processes: Vec<Vec<char>> = Vec::new();
    let mut k: usize = 0;
    while k < ANTI_CHEAT_COUNT
        invariant
            0 <= k <= ANTI_CHEAT_COUNT,
            processes.deep_view() == lowercase_processes().take(k as int),
        decreases ANTI_CHEAT_COUNT - k,
    {
        let ghost before = processes.deep_view();
        let lowered = lowercase_chars(anti_cheat_entry(k).process);
        let ghost lowered_view = lowered.deep_view();
        assert(lowered_view =~= lowered@);
        processes.push(lowered);
        assert(processes.deep_view() =~= before.push(lowered_view));
        k = k + 1;
        assert(processes.deep_view() =~= lowercase_processes().take(k as int));
    }
    assert(processes.deep_view() =~= lowercase_processes());
    assert(processes@.len() == ANTI_CHEAT_COUNT);
    match first_contained(&text, &processes) {
        Some(i) => Some(anti_cheat_entry(i)),
        None => None,
    }
}

/// Whether the game's client process appears in a process list, compared
/// in lower case.
pub fn game_running(tasklist: &str) -> (r: bool)
    ensures
        r == seq_contains(lowercase_of(tasklist@), "fortniteclient"@),
{
    let text = lowercase_chars(tasklist);
    let needle = chars_of("fortniteclient");
    contains_chars(&text, &needle)
}

/// What to do about the two drivers: go on when both are installed, else
/// open the download page of each missing one (and stop).
#[derive(Clone, Copy, Debug, PartialEq, Eq, Structural)]
pub struct DependencyPlan {
    pub ready: bool,
    pub open_vigembus: bool,
    pub open_hidhide: bool,
}

/// The plan for the given installed drivers.
pub fn plan_dependencies(vigembus_installed: bool, hidhide_installed: bool) -> (r: DependencyPlan)
    ensures
        r.ready == (vigembus_installed && hidhide_installed),
        r.open_vigembus == !vigembus_installed,
        r.open_hidhide == !hidhide_installed,
{
    DependencyPlan {
        ready: vigembus_installed && hidhide_installed,
        open_vigembus: !vigembus_installed,
        open_hidhide: !hidhide_installed,
    }
}

/// The titles the console window can take, so that it looks like a shell.
pub open spec fn window_title_at(i: int) -> Seq<char> {
    if i == 0 {
        "C:\\Windows\\System32\\cmd.exe"@
    } else if i == 1 {
        "Administrator: Command Prompt"@
    } else if i == 2 {
        "C:\\Windows\\SysWOW64\\cmd.exe"@
    } else if i == 3 {
        "Windows PowerShell"@
    } else if i == 4 {
        "Administrator: Windows PowerShell"@
    } else if i == 5 {
        "C:\\Users\\Public\\cmd.exe"@
    } else if i == 6 {
        "Command Prompt"@
    } else {
        "Administrator: C:\\Windows\\System32\\cmd.exe"@
    }
}

/// The console title picked by a seed.
pub fn window_title(seed: usize) -> (r: &'static str)
    ensures
        r@ == window_title_at((seed % WINDOW_TITLE_COUNT) as int),
{
    let i = seed % WINDOW_TITLE_COUNT;
    if i == 0 {
        "C:\\Windows\\System32\\cmd.exe"
    } else if i == 1 {
        "Administrator: Command Prompt"
    } else if i == 2 {
        "C:\\Windows\\SysWOW64\\cmd.exe"
    } else if i == 3 {
        "Windows PowerShell"
    } else if i == 4 {
        "Administrator: Windows PowerShell"
    } else if i == 5 {
        "C:\\Users\\Public\\cmd.exe"
    } else if i == 6 {
        "Command Prompt"
    } else {
        "Administrator: C:\\Windows\\System32\\cmd.exe"
    }
}

/// Console control events that end the program: Ctrl+C (0), console close
/// (2), log-off (5) and shutdown (6); Ctrl+Break (1) and others do not.
pub open spec fn spec_is_shutdown_event(event: u32) -> bool {
    event == 0 || event == 2 || event == 5 || event == 6
}

/// Whether a console control event should shut the proxy down.
pub fn is_shutdown_event(event: u32) -> (r: bool)
    ensures
        r == spec_is_shutdown_event(event),
{
    match event {
        0 | 2 | 5 | 6 => true,
        _ => false,
    }
}

/// Attempts to wait for the virtual controller to become ready.
pub const READY_ATTEMPTS: u32 = 10;

/// Seconds without a controller after which the reconnect hint is shown.
pub const DETECTION_HINT_AFTER_SECS: u64 = 10;

/// How long to wait before attempt `attempt` (counted from 1) to see the
/// virtual controller ready: 200 ms times the attempt, for the first
/// `READY_ATTEMPTS` attempts; none after that (initialisation has failed).
pub fn ready_wait_ms(attempt: u32) -> (r: Option<u64>)
    ensures
        1 <= attempt <= READY_ATTEMPTS ==> r == Some((200 * attempt) as u64),
        !(1 <= attempt <= READY_ATTEMPTS) ==> r is None,
{
    if 1 <= attempt && attempt <= READY_ATTEMPTS {
        Some(200 * attempt as u64)
    } else {
        None
    }
}

/// Whether to show the "not detected" hint while waiting for an Xbox
/// controller: once, after `DETECTION_HINT_AFTER_SECS` seconds.
pub fn detection_hint_due(elapsed_secs: u64, hint_shown: bool) -> (r: bool)
    ensures
        r == (elapsed_secs >= DETECTION_HINT_AFTER_SECS && !hint_shown),
{
    elapsed_secs >= DETECTION_HINT_AFTER_SECS && !hint_shown
}

/// Anti-cheat detection, characterised: it reports an entry only when that
/// entry's process name, in lower case, occurs in the lower-cased process
/// list and no earlier entry's does; it reports nothing only when none
/// does.
pub proof fn law_anti_cheat_first_match(tasklist: Seq<char>)
    ensures
        spec_anti_cheat_in(tasklist) matches Some(i) ==> {
            &&& 0 <= i < ANTI_CHEAT_COUNT
            &&& seq_contains(lowercase_of(tasklist), lowercase_of(anti_cheat_table(i).1))
            &&& forall|j: int| 0 <= j < i ==> !seq_contains(lowercase_of(tasklist), lowercase_of(#[trigger] anti_cheat_table(j).1))
        },
        spec_anti_cheat_in(tasklist) is None <==> forall|j: int| 0 <= j < ANTI_CHEAT_COUNT
            ==> !seq_contains(lowercase_of(tasklist), lowercase_of(#[trigger] anti_cheat_table(j).1)),
{
    let hits = needle_hits(lowercase_of(tasklist), lowercase_processes());
    crate::controller::lemma_first_true(hits, ANTI_CHEAT_COUNT as int);
    assert forall|j: int| 0 <= j < ANTI_CHEAT_COUNT implies hits[j] == seq_contains(lowercase_of(tasklist), lowercase_of(#[trigger] anti_cheat_table(j).1)) by {}
    if forall|j: int| 0 <= j < ANTI_CHEAT_COUNT
        ==> !seq_contains(lowercase_of(tasklist), lowercase_of(#[trigger] anti_cheat_table(j).1)) {
        if let Some(i) = spec_anti_cheat_in(tasklist) {
            assert(hits[i]);
        }
    }
}

} // verus!
