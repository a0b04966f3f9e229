//! The HidHide command lines that hide the physical controller from games
//! while the proxy runs, and those that undo it.
use vstd::prelude::*;

verus! {

/// A command line for the HidHide CLI, as its argument list.
pub type HidHideArgs = Vec<String>;

pub open spec fn dev_hide() -> Seq<char> { "--dev-hide"@ }
pub open spec fn dev_unhide() -> Seq<char> { "--dev-unhide"@ }
pub open spec fn app_reg() -> Seq<char> { "--app-reg"@ }
pub open spec fn app_unreg() -> Seq<char> { "--app-unreg"@ }
pub open spec fn cloak_on() -> Seq<char> { "--cloak-on"@ }
pub open spec fn cloak_off() -> Seq<char> { "--cloak-off"@ }

/// The commands that hide the controller: hide each gaming device, let
/// this program (`exe`) see hidden devices, then turn cloaking on. With no
/// gaming device there is nothing to hide, and no command is run.
pub open spec fn spec_hide_commands(devices: Seq<Seq<char>>, exe: Seq<char>) -> Seq<Seq<Seq<char>>> {
    if devices.len() == 0 {
        Seq::empty()
    } else {
        Seq::new(devices.len(), |i: int| seq![dev_hide(), devices[i]])
            + seq![seq![app_reg(), exe], seq![cloak_on()]]
    }
}

/// The commands that release the program: cloaking off, then this program
/// unregistered.
pub open spec fn spec_release_commands(exe: Seq<char>) -> Seq<Seq<Seq<char>>> {
    seq![seq![cloak_off()], seq![app_unreg(), exe]]
}

/// The commands that unhide each gaming device.
pub open spec fn spec_unhide_commands(devices: Seq<Seq<char>>) -> Seq<Seq<Seq<char>>> {
    Seq::new(devices.len(), |i: int| seq![dev_unhide(), devices[i]])
}

/// The command that undoes a hiding command, with the same operands.
pub open spec fn undo(cmd: Seq<Seq<char>>) -> Seq<Seq<char>> {
    if cmd.len() > 0 && cmd[0] == dev_hide() {
        cmd.update(0, dev_unhide())
    } else if cmd.len() > 0 && cmd[0] == app_reg() {
        cmd.update(0, app_unreg())
    } else if cmd.len() > 0 && cmd[0] == cloak_on() {
        cmd.update(0, cloak_off())
    } else {
        cmd
    }
}

fn args1(a: &str) -> (r: HidHideArgs)
    ensures
        r.deep_view() == seq![a@],
{
    let mut r: Vec<String> = Vec::new();
    r.push(a.to_owned());
    assert(r.deep_view() =~= seq![a@]);
    r
}

fn args2(a: &str, b: &str) -> (r: HidHideArgs)
    ensures
        r.deep_view() == seq![a@, b@],
{
    let mut r: Vec<String> = Vec::new();
    r.push(a.to_owned());
    r.push(b.to_owned());
    assert(r.deep_view() =~= seq![a@, b@]);
    r
}

fn per_device(flag: &str, devices: &Vec<String>, out: &mut Vec<HidHideArgs>)
    ensures
        final(out).deep_view() == old(out).deep_view()
            + Seq::new(devices@.len(), |i: int| seq![flag@, devices@[i]@]),
{
    let ghost start = out.deep_view();
    let mut k: usize = 0;
    while k < devices.len()
        invariant
            0 <= k <= devices@.len(),
            out.deep_view() == start + Seq::new(k as nat, |i: int| seq![flag@, devices@[i]@]),
        decreases devices.len() - k,
    {
        let ghost before = out.deep_view();
        let cmd = args2(flag, devices[k].as_str());
        let ghost cmd_view = cmd.deep_view();
        out.push(cmd);
        assert(out.deep_view() =~= before.push(cmd_view));
        k = k + 1;
        assert(out.deep_view() =~= start + Seq::new(k as nat, |i: int| seq![flag@, devices@[i]@]));
    }
}

/// The commands that hide the controller, for the given gaming devices and
/// this program's path.
pub fn hide_commands(devices: &Vec<String>, exe: &str) -> (r: Vec<HidHideArgs>)
    ensures
        r.deep_view() == spec_hide_commands(devices.deep_view(), exe@),
{
    let mut r: Vec<HidHideArgs> = Vec::new();
    if devices.len() == 0 {
        assert(r.deep_view() =~= Seq::<Seq<Seq<char>>>::empty());
        return r;
    }
    per_device("--dev-hide", devices, &mut r);
    let ghost hides = r.deep_view();
    let reg = args2("--app-reg", exe);
    let ghost reg_view = reg.deep_view();
    r.push(reg);
    assert(r.deep_view() =~= hides.push(reg_view));
    let ghost with_reg = r.deep_view();
    let cloak = args1("--cloak-on");
    let ghost cloak_view = cloak.deep_view();
    r.push(cloak);
    assert(r.deep_view() =~= with_reg.push(cloak_view));
    assert(r.deep_view() =~= spec_hide_commands(devices.deep_view(), exe@));
    r
}

/// The commands that release this program from HidHide.
pub fn release_commands(exe: &str) -> (r: Vec<HidHideArgs>)
    ensures
        r.deep_view() == spec_release_commands(exe@),
{
    let mut r: Vec<HidHideArgs> = Vec::new();
    r.push(args1("--cloak-off"));
    r.push(args2("--app-unreg", exe));
    assert(r.deep_view() =~= spec_release_commands(exe@));
    r
}

/// The commands that unhide the given gaming devices.
pub fn unhide_commands(devices: &Vec<String>) -> (r: Vec<HidHideArgs>)
    ensures
        r.deep_view() == spec_unhide_commands(devices.deep_view()),
{
    let mut r: Vec<HidHideArgs> = Vec::new();
    per_device("--dev-unhide", devices, &mut r);
    assert(r.deep_view() =~= spec_unhide_commands(devices.deep_view()));
    r
}

/// Cleaning up undoes the setup: for the same devices and program, every
/// hiding command has its undoing command among the release and unhide
/// commands, and, when there was a device to hide, there are as many of
/// those as of hiding commands.
pub proof fn law_cleanup_undoes_setup(devices: Seq<Seq<char>>, exe: Seq<char>)
    ensures
        ({
            let setup = spec_hide_commands(devices, exe);
            let cleanup = spec_release_commands(exe) + spec_unhide_commands(devices);
            &&& devices.len() > 0 ==> cleanup.len() == setup.len()
            &&& forall|i: int| 0 <= i < setup.len() ==> #[trigger] cleanup.contains(undo(setup[i]))
        }),
{
    reveal_strlit("--dev-hide");
    reveal_strlit("--dev-unhide");
    reveal_strlit("--app-reg");
    reveal_strlit("--app-unreg");
    reveal_strlit("--cloak-on");
    reveal_strlit("--cloak-off");
    let setup = spec_hide_commands(devices, exe);
    let cleanup = spec_release_commands(exe) + spec_unhide_commands(devices);
    let n = devices.len() as int;
    if n == 0 {
        assert(setup.len() == 0);
    }
    assert forall|i: int| 0 <= i < setup.len() implies #[trigger] cleanup.contains(undo(setup[i])) by {
        assert(dev_hide()[2] != app_reg()[2] && dev_hide()[2] != cloak_on()[2]);
        assert(cloak_on()[2] != app_reg()[2]);
        if i < n {
            assert(setup[i] == seq![dev_hide(), devices[i]]);
            assert(undo(setup[i]) =~= seq![dev_unhide(), devices[i]]);
            assert(cleanup[2 + i] == undo(setup[i]));
        } else if i == n {
            assert(setup[i] == seq![app_reg(), exe]);
            assert(undo(setup[i]) =~= seq![app_unreg(), exe]);
            assert(cleanup[1] == undo(setup[i]));
        } else {
            assert(setup[i] == seq![cloak_on()]);
            assert(undo(setup[i]) =~= seq![cloak_off()]);
            assert(cleanup[0] == undo(setup[i]));
        }
    }
}

/// Where to look for the HidHide CLI, in order, given the install
/// directories read from the registry (native key first, then the 32-bit
/// key): in each directory its x64 build, then the plain one; then the two
/// default install paths. A candidate is a directory and a file to join
/// to it, or a fixed path alone.
pub open spec fn spec_cli_candidate(dirs: Seq<Seq<char>>, k: int) -> (Option<Seq<char>>, Seq<char>) {
    if k < 2 * dirs.len() {
        (Some(dirs[k / 2]), if k % 2 == 0 { "x64\\HidHideCLI.exe"@ } else { "HidHideCLI.exe"@ })
    } else if k == 2 * dirs.len() {
        (None, "C:\\Program Files\\Nefarius Software Solutions\\HidHide\\x64\\HidHideCLI.exe"@)
    } else {
        (None, "C:\\Program Files\\Nefarius Software Solutions\\HidHide\\HidHideCLI.exe"@)
    }
}

pub open spec fn candidate_view(c: (Option<String>, &str)) -> (Option<Seq<char>>, Seq<char>) {
    (
        match c.0 {
            Some(d) => Some(d@),
            None => None,
        },
        c.1@,
    )
}

/// The places to look for the HidHide CLI, first to last.
pub fn hidhide_cli_candidates(install_dirs: &Vec<String>) -> (r: Vec<(Option<String>, &'static str)>)
    ensures
        r@.len() == 2 * install_dirs@.len() + 2,
        forall|k: int| 0 <= k < r@.len() ==>
            #[trigger] candidate_view(r@[k]) == spec_cli_candidate(install_dirs.deep_view(), k),
{
    let ghost dirs = install_dirs.deep_view();
    let mut r: Vec<(Option<String>, &'static str)> = Vec::new();
    let mut i: usize = 0;
    while i < install_dirs.len()
        invariant
            dirs == install_dirs.deep_view(),
            0 <= i <= install_dirs@.len(),
            r@.len() == 2 * i,
            forall|k: int| 0 <= k < r@.len() ==> #[trigger] candidate_view(r@[k]) == spec_cli_candidate(dirs, k),
        decreases install_dirs.len() - i,
    {
        r.push((Some(install_dirs[i].clone()), "x64\\HidHideCLI.exe"));
        r.push((Some(install_dirs[i].clone()), "HidHideCLI.exe"));
        proof {
            assert(dirs[i as int] == install_dirs@[i as int]@);
            assert forall|k: int| 0 <= k < r@.len() implies #[trigger] candidate_view(r@[k]) == spec_cli_candidate(dirs, k) by {
                if k == 2 * i {
                    assert(k / 2 == i);
                } else if k == 2 * i + 1 {
                    assert(k / 2 == i);
                }
            }
        }
        i = i + 1;
    }
    r.push((None, "C:\\Program Files\\Nefarius Software Solutions\\HidHide\\x64\\HidHideCLI.exe"));
    r.push((None, "C:\\Program Files\\Nefarius Software Solutions\\HidHide\\HidHideCLI.exe"));
    r
}

} // verus!
