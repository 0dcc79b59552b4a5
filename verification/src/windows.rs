//! Windows: naming the application behind a process, finding its
//! command-line launcher, choosing the process to activate, and reading the
//! process table that `wmic` prints.
use vstd::prelude::*;
use crate::apps::{known_app, MAX_STEPS, first_installed, first_installed_path, opt_string_view, opt_view, strings_view};
use crate::number::{parse_u32, parse_u32_spec};
use crate::text::{ascii_lowercase, equals, lemma_split_nonempty, seq_starts_with, split, split_spec, starts_with, trim, trim_end_matches, trim_spec, lowercase, same_text, strip_suffixes, strip_suffixes_of, to_chars, to_lowercase};

verus! {

/// The application named by a lowercased process name without `.exe`.
pub open spec fn executable_app(base: Seq<char>) -> Option<Seq<char>> {
    if base == "windowsterminal"@ {
        Some("Windows Terminal"@)
    } else if base == "pwsh"@ || base == "powershell"@ {
        Some("PowerShell"@)
    } else if base == "cmd"@ {
        Some("Command Prompt"@)
    } else if base == "alacritty"@ {
        Some("Alacritty"@)
    } else if base == "kitty"@ {
        Some("kitty"@)
    } else if base == "hyper"@ {
        Some("Hyper"@)
    } else if base == "wezterm"@ || base == "wezterm-gui"@ {
        Some("WezTerm"@)
    } else if base == "code"@ {
        Some("Visual Studio Code"@)
    } else if base == "cursor"@ {
        Some("Cursor"@)
    } else if base == "windsurf"@ {
        Some("Windsurf"@)
    } else if base == "zed"@ {
        Some("Zed"@)
    } else if base == "sublime_text"@ {
        Some("Sublime Text"@)
    } else {
        None
    }
}

/// The application for a lowercased process name: trailing `.exe`
/// suffixes are ignored.
pub open spec fn name_of_lowercase(lower: Seq<char>) -> Option<Seq<char>> {
    executable_app(strip_suffixes(lower, ".exe"@))
}

/// The application for a process name as Windows reports it.
pub open spec fn app_name_spec(comm: Seq<char>) -> Option<Seq<char>> {
    name_of_lowercase(lowercase(comm))
}

/// Names the application from a lowercased process name.
pub fn app_name_from_lowercase(lower: &str) -> (r: Option<&'static str>)
    ensures
        opt_view(r) == name_of_lowercase(lower@),
{
    let lc = to_chars(lower);
    let b = strip_suffixes_of(&lc, ".exe");
    if equals(&b, "windowsterminal") {
        Some("Windows Terminal")
    } else if equals(&b, "pwsh") || equals(&b, "powershell") {
        Some("PowerShell")
    } else if equals(&b, "cmd") {
        Some("Command Prompt")
    } else if equals(&b, "alacritty") {
        Some("Alacritty")
    } else if equals(&b, "kitty") {
        Some("kitty")
    } else if equals(&b, "hyper") {
        Some("Hyper")
    } else if equals(&b, "wezterm") || equals(&b, "wezterm-gui") {
        Some("WezTerm")
    } else if equals(&b, "code") {
        Some("Visual Studio Code")
    } else if equals(&b, "cursor") {
        Some("Cursor")
    } else if equals(&b, "windsurf") {
        Some("Windsurf")
    } else if equals(&b, "zed") {
        Some("Zed")
    } else if equals(&b, "sublime_text") {
        Some("Sublime Text")
    } else {
        None
    }
}

/// Maps a process name (such as `Code.exe`) to the application it belongs to.
pub fn get_app_name(comm: &str) -> (r: Option<&'static str>)
    ensures
        opt_view(r) == app_name_spec(comm@),
{
    let lower = to_lowercase(comm);
    app_name_from_lowercase(lower.as_str())
}

/// Another `.exe` at the end of a lowercased process name does not change the
/// application it is taken for.
pub proof fn lemma_exe_suffix_is_ignored(lower: Seq<char>)
    ensures
        name_of_lowercase(lower + ".exe"@) == name_of_lowercase(lower),
{
    reveal_strlit(".exe");
    let s = lower + ".exe"@;
    assert(s.subrange(s.len() - 4, s.len() as int) =~= ".exe"@);
    assert(s.subrange(0, s.len() - 4) =~= lower);
}

/// `prefix` followed by `suffix`.
fn joined(prefix: &str, suffix: &str) -> (r: String)
    ensures
        r@ == prefix@ + suffix@,
{
    let mut r = String::from_str(prefix);
    r.append(suffix);
    r
}

/// Where the command-line launcher of each application may be installed,
/// given the per-user program directory (`LOCALAPPDATA`) and the two system
/// program directories (`PROGRAMFILES`, `PROGRAMFILES(X86)`).
pub open spec fn cli_candidates_spec(
    app_name: Seq<char>,
    local: Seq<char>,
    files: Seq<char>,
    files_x86: Seq<char>,
) -> Seq<Seq<char>> {
    if app_name == "Visual Studio Code"@ {
        seq![
            local + "\\Programs\\Microsoft VS Code\\bin\\code.cmd"@,
            files + "\\Microsoft VS Code\\bin\\code.cmd"@,
            files_x86 + "\\Microsoft VS Code\\bin\\code.cmd"@,
        ]
    } else if app_name == "Cursor"@ {
        seq![
            local + "\\Programs\\cursor\\resources\\app\\bin\\cursor.cmd"@,
            local + "\\Cursor\\resources\\app\\bin\\cursor.cmd"@,
        ]
    } else if app_name == "Windsurf"@ {
        seq![
            local + "\\Programs\\Windsurf\\bin\\windsurf.cmd"@,
            files + "\\Windsurf\\bin\\windsurf.cmd"@,
        ]
    } else if app_name == "Zed"@ {
        seq![local + "\\Zed\\zed.exe"@, local + "\\Programs\\Zed\\zed.exe"@]
    } else {
        Seq::empty()
    }
}

/// The launcher paths to try for `app_name`, in order, under the given
/// program directories.
pub fn cli_candidates(app_name: &str, local: &str, files: &str, files_x86: &str) -> (r: Vec<String>)
    ensures
        strings_view(r@) == cli_candidates_spec(app_name@, local@, files@, files_x86@),
{
    let mut r: Vec<String> = Vec::new();
    if same_text(app_name, "Visual Studio Code") {
        r.push(joined(local, "\\Programs\\Microsoft VS Code\\bin\\code.cmd"));
        r.push(joined(files, "\\Microsoft VS Code\\bin\\code.cmd"));
        r.push(joined(files_x86, "\\Microsoft VS Code\\bin\\code.cmd"));
    } else if same_text(app_name, "Cursor") {
        r.push(joined(local, "\\Programs\\cursor\\resources\\app\\bin\\cursor.cmd"));
        r.push(joined(local, "\\Cursor\\resources\\app\\bin\\cursor.cmd"));
    } else if same_text(app_name, "Windsurf") {
        r.push(joined(local, "\\Programs\\Windsurf\\bin\\windsurf.cmd"));
        r.push(joined(files, "\\Windsurf\\bin\\windsurf.cmd"));
    } else if same_text(app_name, "Zed") {
        r.push(joined(local, "\\Zed\\zed.exe"));
        r.push(joined(local, "\\Programs\\Zed\\zed.exe"));
    }
    assert(strings_view(r@) =~= cli_candidates_spec(app_name@, local@, files@, files_x86@));
    r
}

/// The launcher chosen for `app_name`: none when `LOCALAPPDATA` or
/// `PROGRAMFILES` is unset; otherwise the first candidate among `installed`,
/// an unset `PROGRAMFILES(X86)` counting as empty.
pub open spec fn get_app_cli_spec(
    app_name: Seq<char>,
    local: Option<Seq<char>>,
    files: Option<Seq<char>>,
    files_x86: Option<Seq<char>>,
    installed: Seq<Seq<char>>,
) -> Option<Seq<char>> {
    match (local, files) {
        (Some(l), Some(f)) => first_installed(
            cli_candidates_spec(
                app_name,
                l,
                f,
                match files_x86 {
                    Some(x) => x,
                    None => Seq::empty(),
                },
            ),
            installed,
        ),
        _ => None,
    }
}

/// The launcher to use for `app_name`, given the values of `LOCALAPPDATA`,
/// `PROGRAMFILES` and `PROGRAMFILES(X86)` (each `None` when unset) and the
/// candidate paths that exist on disk.
pub fn get_app_cli(
    app_name: &str,
    local: Option<&str>,
    files: Option<&str>,
    files_x86: Option<&str>,
    installed: &[String],
) -> (r: Option<String>)
    ensures
        opt_string_view(r) == get_app_cli_spec(
            app_name@,
            opt_view(local),
            opt_view(files),
            opt_view(files_x86),
            strings_view(installed@),
        ),
{
    let l = match local {
        Some(l) => l,
        None => return None,
    };
    let f = match files {
        Some(f) => f,
        None => return None,
    };
    let x = match files_x86 {
        Some(x) => x,
        None => "",
    };
    proof {
        reveal_strlit("");
    }
    let candidates = cli_candidates(app_name, l, f, x);
    first_installed_path(&candidates, installed)
}


/// The process whose window is brought forward for each application.
pub open spec fn activation_process_spec(app_name: Seq<char>) -> Option<Seq<char>> {
    if app_name == "Visual Studio Code"@ {
        Some("Code.exe"@)
    } else if app_name == "Cursor"@ {
        Some("Cursor.exe"@)
    } else if app_name == "Windsurf"@ {
        Some("Windsurf.exe"@)
    } else if app_name == "Windows Terminal"@ {
        Some("WindowsTerminal.exe"@)
    } else if app_name == "PowerShell"@ {
        Some("pwsh.exe"@)
    } else if app_name == "Command Prompt"@ {
        Some("cmd.exe"@)
    } else {
        None
    }
}

/// The process name to activate for `app_name`, if there is a mapping.
pub fn activation_process(app_name: &str) -> (r: Option<&'static str>)
    ensures
        opt_view(r) == activation_process_spec(app_name@),
{
    if same_text(app_name, "Visual Studio Code") {
        Some("Code.exe")
    } else if same_text(app_name, "Cursor") {
        Some("Cursor.exe")
    } else if same_text(app_name, "Windsurf") {
        Some("Windsurf.exe")
    } else if same_text(app_name, "Windows Terminal") {
        Some("WindowsTerminal.exe")
    } else if same_text(app_name, "PowerShell") {
        Some("pwsh.exe")
    } else if same_text(app_name, "Command Prompt") {
        Some("cmd.exe")
    } else {
        None
    }
}

/// The name `Get-Process -Name` is given to find the window of `app_name`:
/// its process name without trailing `.exe`.
pub open spec fn activation_target_spec(app_name: Seq<char>) -> Option<Seq<char>> {
    match activation_process_spec(app_name) {
        Some(p) => Some(strip_suffixes(p, ".exe"@)),
        None => None,
    }
}

/// The process name to look up when activating `app_name`, or `None` when no
/// mapping exists (activation is then skipped).
pub fn activation_target(app_name: &str) -> (r: Option<&'static str>)
    ensures
        opt_view(r) == activation_target_spec(app_name@),
{
    match activation_process(app_name) {
        Some(p) => Some(trim_end_matches(p, ".exe")),
        None => None,
    }
}

/// The process name and parent process id on one line of
/// `wmic process ... get Name,ParentProcessId /format:csv` output
/// (`Node,Name,ParentProcessId`), or `None` for a blank line, the header, or a
/// line with fewer than three fields. An unparsable id reads as 0.
pub open spec fn wmic_record(line: Seq<char>) -> Option<(Seq<char>, u32)> {
    let t = trim_spec(line);
    if t.len() == 0 || seq_starts_with(t, "Node"@) {
        None
    } else {
        let parts = split_spec(t, ',');
        if parts.len() >= 3 {
            Some(
                (
                    trim_spec(parts[1]),
                    match parse_u32_spec(trim_spec(parts[2])) {
                        Some(v) => v,
                        None => 0,
                    },
                ),
            )
        } else {
            None
        }
    }
}

/// The record of the last line that has one, or an empty name and 0.
pub open spec fn wmic_scan(lines: Seq<Seq<char>>) -> (Seq<char>, u32)
    decreases lines.len(),
{
    if lines.len() == 0 {
        (Seq::empty(), 0)
    } else {
        match wmic_record(lines.last()) {
            Some(r) => r,
            None => wmic_scan(lines.drop_last()),
        }
    }
}

/// The process name and parent id that `wmic` reports: those of the last
/// record line. Lines are split at `\n`; a `\r` before it is white space and
/// is trimmed with the rest, as with `str::lines`.
pub open spec fn wmic_output_spec(out: Seq<char>) -> (Seq<char>, u32) {
    wmic_scan(split_spec(out, '\n'))
}

/// How `wmic` output is read: blank lines and the `Node` header carry no
/// record, nor does a line of fewer than three comma-separated fields; a
/// record's name is its trimmed second field and its parent id the trimmed
/// third field read as a number, or 0 when that does not read; the last
/// line with a record decides, and output without one gives an empty name
/// and 0.
pub proof fn lemma_wmic_reading(line: Seq<char>, lines: Seq<Seq<char>>)
    ensures
        trim_spec(line).len() == 0 ==> wmic_record(line) is None,
        seq_starts_with(trim_spec(line), "Node"@) ==> wmic_record(line) is None,
        split_spec(trim_spec(line), ',').len() < 3 ==> wmic_record(line) is None,
        wmic_record(line) matches Some((name, pid)) ==> name == trim_spec(
            split_spec(trim_spec(line), ',')[1],
        ) && (parse_u32_spec(trim_spec(split_spec(trim_spec(line), ',')[2])) is None ==> pid == 0)
            && (parse_u32_spec(trim_spec(split_spec(trim_spec(line), ',')[2])) matches Some(v)
            ==> pid == v),
        wmic_record(line) is Some ==> wmic_scan(lines.push(line)) == wmic_record(line)->0,
        wmic_record(line) is None ==> wmic_scan(lines.push(line)) == wmic_scan(lines),
        wmic_scan(Seq::empty()) == (Seq::<char>::empty(), 0u32),
{
    assert(lines.push(line).drop_last() =~= lines);
}

/// Reads one line of `wmic` CSV output.
pub fn wmic_line(line: &str) -> (r: Option<(String, u32)>)
    ensures
        match r {
            Some((name, pid)) => wmic_record(line@) == Some((name@, pid)),
            None => wmic_record(line@) is None,
        },
{
    let t = trim(line);
    let tc = to_chars(t);
    if tc.len() == 0 || starts_with(&tc, "Node") {
        return None;
    }
    let parts = split(t, ',');
    proof {
        lemma_split_nonempty(t@, ',');
    }
    if parts.len() < 3 {
        return None;
    }
    assert(parts@[1]@ == split_spec(t@, ',')[1]);
    assert(parts@[2]@ == split_spec(t@, ',')[2]);
    let name = String::from_str(trim(parts[1]));
    let pid = match parse_u32(trim(parts[2])) {
        Some(v) => v,
        None => 0,
    };
    Some((name, pid))
}

/// The process name and parent process id in `wmic` CSV output, as
/// `find_parent_app` reads them on Windows.
pub fn parse_wmic_output(out: &str) -> (r: (String, u32))
    ensures
        (r.0@, r.1) == wmic_output_spec(out@),
{
    let lines = split(out, '\n');
    let ghost all = lines@.map_values(|p: &str| p@);
    let mut name = String::new();
    let mut pid: u32 = 0;
    let mut i: usize = 0;
    assert(all.take(0) =~= Seq::<Seq<char>>::empty());
    while i < lines.len()
        invariant
            i <= lines@.len(),
            all == lines@.map_values(|p: &str| p@),
            (name@, pid) == wmic_scan(all.take(i as int)),
        decreases lines@.len() - i,
    {
        assert(all.take(i + 1).drop_last() =~= all.take(i as int));
        assert(all.take(i + 1).last() == lines@[i as int]@);
        match wmic_line(lines[i]) {
            Some((n, p)) => {
                name = n;
                pid = p;
            },
            None => {},
        }
        i = i + 1;
    }
    assert(all.take(i as int) =~= all);
    (name, pid)
}


/// What the caller of a `wmic` walk up the process tree does next.
#[derive(Clone, Copy, Debug, PartialEq, Eq)]
pub enum WmicAction {
    /// Report what `wmic` prints for this process id.
    Query(u32),
    /// The walk is over: this is the application.
    Found(&'static str),
}

/// A walk up the Windows process tree, one `wmic` query per process,
/// looking for the first process that belongs to a known application.
#[derive(Clone, Copy, Debug)]
pub struct WmicWalk {
    /// The process being looked at.
    pub pid: u32,
    /// How many processes have been left behind so far.
    pub steps: u32,
}

impl WmicWalk {
    /// Fewer than `MAX_STEPS` processes have been left behind.
    pub open spec fn wf(self) -> bool {
        self.steps < MAX_STEPS
    }

    /// Starts a walk at `pid`.
    pub fn start(pid: u32) -> (r: (WmicWalk, WmicAction))
        ensures
            r.0.wf(),
            r.0 == (WmicWalk { pid, steps: 0 }),
            r.1 == WmicAction::Query(pid),
    {
        (WmicWalk { pid, steps: 0 }, WmicAction::Query(pid))
    }

    /// Takes the `wmic` output for the current process and says what to do
    /// next: end with `Windows Terminal` when no process is reported; end
    /// with the application the process belongs to; end with `Windows
    /// Terminal` at the root (a parent id of at most 1), when the parent is
    /// the process itself, or after `MAX_STEPS` processes; else ask about the
    /// parent.
    pub fn advance(&mut self, output: &str) -> (r: WmicAction)
        requires
            old(self).wf(),
        ensures
            final(self).wf(),
            r matches WmicAction::Found(a) ==> known_app(a@),
            r is Found ==> *final(self) == *old(self),
            !(r is Found) ==> final(self).steps == old(self).steps + 1,
            ({
                let (name, ppid) = wmic_output_spec(output@);
                if name.len() == 0 {
                    r matches WmicAction::Found(a) && a@ == "Windows Terminal"@
                } else if app_name_spec(name) is Some {
                    r matches WmicAction::Found(a) && Some(a@) == app_name_spec(name)
                } else if ppid <= 1 || ppid == old(self).pid || old(self).steps + 1 >= MAX_STEPS {
                    r matches WmicAction::Found(a) && a@ == "Windows Terminal"@
                } else {
                    &&& r == WmicAction::Query(ppid)
                    &&& *final(self) == (WmicWalk { pid: ppid, steps: (old(self).steps + 1) as u32 })
                }
            }),
    {
        let (name, ppid) = parse_wmic_output(output);
        if name.as_str().unicode_len() == 0 {
            return WmicAction::Found("Windows Terminal");
        }
        match get_app_name(name.as_str()) {
            Some(app) => {
                return WmicAction::Found(app);
            },
            None => {},
        }
        if ppid <= 1 || ppid == self.pid || self.steps + 1 >= MAX_STEPS {
            return WmicAction::Found("Windows Terminal");
        }
        self.pid = ppid;
        self.steps = self.steps + 1;
        WmicAction::Query(ppid)
    }
}

/// The characters of the literals the Windows rules compare against.
proof fn lemma_windows_literals()
    ensures
        "windowsterminal"@.len() == 15,
        "windowsterminal"@[0] == 'w',
        "windowsterminal"@[1] == 'i',
        "windowsterminal"@[2] == 'n',
        "windowsterminal"@[3] == 'd',
        "windowsterminal"@[4] == 'o',
        "windowsterminal"@[5] == 'w',
        "windowsterminal"@[6] == 's',
        "windowsterminal"@[7] == 't',
        "windowsterminal"@[8] == 'e',
        "windowsterminal"@[9] == 'r',
        "windowsterminal"@[10] == 'm',
        "windowsterminal"@[11] == 'i',
        "windowsterminal"@[12] == 'n',
        "windowsterminal"@[13] == 'a',
        "windowsterminal"@[14] == 'l',
        "pwsh"@.len() == 4,
        "pwsh"@[0] == 'p',
        "pwsh"@[1] == 'w',
        "pwsh"@[2] == 's',
        "pwsh"@[3] == 'h',
        "powershell"@.len() == 10,
        "powershell"@[0] == 'p',
        "powershell"@[1] == 'o',
        "powershell"@[2] == 'w',
        "powershell"@[3] == 'e',
        "powershell"@[4] == 'r',
        "powershell"@[5] == 's',
        "powershell"@[6] == 'h',
        "powershell"@[7] == 'e',
        "powershell"@[8] == 'l',
        "powershell"@[9] == 'l',
        "cmd"@.len() == 3,
        "cmd"@[0] == 'c',
        "cmd"@[1] == 'm',
        "cmd"@[2] == 'd',
        "alacritty"@.len() == 9,
        "alacritty"@[0] == 'a',
        "alacritty"@[1] == 'l',
        "alacritty"@[2] == 'a',
        "alacritty"@[3] == 'c',
        "alacritty"@[4] == 'r',
        "alacritty"@[5] == 'i',
        "alacritty"@[6] == 't',
        "alacritty"@[7] == 't',
        "alacritty"@[8] == 'y',
        "kitty"@.len() == 5,
        "kitty"@[0] == 'k',
        "kitty"@[1] == 'i',
        "kitty"@[2] == 't',
        "kitty"@[3] == 't',
        "kitty"@[4] == 'y',
        "hyper"@.len() == 5,
        "hyper"@[0] == 'h',
        "hyper"@[1] == 'y',
        "hyper"@[2] == 'p',
        "hyper"@[3] == 'e',
        "hyper"@[4] == 'r',
        "wezterm"@.len() == 7,
        "wezterm"@[0] == 'w',
        "wezterm"@[1] == 'e',
        "wezterm"@[2] == 'z',
        "wezterm"@[3] == 't',
        "wezterm"@[4] == 'e',
        "wezterm"@[5] == 'r',
        "wezterm"@[6] == 'm',
        "wezterm-gui"@.len() == 11,
        "wezterm-gui"@[0] == 'w',
        "wezterm-gui"@[1] == 'e',
        "wezterm-gui"@[2] == 'z',
        "wezterm-gui"@[3] == 't',
        "wezterm-gui"@[4] == 'e',
        "wezterm-gui"@[5] == 'r',
        "wezterm-gui"@[6] == 'm',
        "wezterm-gui"@[7] == '-',
        "wezterm-gui"@[8] == 'g',
        "wezterm-gui"@[9] == 'u',
        "wezterm-gui"@[10] == 'i',
        "code"@.len() == 4,
        "code"@[0] == 'c',
        "code"@[1] == 'o',
        "code"@[2] == 'd',
        "code"@[3] == 'e',
        "cursor"@.len() == 6,
        "cursor"@[0] == 'c',
        "cursor"@[1] == 'u',
        "cursor"@[2] == 'r',
        "cursor"@[3] == 's',
        "cursor"@[4] == 'o',
        "cursor"@[5] == 'r',
        "windsurf"@.len() == 8,
        "windsurf"@[0] == 'w',
        "windsurf"@[1] == 'i',
        "windsurf"@[2] == 'n',
        "windsurf"@[3] == 'd',
        "windsurf"@[4] == 's',
        "windsurf"@[5] == 'u',
        "windsurf"@[6] == 'r',
        "windsurf"@[7] == 'f',
        "zed"@.len() == 3,
        "zed"@[0] == 'z',
        "zed"@[1] == 'e',
        "zed"@[2] == 'd',
        "sublime_text"@.len() == 12,
        "sublime_text"@[0] == 's',
        "sublime_text"@[1] == 'u',
        "sublime_text"@[2] == 'b',
        "sublime_text"@[3] == 'l',
        "sublime_text"@[4] == 'i',
        "sublime_text"@[5] == 'm',
        "sublime_text"@[6] == 'e',
        "sublime_text"@[7] == '_',
        "sublime_text"@[8] == 't',
        "sublime_text"@[9] == 'e',
        "sublime_text"@[10] == 'x',
        "sublime_text"@[11] == 't',
        "Visual Studio Code"@.len() == 18,
        "Visual Studio Code"@[0] == 'V',
        "Visual Studio Code"@[1] == 'i',
        "Visual Studio Code"@[2] == 's',
        "Visual Studio Code"@[3] == 'u',
        "Visual Studio Code"@[4] == 'a',
        "Visual Studio Code"@[5] == 'l',
        "Visual Studio Code"@[6] == ' ',
        "Visual Studio Code"@[7] == 'S',
        "Visual Studio Code"@[8] == 't',
        "Visual Studio Code"@[9] == 'u',
        "Visual Studio Code"@[10] == 'd',
        "Visual Studio Code"@[11] == 'i',
        "Visual Studio Code"@[12] == 'o',
        "Visual Studio Code"@[13] == ' ',
        "Visual Studio Code"@[14] == 'C',
        "Visual Studio Code"@[15] == 'o',
        "Visual Studio Code"@[16] == 'd',
        "Visual Studio Code"@[17] == 'e',
        "Cursor"@.len() == 6,
        "Cursor"@[0] == 'C',
        "Cursor"@[1] == 'u',
        "Cursor"@[2] == 'r',
        "Cursor"@[3] == 's',
        "Cursor"@[4] == 'o',
        "Cursor"@[5] == 'r',
        "Windsurf"@.len() == 8,
        "Windsurf"@[0] == 'W',
        "Windsurf"@[1] == 'i',
        "Windsurf"@[2] == 'n',
        "Windsurf"@[3] == 'd',
        "Windsurf"@[4] == 's',
        "Windsurf"@[5] == 'u',
        "Windsurf"@[6] == 'r',
        "Windsurf"@[7] == 'f',
        "Windows Terminal"@.len() == 16,
        "Windows Terminal"@[0] == 'W',
        "Windows Terminal"@[1] == 'i',
        "Windows Terminal"@[2] == 'n',
        "Windows Terminal"@[3] == 'd',
        "Windows Terminal"@[4] == 'o',
        "Windows Terminal"@[5] == 'w',
        "Windows Terminal"@[6] == 's',
        "Windows Terminal"@[7] == ' ',
        "Windows Terminal"@[8] == 'T',
        "Windows Terminal"@[9] == 'e',
        "Windows Terminal"@[10] == 'r',
        "Windows Terminal"@[11] == 'm',
        "Windows Terminal"@[12] == 'i',
        "Windows Terminal"@[13] == 'n',
        "Windows Terminal"@[14] == 'a',
        "Windows Terminal"@[15] == 'l',
        "PowerShell"@.len() == 10,
        "PowerShell"@[0] == 'P',
        "PowerShell"@[1] == 'o',
        "PowerShell"@[2] == 'w',
        "PowerShell"@[3] == 'e',
        "PowerShell"@[4] == 'r',
        "PowerShell"@[5] == 'S',
        "PowerShell"@[6] == 'h',
        "PowerShell"@[7] == 'e',
        "PowerShell"@[8] == 'l',
        "PowerShell"@[9] == 'l',
        "Command Prompt"@.len() == 14,
        "Command Prompt"@[0] == 'C',
        "Command Prompt"@[1] == 'o',
        "Command Prompt"@[2] == 'm',
        "Command Prompt"@[3] == 'm',
        "Command Prompt"@[4] == 'a',
        "Command Prompt"@[5] == 'n',
        "Command Prompt"@[6] == 'd',
        "Command Prompt"@[7] == ' ',
        "Command Prompt"@[8] == 'P',
        "Command Prompt"@[9] == 'r',
        "Command Prompt"@[10] == 'o',
        "Command Prompt"@[11] == 'm',
        "Command Prompt"@[12] == 'p',
        "Command Prompt"@[13] == 't',
        "Code.exe"@.len() == 8,
        "Code.exe"@[0] == 'C',
        "Code.exe"@[1] == 'o',
        "Code.exe"@[2] == 'd',
        "Code.exe"@[3] == 'e',
        "Code.exe"@[4] == '.',
        "Code.exe"@[5] == 'e',
        "Code.exe"@[6] == 'x',
        "Code.exe"@[7] == 'e',
        "Cursor.exe"@.len() == 10,
        "Cursor.exe"@[0] == 'C',
        "Cursor.exe"@[1] == 'u',
        "Cursor.exe"@[2] == 'r',
        "Cursor.exe"@[3] == 's',
        "Cursor.exe"@[4] == 'o',
        "Cursor.exe"@[5] == 'r',
        "Cursor.exe"@[6] == '.',
        "Cursor.exe"@[7] == 'e',
        "Cursor.exe"@[8] == 'x',
        "Cursor.exe"@[9] == 'e',
        "Windsurf.exe"@.len() == 12,
        "Windsurf.exe"@[0] == 'W',
        "Windsurf.exe"@[1] == 'i',
        "Windsurf.exe"@[2] == 'n',
        "Windsurf.exe"@[3] == 'd',
        "Windsurf.exe"@[4] == 's',
        "Windsurf.exe"@[5] == 'u',
        "Windsurf.exe"@[6] == 'r',
        "Windsurf.exe"@[7] == 'f',
        "Windsurf.exe"@[8] == '.',
        "Windsurf.exe"@[9] == 'e',
        "Windsurf.exe"@[10] == 'x',
        "Windsurf.exe"@[11] == 'e',
        "WindowsTerminal.exe"@.len() == 19,
        "WindowsTerminal.exe"@[0] == 'W',
        "WindowsTerminal.exe"@[1] == 'i',
        "WindowsTerminal.exe"@[2] == 'n',
        "WindowsTerminal.exe"@[3] == 'd',
        "WindowsTerminal.exe"@[4] == 'o',
        "WindowsTerminal.exe"@[5] == 'w',
        "WindowsTerminal.exe"@[6] == 's',
        "WindowsTerminal.exe"@[7] == 'T',
        "WindowsTerminal.exe"@[8] == 'e',
        "WindowsTerminal.exe"@[9] == 'r',
        "WindowsTerminal.exe"@[10] == 'm',
        "WindowsTerminal.exe"@[11] == 'i',
        "WindowsTerminal.exe"@[12] == 'n',
        "WindowsTerminal.exe"@[13] == 'a',
        "WindowsTerminal.exe"@[14] == 'l',
        "WindowsTerminal.exe"@[15] == '.',
        "WindowsTerminal.exe"@[16] == 'e',
        "WindowsTerminal.exe"@[17] == 'x',
        "WindowsTerminal.exe"@[18] == 'e',
        "pwsh.exe"@.len() == 8,
        "pwsh.exe"@[0] == 'p',
        "pwsh.exe"@[1] == 'w',
        "pwsh.exe"@[2] == 's',
        "pwsh.exe"@[3] == 'h',
        "pwsh.exe"@[4] == '.',
        "pwsh.exe"@[5] == 'e',
        "pwsh.exe"@[6] == 'x',
        "pwsh.exe"@[7] == 'e',
        "cmd.exe"@.len() == 7,
        "cmd.exe"@[0] == 'c',
        "cmd.exe"@[1] == 'm',
        "cmd.exe"@[2] == 'd',
        "cmd.exe"@[3] == '.',
        "cmd.exe"@[4] == 'e',
        "cmd.exe"@[5] == 'x',
        "cmd.exe"@[6] == 'e',
        "code.exe"@.len() == 8,
        "code.exe"@[0] == 'c',
        "code.exe"@[1] == 'o',
        "code.exe"@[2] == 'd',
        "code.exe"@[3] == 'e',
        "code.exe"@[4] == '.',
        "code.exe"@[5] == 'e',
        "code.exe"@[6] == 'x',
        "code.exe"@[7] == 'e',
        "cursor.exe"@.len() == 10,
        "cursor.exe"@[0] == 'c',
        "cursor.exe"@[1] == 'u',
        "cursor.exe"@[2] == 'r',
        "cursor.exe"@[3] == 's',
        "cursor.exe"@[4] == 'o',
        "cursor.exe"@[5] == 'r',
        "cursor.exe"@[6] == '.',
        "cursor.exe"@[7] == 'e',
        "cursor.exe"@[8] == 'x',
        "cursor.exe"@[9] == 'e',
        "windsurf.exe"@.len() == 12,
        "windsurf.exe"@[0] == 'w',
        "windsurf.exe"@[1] == 'i',
        "windsurf.exe"@[2] == 'n',
        "windsurf.exe"@[3] == 'd',
        "windsurf.exe"@[4] == 's',
        "windsurf.exe"@[5] == 'u',
        "windsurf.exe"@[6] == 'r',
        "windsurf.exe"@[7] == 'f',
        "windsurf.exe"@[8] == '.',
        "windsurf.exe"@[9] == 'e',
        "windsurf.exe"@[10] == 'x',
        "windsurf.exe"@[11] == 'e',
        "windowsterminal.exe"@.len() == 19,
        "windowsterminal.exe"@[0] == 'w',
        "windowsterminal.exe"@[1] == 'i',
        "windowsterminal.exe"@[2] == 'n',
        "windowsterminal.exe"@[3] == 'd',
        "windowsterminal.exe"@[4] == 'o',
        "windowsterminal.exe"@[5] == 'w',
        "windowsterminal.exe"@[6] == 's',
        "windowsterminal.exe"@[7] == 't',
        "windowsterminal.exe"@[8] == 'e',
        "windowsterminal.exe"@[9] == 'r',
        "windowsterminal.exe"@[10] == 'm',
        "windowsterminal.exe"@[11] == 'i',
        "windowsterminal.exe"@[12] == 'n',
        "windowsterminal.exe"@[13] == 'a',
        "windowsterminal.exe"@[14] == 'l',
        "windowsterminal.exe"@[15] == '.',
        "windowsterminal.exe"@[16] == 'e',
        "windowsterminal.exe"@[17] == 'x',
        "windowsterminal.exe"@[18] == 'e',
        "Code"@.len() == 4,
        "Code"@[0] == 'C',
        "Code"@[1] == 'o',
        "Code"@[2] == 'd',
        "Code"@[3] == 'e',
        "WindowsTerminal"@.len() == 15,
        "WindowsTerminal"@[0] == 'W',
        "WindowsTerminal"@[1] == 'i',
        "WindowsTerminal"@[2] == 'n',
        "WindowsTerminal"@[3] == 'd',
        "WindowsTerminal"@[4] == 'o',
        "WindowsTerminal"@[5] == 'w',
        "WindowsTerminal"@[6] == 's',
        "WindowsTerminal"@[7] == 'T',
        "WindowsTerminal"@[8] == 'e',
        "WindowsTerminal"@[9] == 'r',
        "WindowsTerminal"@[10] == 'm',
        "WindowsTerminal"@[11] == 'i',
        "WindowsTerminal"@[12] == 'n',
        "WindowsTerminal"@[13] == 'a',
        "WindowsTerminal"@[14] == 'l',
        ".exe"@.len() == 4,
        ".exe"@[0] == '.',
        ".exe"@[1] == 'e',
        ".exe"@[2] == 'x',
        ".exe"@[3] == 'e',
        "Zed"@.len() == 3,
        "Zed"@[0] == 'Z',
        "Zed"@[1] == 'e',
        "Zed"@[2] == 'd',
{
    reveal_strlit("windowsterminal");
    reveal_strlit("pwsh");
    reveal_strlit("powershell");
    reveal_strlit("cmd");
    reveal_strlit("alacritty");
    reveal_strlit("kitty");
    reveal_strlit("hyper");
    reveal_strlit("wezterm");
    reveal_strlit("wezterm-gui");
    reveal_strlit("code");
    reveal_strlit("cursor");
    reveal_strlit("windsurf");
    reveal_strlit("zed");
    reveal_strlit("sublime_text");
    reveal_strlit("Visual Studio Code");
    reveal_strlit("Cursor");
    reveal_strlit("Windsurf");
    reveal_strlit("Windows Terminal");
    reveal_strlit("PowerShell");
    reveal_strlit("Command Prompt");
    reveal_strlit("Code.exe");
    reveal_strlit("Cursor.exe");
    reveal_strlit("Windsurf.exe");
    reveal_strlit("WindowsTerminal.exe");
    reveal_strlit("pwsh.exe");
    reveal_strlit("cmd.exe");
    reveal_strlit("code.exe");
    reveal_strlit("cursor.exe");
    reveal_strlit("windsurf.exe");
    reveal_strlit("windowsterminal.exe");
    reveal_strlit("Code");
    reveal_strlit("WindowsTerminal");
    reveal_strlit(".exe");
    reveal_strlit("Zed");
}

/// On Windows a process is taken for the application its lowercased name
/// names once every trailing `.exe` is removed: `code` for Visual Studio
/// Code, `pwsh` and `powershell` for PowerShell, `cmd` for Command Prompt,
/// and so on; any other name is no known application.
pub proof fn lemma_windows_names(comm: Seq<char>)
    ensures
        strip_suffixes(lowercase(comm), ".exe"@) == "windowsterminal"@ ==> app_name_spec(comm) == Some("Windows Terminal"@),
        strip_suffixes(lowercase(comm), ".exe"@) == "pwsh"@ ==> app_name_spec(comm) == Some("PowerShell"@),
        strip_suffixes(lowercase(comm), ".exe"@) == "powershell"@ ==> app_name_spec(comm) == Some("PowerShell"@),
        strip_suffixes(lowercase(comm), ".exe"@) == "cmd"@ ==> app_name_spec(comm) == Some("Command Prompt"@),
        strip_suffixes(lowercase(comm), ".exe"@) == "alacritty"@ ==> app_name_spec(comm) == Some("Alacritty"@),
        strip_suffixes(lowercase(comm), ".exe"@) == "kitty"@ ==> app_name_spec(comm) == Some("kitty"@),
        strip_suffixes(lowercase(comm), ".exe"@) == "hyper"@ ==> app_name_spec(comm) == Some("Hyper"@),
        strip_suffixes(lowercase(comm), ".exe"@) == "wezterm"@ ==> app_name_spec(comm) == Some("WezTerm"@),
        strip_suffixes(lowercase(comm), ".exe"@) == "wezterm-gui"@ ==> app_name_spec(comm) == Some("WezTerm"@),
        strip_suffixes(lowercase(comm), ".exe"@) == "code"@ ==> app_name_spec(comm) == Some("Visual Studio Code"@),
        strip_suffixes(lowercase(comm), ".exe"@) == "cursor"@ ==> app_name_spec(comm) == Some("Cursor"@),
        strip_suffixes(lowercase(comm), ".exe"@) == "windsurf"@ ==> app_name_spec(comm) == Some("Windsurf"@),
        strip_suffixes(lowercase(comm), ".exe"@) == "zed"@ ==> app_name_spec(comm) == Some("Zed"@),
        strip_suffixes(lowercase(comm), ".exe"@) == "sublime_text"@ ==> app_name_spec(comm) == Some("Sublime Text"@),
        strip_suffixes(lowercase(comm), ".exe"@) != "windowsterminal"@ && strip_suffixes(lowercase(comm), ".exe"@) != "pwsh"@ && strip_suffixes(lowercase(comm), ".exe"@) != "powershell"@ && strip_suffixes(lowercase(comm), ".exe"@) != "cmd"@ && strip_suffixes(lowercase(comm), ".exe"@) != "alacritty"@ && strip_suffixes(lowercase(comm), ".exe"@) != "kitty"@ && strip_suffixes(lowercase(comm), ".exe"@) != "hyper"@ && strip_suffixes(lowercase(comm), ".exe"@) != "wezterm"@ && strip_suffixes(lowercase(comm), ".exe"@) != "wezterm-gui"@ && strip_suffixes(lowercase(comm), ".exe"@) != "code"@ && strip_suffixes(lowercase(comm), ".exe"@) != "cursor"@ && strip_suffixes(lowercase(comm), ".exe"@) != "windsurf"@ && strip_suffixes(lowercase(comm), ".exe"@) != "zed"@ && strip_suffixes(lowercase(comm), ".exe"@) != "sublime_text"@ ==> app_name_spec(comm) is None,
{
    lemma_windows_literals();
}

/// The window brought forward for an application is that of the
/// application's own process: Cursor activates `Cursor.exe`, Visual Studio
/// Code `Code.exe`, Windows Terminal `WindowsTerminal.exe`, PowerShell
/// `pwsh.exe`, Command Prompt `cmd.exe`, Windsurf `Windsurf.exe`, looked up
/// without `.exe`; other applications are not activated. The Windows naming
/// rules take the activated process back to the same application.
pub proof fn lemma_activation_targets(app_name: Seq<char>)
    ensures
        activation_process_spec("Visual Studio Code"@) == Some("Code.exe"@),
        activation_process_spec("Cursor"@) == Some("Cursor.exe"@),
        activation_process_spec("Windsurf"@) == Some("Windsurf.exe"@),
        activation_process_spec("Windows Terminal"@) == Some("WindowsTerminal.exe"@),
        activation_process_spec("PowerShell"@) == Some("pwsh.exe"@),
        activation_process_spec("Command Prompt"@) == Some("cmd.exe"@),
        activation_target_spec("Visual Studio Code"@) == Some("Code"@),
        activation_target_spec("Cursor"@) == Some("Cursor"@),
        activation_target_spec("Windsurf"@) == Some("Windsurf"@),
        activation_target_spec("Windows Terminal"@) == Some("WindowsTerminal"@),
        activation_target_spec("PowerShell"@) == Some("pwsh"@),
        activation_target_spec("Command Prompt"@) == Some("cmd"@),
        app_name != "Visual Studio Code"@ && app_name != "Cursor"@ && app_name != "Windsurf"@ && app_name != "Windows Terminal"@ && app_name != "PowerShell"@ && app_name != "Command Prompt"@ ==> activation_process_spec(app_name) is None,
        activation_process_spec(app_name) matches Some(p) ==> name_of_lowercase(ascii_lowercase(p))
            == Some(app_name),
{
    lemma_windows_literals();
    assert("Code.exe"@.subrange(4, 8) =~= ".exe"@);
    assert("Code.exe"@.subrange(0, 4) =~= "Code"@);
    assert(strip_suffixes("Code"@, ".exe"@) == "Code"@) by {
        if 4 >= 4 {
            assert("Code"@.subrange(0, 4) != ".exe"@) by {
                assert("Code"@.subrange(0, 4)[0] == 'C');
            }
        }
    }
    assert(ascii_lowercase("Code.exe"@) =~= "code.exe"@);
    assert("code.exe"@.subrange(4, 8) =~= ".exe"@);
    assert("code.exe"@.subrange(0, 4) =~= "code"@);
    assert(strip_suffixes("code"@, ".exe"@) == "code"@) by {
        if 4 >= 4 {
            assert("code"@.subrange(0, 4) != ".exe"@) by {
                assert("code"@.subrange(0, 4)[0] == 'c');
            }
        }
    }
    assert("Cursor.exe"@.subrange(6, 10) =~= ".exe"@);
    assert("Cursor.exe"@.subrange(0, 6) =~= "Cursor"@);
    assert(strip_suffixes("Cursor"@, ".exe"@) == "Cursor"@) by {
        if 6 >= 4 {
            assert("Cursor"@.subrange(2, 6) != ".exe"@) by {
                assert("Cursor"@.subrange(2, 6)[0] == 'r');
            }
        }
    }
    assert(ascii_lowercase("Cursor.exe"@) =~= "cursor.exe"@);
    assert("cursor.exe"@.subrange(6, 10) =~= ".exe"@);
    assert("cursor.exe"@.subrange(0, 6) =~= "cursor"@);
    assert(strip_suffixes("cursor"@, ".exe"@) == "cursor"@) by {
        if 6 >= 4 {
            assert("cursor"@.subrange(2, 6) != ".exe"@) by {
                assert("cursor"@.subrange(2, 6)[0] == 'r');
            }
        }
    }
    assert("Windsurf.exe"@.subrange(8, 12) =~= ".exe"@);
    assert("Windsurf.exe"@.subrange(0, 8) =~= "Windsurf"@);
    assert(strip_suffixes("Windsurf"@, ".exe"@) == "Windsurf"@) by {
        if 8 >= 4 {
            assert("Windsurf"@.subrange(4, 8) != ".exe"@) by {
                assert("Windsurf"@.subrange(4, 8)[0] == 's');
            }
        }
    }
    assert(ascii_lowercase("Windsurf.exe"@) =~= "windsurf.exe"@);
    assert("windsurf.exe"@.subrange(8, 12) =~= ".exe"@);
    assert("windsurf.exe"@.subrange(0, 8) =~= "windsurf"@);
    assert(strip_suffixes("windsurf"@, ".exe"@) == "windsurf"@) by {
        if 8 >= 4 {
            assert("windsurf"@.subrange(4, 8) != ".exe"@) by {
                assert("windsurf"@.subrange(4, 8)[0] == 's');
            }
        }
    }
    assert("WindowsTerminal.exe"@.subrange(15, 19) =~= ".exe"@);
    assert("WindowsTerminal.exe"@.subrange(0, 15) =~= "WindowsTerminal"@);
    assert(strip_suffixes("WindowsTerminal"@, ".exe"@) == "WindowsTerminal"@) by {
        if 15 >= 4 {
            assert("WindowsTerminal"@.subrange(11, 15) != ".exe"@) by {
                assert("WindowsTerminal"@.subrange(11, 15)[0] == 'i');
            }
        }
    }
    assert(ascii_lowercase("WindowsTerminal.exe"@) =~= "windowsterminal.exe"@);
    assert("windowsterminal.exe"@.subrange(15, 19) =~= ".exe"@);
    assert("windowsterminal.exe"@.subrange(0, 15) =~= "windowsterminal"@);
    assert(strip_suffixes("windowsterminal"@, ".exe"@) == "windowsterminal"@) by {
        if 15 >= 4 {
            assert("windowsterminal"@.subrange(11, 15) != ".exe"@) by {
                assert("windowsterminal"@.subrange(11, 15)[0] == 'i');
            }
        }
    }
    assert("pwsh.exe"@.subrange(4, 8) =~= ".exe"@);
    assert("pwsh.exe"@.subrange(0, 4) =~= "pwsh"@);
    assert(strip_suffixes("pwsh"@, ".exe"@) == "pwsh"@) by {
        if 4 >= 4 {
            assert("pwsh"@.subrange(0, 4) != ".exe"@) by {
                assert("pwsh"@.subrange(0, 4)[0] == 'p');
            }
        }
    }
    assert(ascii_lowercase("pwsh.exe"@) =~= "pwsh.exe"@);
    assert("pwsh.exe"@.subrange(4, 8) =~= ".exe"@);
    assert("pwsh.exe"@.subrange(0, 4) =~= "pwsh"@);
    assert(strip_suffixes("pwsh"@, ".exe"@) == "pwsh"@) by {
        if 4 >= 4 {
            assert("pwsh"@.subrange(0, 4) != ".exe"@) by {
                assert("pwsh"@.subrange(0, 4)[0] == 'p');
            }
        }
    }
    assert("cmd.exe"@.subrange(3, 7) =~= ".exe"@);
    assert("cmd.exe"@.subrange(0, 3) =~= "cmd"@);
    assert(strip_suffixes("cmd"@, ".exe"@) == "cmd"@) by {
        if 3 >= 4 {
            assert("cmd"@.subrange(-1, 3) != ".exe"@) by {
                assert("cmd"@.subrange(-1, 3)[0] == 'd');
            }
        }
    }
    assert(ascii_lowercase("cmd.exe"@) =~= "cmd.exe"@);
    assert("cmd.exe"@.subrange(3, 7) =~= ".exe"@);
    assert("cmd.exe"@.subrange(0, 3) =~= "cmd"@);
    assert(strip_suffixes("cmd"@, ".exe"@) == "cmd"@) by {
        if 3 >= 4 {
            assert("cmd"@.subrange(-1, 3) != ".exe"@) by {
                assert("cmd"@.subrange(-1, 3)[0] == 'd');
            }
        }
    }
}


/// The Windows launchers of each editor, under the per-user program
/// directory (`LOCALAPPDATA`) and the system ones (`PROGRAMFILES`,
/// `PROGRAMFILES(X86)`), in the order they are tried; no other application
/// has one, and none is chosen while `LOCALAPPDATA` or `PROGRAMFILES` is
/// unset.
pub proof fn lemma_windows_launchers(
    app_name: Seq<char>,
    local: Seq<char>,
    files: Seq<char>,
    files_x86: Seq<char>,
    installed: Seq<Seq<char>>,
)
    ensures
        cli_candidates_spec("Visual Studio Code"@, local, files, files_x86) == seq![local + "\\Programs\\Microsoft VS Code\\bin\\code.cmd"@, files + "\\Microsoft VS Code\\bin\\code.cmd"@, files_x86 + "\\Microsoft VS Code\\bin\\code.cmd"@],
        cli_candidates_spec("Cursor"@, local, files, files_x86) == seq![local + "\\Programs\\cursor\\resources\\app\\bin\\cursor.cmd"@, local + "\\Cursor\\resources\\app\\bin\\cursor.cmd"@],
        cli_candidates_spec("Windsurf"@, local, files, files_x86) == seq![local + "\\Programs\\Windsurf\\bin\\windsurf.cmd"@, files + "\\Windsurf\\bin\\windsurf.cmd"@],
        cli_candidates_spec("Zed"@, local, files, files_x86) == seq![local + "\\Zed\\zed.exe"@, local + "\\Programs\\Zed\\zed.exe"@],
        app_name != "Visual Studio Code"@ && app_name != "Cursor"@ && app_name != "Windsurf"@ && app_name != "Zed"@ ==> cli_candidates_spec(app_name, local, files, files_x86).len() == 0,
        get_app_cli_spec(app_name, None, Some(files), Some(files_x86), installed) is None,
        get_app_cli_spec(app_name, Some(local), None, Some(files_x86), installed) is None,
        get_app_cli_spec(app_name, Some(local), Some(files), None, installed) == get_app_cli_spec(
            app_name,
            Some(local),
            Some(files),
            Some(Seq::empty()),
            installed,
        ),
{
    lemma_windows_literals();
}


} // verus!
