//! What the platforms share: the views used in contracts, the choice of an
//! installed command-line tool, and dispatch by platform.
use vstd::prelude::*;
use crate::number::{parse_u32, parse_u32_spec};
use crate::text::{after_last, lowercase, trim, trim_spec};

verus! {

/// The desktop platforms the resolution rules are written for.
#[derive(Clone, Copy, Debug, PartialEq, Eq)]
pub enum Platform {
    MacOs,
    Windows,
    Linux,
}

/// The characters of an optional string slice.
pub open spec fn opt_view(o: Option<&str>) -> Option<Seq<char>> {
    match o {
        Some(s) => Some(s@),
        None => None,
    }
}

/// The characters of an optional string.
pub open spec fn opt_string_view(o: Option<String>) -> Option<Seq<char>> {
    match o {
        Some(s) => Some(s@),
        None => None,
    }
}

/// The characters of each string in a list.
pub open spec fn strings_view(v: Seq<String>) -> Seq<Seq<char>> {
    v.map_values(|s: String| s@)
}

/// The characters of each string slice in a list.
pub open spec fn strs_view(v: Seq<&str>) -> Seq<Seq<char>> {
    v.map_values(|s: &str| s@)
}

/// The first of `candidates` that appears in `installed`, if any.
pub open spec fn first_installed(candidates: Seq<Seq<char>>, installed: Seq<Seq<char>>) -> Option<
    Seq<char>,
>
    decreases candidates.len(),
{
    if candidates.len() == 0 {
        None
    } else if installed.contains(candidates[0]) {
        Some(candidates[0])
    } else {
        first_installed(candidates.drop_first(), installed)
    }
}

/// The chosen launcher is the earliest installed candidate: it is one of
/// the candidates, it is installed, and no candidate before it is; when none
/// is chosen, no candidate is installed.
pub proof fn lemma_first_installed(candidates: Seq<Seq<char>>, installed: Seq<Seq<char>>)
    ensures
        first_installed(candidates, installed) matches Some(c) ==> exists|i: int|
            0 <= i < candidates.len() && candidates[i] == c && installed.contains(c) && forall|j: int|
                0 <= j < i ==> !installed.contains(#[trigger] candidates[j]),
        first_installed(candidates, installed) is None ==> forall|i: int|
            0 <= i < candidates.len() ==> !installed.contains(#[trigger] candidates[i]),
    decreases candidates.len(),
{
    if candidates.len() > 0 {
        let rest = candidates.drop_first();
        lemma_first_installed(rest, installed);
        if installed.contains(candidates[0]) {
            assert(candidates[0] == candidates[0]);
        } else {
            if let Some(c) = first_installed(candidates, installed) {
                let k = choose|k: int|
                    0 <= k < rest.len() && rest[k] == c && installed.contains(c) && forall|j: int|
                        0 <= j < k ==> !installed.contains(#[trigger] rest[j]);
                assert(candidates[k + 1] == c);
                assert forall|j: int| 0 <= j < k + 1 implies !installed.contains(
                    #[trigger] candidates[j],
                ) by {
                    if j > 0 {
                        assert(candidates[j] == rest[j - 1]);
                    }
                }
            } else {
                assert forall|i: int| 0 <= i < candidates.len() implies !installed.contains(
                    #[trigger] candidates[i],
                ) by {
                    if i > 0 {
                        assert(candidates[i] == rest[i - 1]);
                    }
                }
            }
        }
    }
}

/// Whether `path` is one of `installed`.
fn is_installed(path: &String, installed: &[String]) -> (b: bool)
    ensures
        b == strings_view(installed@).contains(path@),
{
    let mut k: usize = 0;
    while k < installed.len()
        invariant
            k <= installed@.len(),
            forall|j: int| 0 <= j < k ==> installed@[j]@ != path@,
        decreases installed@.len() - k,
    {
        if installed[k] == *path {
            assert(strings_view(installed@)[k as int] == path@);
            return true;
        }
        k = k + 1;
    }
    assert forall|j: int| 0 <= j < strings_view(installed@).len() implies strings_view(
        installed@,
    )[j] != path@ by {
        assert(installed@[j]@ != path@);
    }
    false
}

/// The first of `candidates` that is among `installed`, in the order of
/// `candidates`.
pub fn first_installed_path(candidates: &Vec<String>, installed: &[String]) -> (r: Option<String>)
    ensures
        opt_string_view(r) == first_installed(strings_view(candidates@), strings_view(installed@)),
{
    let ghost all = strings_view(candidates@);
    let ghost inst = strings_view(installed@);
    let mut i: usize = 0;
    assert(all.subrange(0, all.len() as int) =~= all);
    while i < candidates.len()
        invariant
            i <= candidates@.len(),
            all == strings_view(candidates@),
            inst == strings_view(installed@),
            first_installed(all, inst) == first_installed(all.subrange(i as int, all.len() as int), inst),
        decreases candidates@.len() - i,
    {
        let ghost rest = all.subrange(i as int, all.len() as int);
        assert(rest[0] == candidates@[i as int]@);
        assert(rest.drop_first() =~= all.subrange(i + 1, all.len() as int));
        if is_installed(&candidates[i], installed) {
            return Some(candidates[i].clone());
        }
        i = i + 1;
    }
    assert(all.subrange(i as int, all.len() as int) =~= Seq::<Seq<char>>::empty());
    None
}

/// Turns a list of literal paths into owned strings.
pub fn owned_paths(paths: &Vec<&str>) -> (r: Vec<String>)
    ensures
        strings_view(r@) == strs_view(paths@),
{
    let mut r: Vec<String> = Vec::new();
    let mut i: usize = 0;
    while i < paths.len()
        invariant
            i <= paths@.len(),
            r@.len() == i,
            forall|j: int| 0 <= j < i ==> #[trigger] r@[j]@ == paths@[j]@,
        decreases paths@.len() - i,
    {
        r.push(String::from_str(paths[i]));
        i = i + 1;
    }
    assert(strings_view(r@) =~= strs_view(paths@));
    r
}


/// The application a process command is taken for on `platform`.
pub open spec fn app_name_spec_on(platform: Platform, comm: Seq<char>) -> Option<Seq<char>> {
    match platform {
        Platform::MacOs => crate::macos::app_name_spec(
            lowercase(comm),
            lowercase(after_last(comm, '/')),
        ),
        Platform::Windows => crate::windows::app_name_spec(comm),
        Platform::Linux => crate::linux::app_name_spec(comm),
    }
}

/// The applications the resolution rules know of, on any platform.
pub open spec fn known_app(name: Seq<char>) -> bool {
    ||| name == "Zed"@
    ||| name == "Visual Studio Code"@
    ||| name == "Cursor"@
    ||| name == "Windsurf"@
    ||| name == "Sublime Text"@
    ||| name == "Atom"@
    ||| name == "Terminal"@
    ||| name == "iTerm"@
    ||| name == "Alacritty"@
    ||| name == "kitty"@
    ||| name == "Warp"@
    ||| name == "Hyper"@
    ||| name == "WezTerm"@
    ||| name == "GNOME Terminal"@
    ||| name == "Konsole"@
    ||| name == "XTerm"@
    ||| name == "Windows Terminal"@
    ||| name == "PowerShell"@
    ||| name == "Command Prompt"@
}

/// Whatever a process is taken for is one of the known applications.
pub proof fn lemma_names_are_known(platform: Platform, comm: Seq<char>)
    ensures
        app_name_spec_on(platform, comm) matches Some(app) ==> known_app(app),
{
}

/// Each platform names a process by its own rules, so a walk on Linux
/// recognises the terminals only Linux has: a command whose last path
/// segment is `gnome-terminal-server` or `gnome-terminal` (in any case) is
/// GNOME Terminal, `konsole` is Konsole, `xterm` is XTerm, `wezterm` and
/// `wezterm-gui` are WezTerm.
pub proof fn lemma_platform_rules(comm: Seq<char>)
    ensures
        app_name_spec_on(Platform::Linux, comm) == crate::linux::app_name_spec(comm),
        app_name_spec_on(Platform::Windows, comm) == crate::windows::app_name_spec(comm),
        app_name_spec_on(Platform::MacOs, comm) == crate::macos::app_name_spec(
            lowercase(comm),
            lowercase(after_last(comm, '/')),
        ),
        lowercase(after_last(comm, '/')) == "gnome-terminal-server"@ ==> app_name_spec_on(
            Platform::Linux,
            comm,
        ) == Some("GNOME Terminal"@),
        lowercase(after_last(comm, '/')) == "gnome-terminal"@ ==> app_name_spec_on(
            Platform::Linux,
            comm,
        ) == Some("GNOME Terminal"@),
        lowercase(after_last(comm, '/')) == "konsole"@ ==> app_name_spec_on(Platform::Linux, comm)
            == Some("Konsole"@),
        lowercase(after_last(comm, '/')) == "xterm"@ ==> app_name_spec_on(Platform::Linux, comm)
            == Some("XTerm"@),
        lowercase(after_last(comm, '/')) == "wezterm"@ ==> app_name_spec_on(Platform::Linux, comm)
            == Some("WezTerm"@),
        lowercase(after_last(comm, '/')) == "wezterm-gui"@ ==> app_name_spec_on(
            Platform::Linux,
            comm,
        ) == Some("WezTerm"@),
{
    crate::linux::lemma_linux_names(comm);
}

/// Maps a process command to its application by the rules of `platform`.
pub fn app_name_on(platform: Platform, comm: &str) -> (r: Option<&'static str>)
    ensures
        opt_view(r) == app_name_spec_on(platform, comm@),
{
    match platform {
        Platform::MacOs => crate::macos::get_app_name(comm),
        Platform::Windows => crate::windows::get_app_name(comm),
        Platform::Linux => crate::linux::get_app_name(comm),
    }
}

/// How many processes a walk up the process tree visits at most.
pub const MAX_STEPS: u32 = 20;

/// What the caller of a process-tree walk does next.
#[derive(Clone, Copy, Debug, PartialEq, Eq)]
pub enum WalkAction {
    /// Report the command of this process (`ps -o comm= -p <pid>`).
    QueryName(u32),
    /// Report the parent of this process (`ps -o ppid= -p <pid>`).
    QueryParent(u32),
    /// The walk is over: this is the application.
    Found(&'static str),
}

/// A walk up the process tree, on a system with `ps`, looking for the first
/// process that belongs to a known application.
#[derive(Clone, Copy, Debug)]
pub struct ProcessWalk {
    pub platform: Platform,
    /// The process being looked at.
    pub pid: u32,
    /// How many processes have been left behind so far.
    pub steps: u32,
    /// Whether the parent of `pid` is being asked for (else its command).
    pub awaiting_parent: bool,
}

impl ProcessWalk {
    /// Fewer than `MAX_STEPS` processes have been left behind.
    pub open spec fn wf(self) -> bool {
        self.steps < MAX_STEPS
    }

    /// How many more reports the walk can take at most before it finishes.
    pub open spec fn remaining(self) -> int {
        2 * (MAX_STEPS - self.steps) - if self.awaiting_parent {
            1int
        } else {
            0int
        }
    }

    /// Starts a walk at `pid`: its command is asked for first.
    pub fn start(platform: Platform, pid: u32) -> (r: (ProcessWalk, WalkAction))
        ensures
            r.0.wf(),
            r.0 == (ProcessWalk { platform, pid, steps: 0, awaiting_parent: false }),
            r.1 == WalkAction::QueryName(pid),
    {
        (ProcessWalk { platform, pid, steps: 0, awaiting_parent: false }, WalkAction::QueryName(pid))
    }

    /// Takes the report that the last action asked for (the raw text `ps`
    /// printed) and says what to do next.
    ///
    /// After a command: the trimmed command names an application, and the
    /// walk ends with it, or the parent is asked for. After a parent: the
    /// trimmed text is read as a process id (1 when unreadable); at the root
    /// (an id of at most 1), or after `MAX_STEPS` processes, the walk ends
    /// with `Terminal`; otherwise it moves to the parent and asks for its
    /// command.
    pub fn advance(&mut self, output: &str) -> (r: WalkAction)
        requires
            old(self).wf(),
        ensures
            final(self).wf(),
            final(self).platform == old(self).platform,
            !(r is Found) ==> final(self).remaining() < old(self).remaining(),
            r matches WalkAction::Found(a) ==> known_app(a@),
            r is Found ==> *final(self) == *old(self),
            !old(self).awaiting_parent ==> match app_name_spec_on(old(self).platform, trim_spec(output@)) {
                Some(app) => r matches WalkAction::Found(a) && a@ == app && *final(self) == *old(self),
                None => r == WalkAction::QueryParent(old(self).pid) && *final(self) == (ProcessWalk {
                    awaiting_parent: true,
                    ..*old(self)
                }),
            },
            old(self).awaiting_parent ==> {
                let ppid = match parse_u32_spec(trim_spec(output@)) {
                    Some(v) => v,
                    None => 1,
                };
                if ppid <= 1 || old(self).steps + 1 >= MAX_STEPS {
                    r matches WalkAction::Found(a) && a@ == "Terminal"@
                } else {
                    r == WalkAction::QueryName(ppid) && *final(self) == (ProcessWalk {
                        platform: old(self).platform,
                        pid: ppid,
                        steps: (old(self).steps + 1) as u32,
                        awaiting_parent: false,
                    })
                }
            },
    {
        let text = trim(output);
        if !self.awaiting_parent {
            match app_name_on(self.platform, text) {
                Some(app) => WalkAction::Found(app),
                None => {
                    self.awaiting_parent = true;
                    WalkAction::QueryParent(self.pid)
                },
            }
        } else {
            let ppid = match parse_u32(text) {
                Some(v) => v,
                None => 1,
            };
            if ppid <= 1 || self.steps + 1 >= MAX_STEPS {
                WalkAction::Found("Terminal")
            } else {
                self.pid = ppid;
                self.steps = self.steps + 1;
                self.awaiting_parent = false;
                WalkAction::QueryName(ppid)
            }
        }
    }
}

} // verus!
