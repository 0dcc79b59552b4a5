//! Linux: naming the application behind a process and finding its
//! command-line launcher.
use vstd::prelude::*;
use crate::apps::{first_installed, first_installed_path, opt_string_view, opt_view, owned_paths, strings_view, strs_view};
use crate::text::{after_last, lemma_after_last_at, equals, lemma_after_last_append, lemma_after_last_without_sep, lowercase, last_segment, same_text, to_chars, to_lowercase};

verus! {

/// The application named by a lowercased executable name.
pub open spec fn executable_app(base: Seq<char>) -> Option<Seq<char>> {
    if base == "alacritty"@ {
        Some("Alacritty"@)
    } else if base == "kitty"@ {
        Some("kitty"@)
    } else if base == "hyper"@ {
        Some("Hyper"@)
    } else if base == "wezterm"@ || base == "wezterm-gui"@ {
        Some("WezTerm"@)
    } else if base == "gnome-terminal-server"@ || base == "gnome-terminal"@ {
        Some("GNOME Terminal"@)
    } else if base == "konsole"@ {
        Some("Konsole"@)
    } else if base == "xterm"@ {
        Some("XTerm"@)
    } else if base == "code"@ {
        Some("Visual Studio Code"@)
    } else if base == "cursor"@ {
        Some("Cursor"@)
    } else if base == "windsurf"@ {
        Some("Windsurf"@)
    } else if base == "zed"@ || base == "zed-editor"@ {
        Some("Zed"@)
    } else if base == "sublime_text"@ || base == "subl"@ {
        Some("Sublime Text"@)
    } else {
        None
    }
}

/// The application for a process command: decided by the lowercased last
/// path segment alone.
pub open spec fn app_name_spec(comm: Seq<char>) -> Option<Seq<char>> {
    executable_app(lowercase(after_last(comm, '/')))
}

/// Names the application from a lowercased executable name.
pub fn executable_app_of(base_lower: &str) -> (r: Option<&'static str>)
    ensures
        opt_view(r) == executable_app(base_lower@),
{
    let b = to_chars(base_lower);
    if equals(&b, "alacritty") {
        Some("Alacritty")
    } else if equals(&b, "kitty") {
        Some("kitty")
    } else if equals(&b, "hyper") {
        Some("Hyper")
    } else if equals(&b, "wezterm") || equals(&b, "wezterm-gui") {
        Some("WezTerm")
    } else if equals(&b, "gnome-terminal-server") || equals(&b, "gnome-terminal") {
        Some("GNOME Terminal")
    } else if equals(&b, "konsole") {
        Some("Konsole")
    } else if equals(&b, "xterm") {
        Some("XTerm")
    } else if equals(&b, "code") {
        Some("Visual Studio Code")
    } else if equals(&b, "cursor") {
        Some("Cursor")
    } else if equals(&b, "windsurf") {
        Some("Windsurf")
    } else if equals(&b, "zed") || equals(&b, "zed-editor") {
        Some("Zed")
    } else if equals(&b, "sublime_text") || equals(&b, "subl") {
        Some("Sublime Text")
    } else {
        None
    }
}

/// Maps a process command (name or full path) to the application it belongs
/// to.
pub fn get_app_name(comm: &str) -> (r: Option<&'static str>)
    ensures
        opt_view(r) == app_name_spec(comm@),
{
    let base_name = last_segment(comm, '/');
    let base_lower = to_lowercase(base_name);
    executable_app_of(base_lower.as_str())
}

/// The directory a command runs from does not change the application it is
/// taken for: `dir/name` is named as `name` is.
pub proof fn lemma_directory_is_ignored(dir: Seq<char>, name: Seq<char>)
    requires
        !name.contains('/'),
    ensures
        app_name_spec(dir.push('/') + name) == app_name_spec(name),
{
    lemma_after_last_append(dir, '/', name);
    lemma_after_last_without_sep(name, '/');
}

/// Where the command-line launcher of each application may be installed, in
/// the order they are tried.
pub open spec fn cli_candidates_spec(app_name: Seq<char>) -> Seq<Seq<char>> {
    if app_name == "Visual Studio Code"@ {
        seq!["/usr/bin/code"@, "/usr/local/bin/code"@, "/snap/bin/code"@]
    } else if app_name == "Cursor"@ {
        seq!["/usr/bin/cursor"@, "/usr/local/bin/cursor"@]
    } else if app_name == "Zed"@ {
        seq!["/usr/bin/zed"@, "/usr/local/bin/zed"@]
    } else {
        Seq::empty()
    }
}

/// The launcher paths to try for `app_name`, in order.
pub fn cli_candidates(app_name: &str) -> (r: Vec<&'static str>)
    ensures
        strs_view(r@) == cli_candidates_spec(app_name@),
{
    let r: Vec<&'static str> = if same_text(app_name, "Visual Studio Code") {
        vec!["/usr/bin/code", "/usr/local/bin/code", "/snap/bin/code"]
    } else if same_text(app_name, "Cursor") {
        vec!["/usr/bin/cursor", "/usr/local/bin/cursor"]
    } else if same_text(app_name, "Zed") {
        vec!["/usr/bin/zed", "/usr/local/bin/zed"]
    } else {
        Vec::new()
    };
    assert(strs_view(r@) =~= cli_candidates_spec(app_name@));
    r
}

/// The launcher to use for `app_name`: the first of its candidate paths that
/// is among `installed` (the candidates that exist on disk).
pub fn get_app_cli(app_name: &str, installed: &[String]) -> (r: Option<String>)
    ensures
        opt_string_view(r) == first_installed(cli_candidates_spec(app_name@), strings_view(installed@)),
{
    let candidates = owned_paths(&cli_candidates(app_name));
    first_installed_path(&candidates, installed)
}

/// The characters of the literals the Linux rules compare against.
proof fn lemma_linux_literals()
    ensures
        "alacritty"@.len() == 9,
        "alacritty"@[0] == 'a',
        "alacritty"@[1] == 'l',
        "alacritty"@[2] == 'a',
        "alacritty"@[3] == 'c',
        "alacritty"@[4] == 'r',
        "alacritty"@[5] == 'i',
        "alacritty"@[6] == 't',
        "alacritty"@[7] == 't',
        "alacritty"@[8] == 'y',
        "kitty"@.len() == 5,
        "kitty"@[0] == 'k',
        "kitty"@[1] == 'i',
        "kitty"@[2] == 't',
        "kitty"@[3] == 't',
        "kitty"@[4] == 'y',
        "hyper"@.len() == 5,
        "hyper"@[0] == 'h',
        "hyper"@[1] == 'y',
        "hyper"@[2] == 'p',
        "hyper"@[3] == 'e',
        "hyper"@[4] == 'r',
        "wezterm"@.len() == 7,
        "wezterm"@[0] == 'w',
        "wezterm"@[1] == 'e',
        "wezterm"@[2] == 'z',
        "wezterm"@[3] == 't',
        "wezterm"@[4] == 'e',
        "wezterm"@[5] == 'r',
        "wezterm"@[6] == 'm',
        "wezterm-gui"@.len() == 11,
        "wezterm-gui"@[0] == 'w',
        "wezterm-gui"@[1] == 'e',
        "wezterm-gui"@[2] == 'z',
        "wezterm-gui"@[3] == 't',
        "wezterm-gui"@[4] == 'e',
        "wezterm-gui"@[5] == 'r',
        "wezterm-gui"@[6] == 'm',
        "wezterm-gui"@[7] == '-',
        "wezterm-gui"@[8] == 'g',
        "wezterm-gui"@[9] == 'u',
        "wezterm-gui"@[10] == 'i',
        "gnome-terminal-server"@.len() == 21,
        "gnome-terminal-server"@[0] == 'g',
        "gnome-terminal-server"@[1] == 'n',
        "gnome-terminal-server"@[2] == 'o',
        "gnome-terminal-server"@[3] == 'm',
        "gnome-terminal-server"@[4] == 'e',
        "gnome-terminal-server"@[5] == '-',
        "gnome-terminal-server"@[6] == 't',
        "gnome-terminal-server"@[7] == 'e',
        "gnome-terminal-server"@[8] == 'r',
        "gnome-terminal-server"@[9] == 'm',
        "gnome-terminal-server"@[10] == 'i',
        "gnome-terminal-server"@[11] == 'n',
        "gnome-terminal-server"@[12] == 'a',
        "gnome-terminal-server"@[13] == 'l',
        "gnome-terminal-server"@[14] == '-',
        "gnome-terminal-server"@[15] == 's',
        "gnome-terminal-server"@[16] == 'e',
        "gnome-terminal-server"@[17] == 'r',
        "gnome-terminal-server"@[18] == 'v',
        "gnome-terminal-server"@[19] == 'e',
        "gnome-terminal-server"@[20] == 'r',
        "gnome-terminal"@.len() == 14,
        "gnome-terminal"@[0] == 'g',
        "gnome-terminal"@[1] == 'n',
        "gnome-terminal"@[2] == 'o',
        "gnome-terminal"@[3] == 'm',
        "gnome-terminal"@[4] == 'e',
        "gnome-terminal"@[5] == '-',
        "gnome-terminal"@[6] == 't',
        "gnome-terminal"@[7] == 'e',
        "gnome-terminal"@[8] == 'r',
        "gnome-terminal"@[9] == 'm',
        "gnome-terminal"@[10] == 'i',
        "gnome-terminal"@[11] == 'n',
        "gnome-terminal"@[12] == 'a',
        "gnome-terminal"@[13] == 'l',
        "konsole"@.len() == 7,
        "konsole"@[0] == 'k',
        "konsole"@[1] == 'o',
        "konsole"@[2] == 'n',
        "konsole"@[3] == 's',
        "konsole"@[4] == 'o',
        "konsole"@[5] == 'l',
        "konsole"@[6] == 'e',
        "xterm"@.len() == 5,
        "xterm"@[0] == 'x',
        "xterm"@[1] == 't',
        "xterm"@[2] == 'e',
        "xterm"@[3] == 'r',
        "xterm"@[4] == 'm',
        "code"@.len() == 4,
        "code"@[0] == 'c',
        "code"@[1] == 'o',
        "code"@[2] == 'd',
        "code"@[3] == 'e',
        "cursor"@.len() == 6,
        "cursor"@[0] == 'c',
        "cursor"@[1] == 'u',
        "cursor"@[2] == 'r',
        "cursor"@[3] == 's',
        "cursor"@[4] == 'o',
        "cursor"@[5] == 'r',
        "windsurf"@.len() == 8,
        "windsurf"@[0] == 'w',
        "windsurf"@[1] == 'i',
        "windsurf"@[2] == 'n',
        "windsurf"@[3] == 'd',
        "windsurf"@[4] == 's',
        "windsurf"@[5] == 'u',
        "windsurf"@[6] == 'r',
        "windsurf"@[7] == 'f',
        "zed"@.len() == 3,
        "zed"@[0] == 'z',
        "zed"@[1] == 'e',
        "zed"@[2] == 'd',
        "zed-editor"@.len() == 10,
        "zed-editor"@[0] == 'z',
        "zed-editor"@[1] == 'e',
        "zed-editor"@[2] == 'd',
        "zed-editor"@[3] == '-',
        "zed-editor"@[4] == 'e',
        "zed-editor"@[5] == 'd',
        "zed-editor"@[6] == 'i',
        "zed-editor"@[7] == 't',
        "zed-editor"@[8] == 'o',
        "zed-editor"@[9] == 'r',
        "sublime_text"@.len() == 12,
        "sublime_text"@[0] == 's',
        "sublime_text"@[1] == 'u',
        "sublime_text"@[2] == 'b',
        "sublime_text"@[3] == 'l',
        "sublime_text"@[4] == 'i',
        "sublime_text"@[5] == 'm',
        "sublime_text"@[6] == 'e',
        "sublime_text"@[7] == '_',
        "sublime_text"@[8] == 't',
        "sublime_text"@[9] == 'e',
        "sublime_text"@[10] == 'x',
        "sublime_text"@[11] == 't',
        "subl"@.len() == 4,
        "subl"@[0] == 's',
        "subl"@[1] == 'u',
        "subl"@[2] == 'b',
        "subl"@[3] == 'l',
        "Visual Studio Code"@.len() == 18,
        "Visual Studio Code"@[0] == 'V',
        "Visual Studio Code"@[1] == 'i',
        "Visual Studio Code"@[2] == 's',
        "Visual Studio Code"@[3] == 'u',
        "Visual Studio Code"@[4] == 'a',
        "Visual Studio Code"@[5] == 'l',
        "Visual Studio Code"@[6] == ' ',
        "Visual Studio Code"@[7] == 'S',
        "Visual Studio Code"@[8] == 't',
        "Visual Studio Code"@[9] == 'u',
        "Visual Studio Code"@[10] == 'd',
        "Visual Studio Code"@[11] == 'i',
        "Visual Studio Code"@[12] == 'o',
        "Visual Studio Code"@[13] == ' ',
        "Visual Studio Code"@[14] == 'C',
        "Visual Studio Code"@[15] == 'o',
        "Visual Studio Code"@[16] == 'd',
        "Visual Studio Code"@[17] == 'e',
        "Cursor"@.len() == 6,
        "Cursor"@[0] == 'C',
        "Cursor"@[1] == 'u',
        "Cursor"@[2] == 'r',
        "Cursor"@[3] == 's',
        "Cursor"@[4] == 'o',
        "Cursor"@[5] == 'r',
        "Zed"@.len() == 3,
        "Zed"@[0] == 'Z',
        "Zed"@[1] == 'e',
        "Zed"@[2] == 'd',
        "/usr/bin/code"@.len() == 13,
        "/usr/bin/code"@[0] == '/',
        "/usr/bin/code"@[1] == 'u',
        "/usr/bin/code"@[2] == 's',
        "/usr/bin/code"@[3] == 'r',
        "/usr/bin/code"@[4] == '/',
        "/usr/bin/code"@[5] == 'b',
        "/usr/bin/code"@[6] == 'i',
        "/usr/bin/code"@[7] == 'n',
        "/usr/bin/code"@[8] == '/',
        "/usr/bin/code"@[9] == 'c',
        "/usr/bin/code"@[10] == 'o',
        "/usr/bin/code"@[11] == 'd',
        "/usr/bin/code"@[12] == 'e',
        "/usr/local/bin/code"@.len() == 19,
        "/usr/local/bin/code"@[0] == '/',
        "/usr/local/bin/code"@[1] == 'u',
        "/usr/local/bin/code"@[2] == 's',
        "/usr/local/bin/code"@[3] == 'r',
        "/usr/local/bin/code"@[4] == '/',
        "/usr/local/bin/code"@[5] == 'l',
        "/usr/local/bin/code"@[6] == 'o',
        "/usr/local/bin/code"@[7] == 'c',
        "/usr/local/bin/code"@[8] == 'a',
        "/usr/local/bin/code"@[9] == 'l',
        "/usr/local/bin/code"@[10] == '/',
        "/usr/local/bin/code"@[11] == 'b',
        "/usr/local/bin/code"@[12] == 'i',
        "/usr/local/bin/code"@[13] == 'n',
        "/usr/local/bin/code"@[14] == '/',
        "/usr/local/bin/code"@[15] == 'c',
        "/usr/local/bin/code"@[16] == 'o',
        "/usr/local/bin/code"@[17] == 'd',
        "/usr/local/bin/code"@[18] == 'e',
        "/snap/bin/code"@.len() == 14,
        "/snap/bin/code"@[0] == '/',
        "/snap/bin/code"@[1] == 's',
        "/snap/bin/code"@[2] == 'n',
        "/snap/bin/code"@[3] == 'a',
        "/snap/bin/code"@[4] == 'p',
        "/snap/bin/code"@[5] == '/',
        "/snap/bin/code"@[6] == 'b',
        "/snap/bin/code"@[7] == 'i',
        "/snap/bin/code"@[8] == 'n',
        "/snap/bin/code"@[9] == '/',
        "/snap/bin/code"@[10] == 'c',
        "/snap/bin/code"@[11] == 'o',
        "/snap/bin/code"@[12] == 'd',
        "/snap/bin/code"@[13] == 'e',
        "/usr/bin/cursor"@.len() == 15,
        "/usr/bin/cursor"@[0] == '/',
        "/usr/bin/cursor"@[1] == 'u',
        "/usr/bin/cursor"@[2] == 's',
        "/usr/bin/cursor"@[3] == 'r',
        "/usr/bin/cursor"@[4] == '/',
        "/usr/bin/cursor"@[5] == 'b',
        "/usr/bin/cursor"@[6] == 'i',
        "/usr/bin/cursor"@[7] == 'n',
        "/usr/bin/cursor"@[8] == '/',
        "/usr/bin/cursor"@[9] == 'c',
        "/usr/bin/cursor"@[10] == 'u',
        "/usr/bin/cursor"@[11] == 'r',
        "/usr/bin/cursor"@[12] == 's',
        "/usr/bin/cursor"@[13] == 'o',
        "/usr/bin/cursor"@[14] == 'r',
        "/usr/local/bin/cursor"@.len() == 21,
        "/usr/local/bin/cursor"@[0] == '/',
        "/usr/local/bin/cursor"@[1] == 'u',
        "/usr/local/bin/cursor"@[2] == 's',
        "/usr/local/bin/cursor"@[3] == 'r',
        "/usr/local/bin/cursor"@[4] == '/',
        "/usr/local/bin/cursor"@[5] == 'l',
        "/usr/local/bin/cursor"@[6] == 'o',
        "/usr/local/bin/cursor"@[7] == 'c',
        "/usr/local/bin/cursor"@[8] == 'a',
        "/usr/local/bin/cursor"@[9] == 'l',
        "/usr/local/bin/cursor"@[10] == '/',
        "/usr/local/bin/cursor"@[11] == 'b',
        "/usr/local/bin/cursor"@[12] == 'i',
        "/usr/local/bin/cursor"@[13] == 'n',
        "/usr/local/bin/cursor"@[14] == '/',
        "/usr/local/bin/cursor"@[15] == 'c',
        "/usr/local/bin/cursor"@[16] == 'u',
        "/usr/local/bin/cursor"@[17] == 'r',
        "/usr/local/bin/cursor"@[18] == 's',
        "/usr/local/bin/cursor"@[19] == 'o',
        "/usr/local/bin/cursor"@[20] == 'r',
        "/usr/bin/zed"@.len() == 12,
        "/usr/bin/zed"@[0] == '/',
        "/usr/bin/zed"@[1] == 'u',
        "/usr/bin/zed"@[2] == 's',
        "/usr/bin/zed"@[3] == 'r',
        "/usr/bin/zed"@[4] == '/',
        "/usr/bin/zed"@[5] == 'b',
        "/usr/bin/zed"@[6] == 'i',
        "/usr/bin/zed"@[7] == 'n',
        "/usr/bin/zed"@[8] == '/',
        "/usr/bin/zed"@[9] == 'z',
        "/usr/bin/zed"@[10] == 'e',
        "/usr/bin/zed"@[11] == 'd',
        "/usr/local/bin/zed"@.len() == 18,
        "/usr/local/bin/zed"@[0] == '/',
        "/usr/local/bin/zed"@[1] == 'u',
        "/usr/local/bin/zed"@[2] == 's',
        "/usr/local/bin/zed"@[3] == 'r',
        "/usr/local/bin/zed"@[4] == '/',
        "/usr/local/bin/zed"@[5] == 'l',
        "/usr/local/bin/zed"@[6] == 'o',
        "/usr/local/bin/zed"@[7] == 'c',
        "/usr/local/bin/zed"@[8] == 'a',
        "/usr/local/bin/zed"@[9] == 'l',
        "/usr/local/bin/zed"@[10] == '/',
        "/usr/local/bin/zed"@[11] == 'b',
        "/usr/local/bin/zed"@[12] == 'i',
        "/usr/local/bin/zed"@[13] == 'n',
        "/usr/local/bin/zed"@[14] == '/',
        "/usr/local/bin/zed"@[15] == 'z',
        "/usr/local/bin/zed"@[16] == 'e',
        "/usr/local/bin/zed"@[17] == 'd',
{
    reveal_strlit("alacritty");
    reveal_strlit("kitty");
    reveal_strlit("hyper");
    reveal_strlit("wezterm");
    reveal_strlit("wezterm-gui");
    reveal_strlit("gnome-terminal-server");
    reveal_strlit("gnome-terminal");
    reveal_strlit("konsole");
    reveal_strlit("xterm");
    reveal_strlit("code");
    reveal_strlit("cursor");
    reveal_strlit("windsurf");
    reveal_strlit("zed");
    reveal_strlit("zed-editor");
    reveal_strlit("sublime_text");
    reveal_strlit("subl");
    reveal_strlit("Visual Studio Code");
    reveal_strlit("Cursor");
    reveal_strlit("Zed");
    reveal_strlit("/usr/bin/code");
    reveal_strlit("/usr/local/bin/code");
    reveal_strlit("/snap/bin/code");
    reveal_strlit("/usr/bin/cursor");
    reveal_strlit("/usr/local/bin/cursor");
    reveal_strlit("/usr/bin/zed");
    reveal_strlit("/usr/local/bin/zed");
}

/// On Linux a command is taken for the application whose executable its last
/// path segment names, compared without regard to case: `konsole` for
/// Konsole, `gnome-terminal-server` for GNOME Terminal, `/usr/bin/code` for
/// Visual Studio Code, and so on; any other name is no known application.
pub proof fn lemma_linux_names(comm: Seq<char>)
    ensures
        lowercase(after_last(comm, '/')) == "alacritty"@ ==> app_name_spec(comm) == Some("Alacritty"@),
        lowercase(after_last(comm, '/')) == "kitty"@ ==> app_name_spec(comm) == Some("kitty"@),
        lowercase(after_last(comm, '/')) == "hyper"@ ==> app_name_spec(comm) == Some("Hyper"@),
        lowercase(after_last(comm, '/')) == "wezterm"@ ==> app_name_spec(comm) == Some("WezTerm"@),
        lowercase(after_last(comm, '/')) == "wezterm-gui"@ ==> app_name_spec(comm) == Some("WezTerm"@),
        lowercase(after_last(comm, '/')) == "gnome-terminal-server"@ ==> app_name_spec(comm) == Some("GNOME Terminal"@),
        lowercase(after_last(comm, '/')) == "gnome-terminal"@ ==> app_name_spec(comm) == Some("GNOME Terminal"@),
        lowercase(after_last(comm, '/')) == "konsole"@ ==> app_name_spec(comm) == Some("Konsole"@),
        lowercase(after_last(comm, '/')) == "xterm"@ ==> app_name_spec(comm) == Some("XTerm"@),
        lowercase(after_last(comm, '/')) == "code"@ ==> app_name_spec(comm) == Some("Visual Studio Code"@),
        lowercase(after_last(comm, '/')) == "cursor"@ ==> app_name_spec(comm) == Some("Cursor"@),
        lowercase(after_last(comm, '/')) == "windsurf"@ ==> app_name_spec(comm) == Some("Windsurf"@),
        lowercase(after_last(comm, '/')) == "zed"@ ==> app_name_spec(comm) == Some("Zed"@),
        lowercase(after_last(comm, '/')) == "zed-editor"@ ==> app_name_spec(comm) == Some("Zed"@),
        lowercase(after_last(comm, '/')) == "sublime_text"@ ==> app_name_spec(comm) == Some("Sublime Text"@),
        lowercase(after_last(comm, '/')) == "subl"@ ==> app_name_spec(comm) == Some("Sublime Text"@),
        lowercase(after_last(comm, '/')) != "alacritty"@ && lowercase(after_last(comm, '/')) != "kitty"@ && lowercase(after_last(comm, '/')) != "hyper"@ && lowercase(after_last(comm, '/')) != "wezterm"@ && lowercase(after_last(comm, '/')) != "wezterm-gui"@ && lowercase(after_last(comm, '/')) != "gnome-terminal-server"@ && lowercase(after_last(comm, '/')) != "gnome-terminal"@ && lowercase(after_last(comm, '/')) != "konsole"@ && lowercase(after_last(comm, '/')) != "xterm"@ && lowercase(after_last(comm, '/')) != "code"@ && lowercase(after_last(comm, '/')) != "cursor"@ && lowercase(after_last(comm, '/')) != "windsurf"@ && lowercase(after_last(comm, '/')) != "zed"@ && lowercase(after_last(comm, '/')) != "zed-editor"@ && lowercase(after_last(comm, '/')) != "sublime_text"@ && lowercase(after_last(comm, '/')) != "subl"@ ==> app_name_spec(comm) is None,
{
    lemma_linux_literals();
}

/// The Linux launchers of each editor, in the order they are tried: Visual
/// Studio Code in `/usr/bin`, `/usr/local/bin`, `/snap/bin`; Cursor and Zed
/// in `/usr/bin`, then `/usr/local/bin`. No other application has one.
pub proof fn lemma_linux_launchers(app_name: Seq<char>)
    ensures
        cli_candidates_spec("Visual Studio Code"@) == seq!["/usr/bin/code"@, "/usr/local/bin/code"@, "/snap/bin/code"@],
        cli_candidates_spec("Cursor"@) == seq!["/usr/bin/cursor"@, "/usr/local/bin/cursor"@],
        cli_candidates_spec("Zed"@) == seq!["/usr/bin/zed"@, "/usr/local/bin/zed"@],
        app_name != "Visual Studio Code"@ && app_name != "Cursor"@ && app_name != "Zed"@
            ==> cli_candidates_spec(app_name).len() == 0,
{
    lemma_linux_literals();
}

/// Every Linux launcher of an application is an executable that the Linux
/// rules name after that same application.
pub proof fn lemma_linux_launchers_name_their_app(app_name: Seq<char>, i: int)
    requires
        0 <= i < cli_candidates_spec(app_name).len(),
    ensures
        executable_app(after_last(cli_candidates_spec(app_name)[i], '/')) == Some(app_name),
{
    lemma_linux_literals();
    reveal_strlit("code");
    reveal_strlit("cursor");
    reveal_strlit("zed");
        lemma_after_last_at("/usr/bin/code"@, '/', 8);
        assert("/usr/bin/code"@.subrange(9, 13) =~= "code"@);
        lemma_after_last_at("/usr/local/bin/code"@, '/', 14);
        assert("/usr/local/bin/code"@.subrange(15, 19) =~= "code"@);
        lemma_after_last_at("/snap/bin/code"@, '/', 9);
        assert("/snap/bin/code"@.subrange(10, 14) =~= "code"@);
        lemma_after_last_at("/usr/bin/cursor"@, '/', 8);
        assert("/usr/bin/cursor"@.subrange(9, 15) =~= "cursor"@);
        lemma_after_last_at("/usr/local/bin/cursor"@, '/', 14);
        assert("/usr/local/bin/cursor"@.subrange(15, 21) =~= "cursor"@);
        lemma_after_last_at("/usr/bin/zed"@, '/', 8);
        assert("/usr/bin/zed"@.subrange(9, 12) =~= "zed"@);
        lemma_after_last_at("/usr/local/bin/zed"@, '/', 14);
        assert("/usr/local/bin/zed"@.subrange(15, 18) =~= "zed"@);
}


} // verus!
