//! macOS: naming the application behind a process, finding its command-line
//! launcher, and the AppleScript that brings it to the front.
use vstd::prelude::*;
use crate::apps::{first_installed, first_installed_path, opt_string_view, opt_view, owned_paths, strings_view, strs_view};
use crate::text::{lemma_contains_within, same_text, after_last, contains, equals, lowercase, last_segment, seq_contains, to_chars, to_lowercase};

verus! {

/// The application named by an `.app` bundle in the lowercased command path.
pub open spec fn bundle_app(lower: Seq<char>) -> Option<Seq<char>> {
    if !seq_contains(lower, ".app/"@) && !seq_contains(lower, ".app"@) {
        None
    } else if seq_contains(lower, "zed.app"@) {
        Some("Zed"@)
    } else if seq_contains(lower, "visual studio code.app"@) || seq_contains(lower, "code.app"@) {
        Some("Visual Studio Code"@)
    } else if seq_contains(lower, "cursor.app"@) {
        Some("Cursor"@)
    } else if seq_contains(lower, "windsurf.app"@) {
        Some("Windsurf"@)
    } else if seq_contains(lower, "iterm.app"@) || seq_contains(lower, "iterm2.app"@) {
        Some("iTerm"@)
    } else if seq_contains(lower, "terminal.app"@) {
        Some("Terminal"@)
    } else if seq_contains(lower, "alacritty.app"@) {
        Some("Alacritty"@)
    } else if seq_contains(lower, "kitty.app"@) {
        Some("kitty"@)
    } else if seq_contains(lower, "warp.app"@) {
        Some("Warp"@)
    } else if seq_contains(lower, "hyper.app"@) {
        Some("Hyper"@)
    } else if seq_contains(lower, "sublime text.app"@) {
        Some("Sublime Text"@)
    } else {
        None
    }
}

/// The application named by a lowercased executable name.
pub open spec fn executable_app(base: Seq<char>) -> Option<Seq<char>> {
    if base == "terminal"@ {
        Some("Terminal"@)
    } else if base == "iterm2"@ || base == "iterm"@ {
        Some("iTerm"@)
    } else if base == "alacritty"@ {
        Some("Alacritty"@)
    } else if base == "kitty"@ {
        Some("kitty"@)
    } else if base == "warp"@ {
        Some("Warp"@)
    } else if base == "hyper"@ {
        Some("Hyper"@)
    } else if base == "zed"@ || base == "zed-editor"@ {
        Some("Zed"@)
    } else if base == "code"@ || base == "code helper"@ || base == "electron"@ {
        Some("Visual Studio Code"@)
    } else if base == "cursor"@ {
        Some("Cursor"@)
    } else if base == "windsurf"@ {
        Some("Windsurf"@)
    } else if base == "sublime_text"@ || base == "subl"@ {
        Some("Sublime Text"@)
    } else if base == "atom"@ {
        Some("Atom"@)
    } else {
        None
    }
}

/// The application for a command whose lowercased path is `comm_lower` and
/// whose lowercased last path segment is `base_lower`: a bundle in the path
/// wins, the executable's name decides otherwise.
pub open spec fn app_name_spec(comm_lower: Seq<char>, base_lower: Seq<char>) -> Option<Seq<char>> {
    match bundle_app(comm_lower) {
        Some(app) => Some(app),
        None => executable_app(base_lower),
    }
}

/// Names the application from the lowercased command path and the lowercased
/// last segment of that path.
pub fn app_name_from_lowercase(comm_lower: &str, base_lower: &str) -> (r: Option<&'static str>)
    ensures
        opt_view(r) == app_name_spec(comm_lower@, base_lower@),
{
    let lower = to_chars(comm_lower);
    if contains(&lower, ".app/") || contains(&lower, ".app") {
        if contains(&lower, "zed.app") {
            return Some("Zed");
        }
        if contains(&lower, "visual studio code.app") || contains(&lower, "code.app") {
            return Some("Visual Studio Code");
        }
        if contains(&lower, "cursor.app") {
            return Some("Cursor");
        }
        if contains(&lower, "windsurf.app") {
            return Some("Windsurf");
        }
        if contains(&lower, "iterm.app") || contains(&lower, "iterm2.app") {
            return Some("iTerm");
        }
        if contains(&lower, "terminal.app") {
            return Some("Terminal");
        }
        if contains(&lower, "alacritty.app") {
            return Some("Alacritty");
        }
        if contains(&lower, "kitty.app") {
            return Some("kitty");
        }
        if contains(&lower, "warp.app") {
            return Some("Warp");
        }
        if contains(&lower, "hyper.app") {
            return Some("Hyper");
        }
        if contains(&lower, "sublime text.app") {
            return Some("Sublime Text");
        }
    }
    executable_app_of(base_lower)
}

/// Names the application from a lowercased executable name.
pub fn executable_app_of(base_lower: &str) -> (r: Option<&'static str>)
    ensures
        opt_view(r) == executable_app(base_lower@),
{
    let b = to_chars(base_lower);
    if equals(&b, "terminal") {
        Some("Terminal")
    } else if equals(&b, "iterm2") || equals(&b, "iterm") {
        Some("iTerm")
    } else if equals(&b, "alacritty") {
        Some("Alacritty")
    } else if equals(&b, "kitty") {
        Some("kitty")
    } else if equals(&b, "warp") {
        Some("Warp")
    } else if equals(&b, "hyper") {
        Some("Hyper")
    } else if equals(&b, "zed") || equals(&b, "zed-editor") {
        Some("Zed")
    } else if equals(&b, "code") || equals(&b, "code helper") || equals(&b, "electron") {
        Some("Visual Studio Code")
    } else if equals(&b, "cursor") {
        Some("Cursor")
    } else if equals(&b, "windsurf") {
        Some("Windsurf")
    } else if equals(&b, "sublime_text") || equals(&b, "subl") {
        Some("Sublime Text")
    } else if equals(&b, "atom") {
        Some("Atom")
    } else {
        None
    }
}

/// Maps a process command (name or full path) to the application it belongs
/// to, the way macOS reports it with `ps -o comm=`.
pub fn get_app_name(comm: &str) -> (r: Option<&'static str>)
    ensures
        opt_view(r) == app_name_spec(lowercase(comm@), lowercase(after_last(comm@, '/'))),
{
    let comm_lower = to_lowercase(comm);
    let base_name = last_segment(comm, '/');
    let base_lower = to_lowercase(base_name);
    app_name_from_lowercase(comm_lower.as_str(), base_lower.as_str())
}


/// Where the command-line launcher of each application may be installed, in
/// the order they are tried.
pub open spec fn cli_candidates_spec(app_name: Seq<char>) -> Seq<Seq<char>> {
    if app_name == "Zed"@ {
        seq!["/Applications/Zed.app/Contents/MacOS/cli"@]
    } else if app_name == "Visual Studio Code"@ {
        seq![
            "/Applications/Visual Studio Code.app/Contents/Resources/app/bin/code"@,
            "/usr/local/bin/code"@,
        ]
    } else if app_name == "Cursor"@ {
        seq![
            "/Applications/Cursor.app/Contents/Resources/app/bin/cursor"@,
            "/Applications/Cursor.app/Contents/Resources/app/bin/code"@,
            "/usr/local/bin/cursor"@,
        ]
    } else if app_name == "Windsurf"@ {
        seq![
            "/Applications/Windsurf.app/Contents/Resources/app/bin/windsurf"@,
            "/Applications/Windsurf.app/Contents/Resources/app/bin/code"@,
        ]
    } else {
        Seq::empty()
    }
}

/// The launcher paths to try for `app_name`, in order.
pub fn cli_candidates(app_name: &str) -> (r: Vec<&'static str>)
    ensures
        strs_view(r@) == cli_candidates_spec(app_name@),
{
    let r: Vec<&'static str> = if same_text(app_name, "Zed") {
        vec!["/Applications/Zed.app/Contents/MacOS/cli"]
    } else if same_text(app_name, "Visual Studio Code") {
        vec![
            "/Applications/Visual Studio Code.app/Contents/Resources/app/bin/code",
            "/usr/local/bin/code",
        ]
    } else if same_text(app_name, "Cursor") {
        vec![
            "/Applications/Cursor.app/Contents/Resources/app/bin/cursor",
            "/Applications/Cursor.app/Contents/Resources/app/bin/code",
            "/usr/local/bin/cursor",
        ]
    } else if same_text(app_name, "Windsurf") {
        vec![
            "/Applications/Windsurf.app/Contents/Resources/app/bin/windsurf",
            "/Applications/Windsurf.app/Contents/Resources/app/bin/code",
        ]
    } else {
        Vec::new()
    };
    assert(strs_view(r@) =~= cli_candidates_spec(app_name@));
    r
}

/// The launcher to use for `app_name`: the first of its candidate paths that
/// is among `installed` (the candidates that exist on disk).
pub fn get_app_cli(app_name: &str, installed: &[String]) -> (r: Option<String>)
    ensures
        opt_string_view(r) == first_installed(cli_candidates_spec(app_name@), strings_view(installed@)),
{
    let candidates = owned_paths(&cli_candidates(app_name));
    first_installed_path(&candidates, installed)
}

/// The AppleScript that activates `app_name`.
pub open spec fn activation_script_spec(app_name: Seq<char>) -> Seq<char> {
    "tell application \""@ + app_name + "\" to activate"@
}

/// The activation script names the application in double quotes right
/// after `tell application ` and ends with ` to activate`.
pub proof fn lemma_activation_script_names_app(app_name: Seq<char>)
    ensures
        activation_script_spec(app_name) == "tell application \""@ + app_name + "\" to activate"@,
        activation_script_spec(app_name).subrange(18, 18 + app_name.len() as int) == app_name,
        activation_script_spec(app_name)[17] == '"',
        activation_script_spec(app_name)[18 + app_name.len() as int] == '"',
{
    reveal_strlit("tell application \"");
    reveal_strlit("\" to activate");
    assert("tell application \""@.len() == 18);
    assert("tell application \""@[17] == '"');
    assert("\" to activate"@[0] == '"');
    let sc = activation_script_spec(app_name);
    assert(sc.subrange(18, 18 + app_name.len() as int) =~= app_name);
}

/// Builds the AppleScript that brings `app_name` to the front.
pub fn activation_script(app_name: &str) -> (r: String)
    ensures
        r@ == activation_script_spec(app_name@),
{
    let mut r = String::from_str("tell application \"");
    r.append(app_name);
    r.append("\" to activate");
    r
}

/// The characters of the literals the macOS rules compare against.
proof fn lemma_macos_literals()
    ensures
        "zed.app"@.len() == 7,
        "zed.app"@[0] == 'z',
        "zed.app"@[1] == 'e',
        "zed.app"@[2] == 'd',
        "zed.app"@[3] == '.',
        "zed.app"@[4] == 'a',
        "zed.app"@[5] == 'p',
        "zed.app"@[6] == 'p',
        "visual studio code.app"@.len() == 22,
        "visual studio code.app"@[0] == 'v',
        "visual studio code.app"@[1] == 'i',
        "visual studio code.app"@[2] == 's',
        "visual studio code.app"@[3] == 'u',
        "visual studio code.app"@[4] == 'a',
        "visual studio code.app"@[5] == 'l',
        "visual studio code.app"@[6] == ' ',
        "visual studio code.app"@[7] == 's',
        "visual studio code.app"@[8] == 't',
        "visual studio code.app"@[9] == 'u',
        "visual studio code.app"@[10] == 'd',
        "visual studio code.app"@[11] == 'i',
        "visual studio code.app"@[12] == 'o',
        "visual studio code.app"@[13] == ' ',
        "visual studio code.app"@[14] == 'c',
        "visual studio code.app"@[15] == 'o',
        "visual studio code.app"@[16] == 'd',
        "visual studio code.app"@[17] == 'e',
        "visual studio code.app"@[18] == '.',
        "visual studio code.app"@[19] == 'a',
        "visual studio code.app"@[20] == 'p',
        "visual studio code.app"@[21] == 'p',
        "code.app"@.len() == 8,
        "code.app"@[0] == 'c',
        "code.app"@[1] == 'o',
        "code.app"@[2] == 'd',
        "code.app"@[3] == 'e',
        "code.app"@[4] == '.',
        "code.app"@[5] == 'a',
        "code.app"@[6] == 'p',
        "code.app"@[7] == 'p',
        "cursor.app"@.len() == 10,
        "cursor.app"@[0] == 'c',
        "cursor.app"@[1] == 'u',
        "cursor.app"@[2] == 'r',
        "cursor.app"@[3] == 's',
        "cursor.app"@[4] == 'o',
        "cursor.app"@[5] == 'r',
        "cursor.app"@[6] == '.',
        "cursor.app"@[7] == 'a',
        "cursor.app"@[8] == 'p',
        "cursor.app"@[9] == 'p',
        "windsurf.app"@.len() == 12,
        "windsurf.app"@[0] == 'w',
        "windsurf.app"@[1] == 'i',
        "windsurf.app"@[2] == 'n',
        "windsurf.app"@[3] == 'd',
        "windsurf.app"@[4] == 's',
        "windsurf.app"@[5] == 'u',
        "windsurf.app"@[6] == 'r',
        "windsurf.app"@[7] == 'f',
        "windsurf.app"@[8] == '.',
        "windsurf.app"@[9] == 'a',
        "windsurf.app"@[10] == 'p',
        "windsurf.app"@[11] == 'p',
        "iterm.app"@.len() == 9,
        "iterm.app"@[0] == 'i',
        "iterm.app"@[1] == 't',
        "iterm.app"@[2] == 'e',
        "iterm.app"@[3] == 'r',
        "iterm.app"@[4] == 'm',
        "iterm.app"@[5] == '.',
        "iterm.app"@[6] == 'a',
        "iterm.app"@[7] == 'p',
        "iterm.app"@[8] == 'p',
        "iterm2.app"@.len() == 10,
        "iterm2.app"@[0] == 'i',
        "iterm2.app"@[1] == 't',
        "iterm2.app"@[2] == 'e',
        "iterm2.app"@[3] == 'r',
        "iterm2.app"@[4] == 'm',
        "iterm2.app"@[5] == '2',
        "iterm2.app"@[6] == '.',
        "iterm2.app"@[7] == 'a',
        "iterm2.app"@[8] == 'p',
        "iterm2.app"@[9] == 'p',
        "terminal.app"@.len() == 12,
        "terminal.app"@[0] == 't',
        "terminal.app"@[1] == 'e',
        "terminal.app"@[2] == 'r',
        "terminal.app"@[3] == 'm',
        "terminal.app"@[4] == 'i',
        "terminal.app"@[5] == 'n',
        "terminal.app"@[6] == 'a',
        "terminal.app"@[7] == 'l',
        "terminal.app"@[8] == '.',
        "terminal.app"@[9] == 'a',
        "terminal.app"@[10] == 'p',
        "terminal.app"@[11] == 'p',
        "alacritty.app"@.len() == 13,
        "alacritty.app"@[0] == 'a',
        "alacritty.app"@[1] == 'l',
        "alacritty.app"@[2] == 'a',
        "alacritty.app"@[3] == 'c',
        "alacritty.app"@[4] == 'r',
        "alacritty.app"@[5] == 'i',
        "alacritty.app"@[6] == 't',
        "alacritty.app"@[7] == 't',
        "alacritty.app"@[8] == 'y',
        "alacritty.app"@[9] == '.',
        "alacritty.app"@[10] == 'a',
        "alacritty.app"@[11] == 'p',
        "alacritty.app"@[12] == 'p',
        "kitty.app"@.len() == 9,
        "kitty.app"@[0] == 'k',
        "kitty.app"@[1] == 'i',
        "kitty.app"@[2] == 't',
        "kitty.app"@[3] == 't',
        "kitty.app"@[4] == 'y',
        "kitty.app"@[5] == '.',
        "kitty.app"@[6] == 'a',
        "kitty.app"@[7] == 'p',
        "kitty.app"@[8] == 'p',
        "warp.app"@.len() == 8,
        "warp.app"@[0] == 'w',
        "warp.app"@[1] == 'a',
        "warp.app"@[2] == 'r',
        "warp.app"@[3] == 'p',
        "warp.app"@[4] == '.',
        "warp.app"@[5] == 'a',
        "warp.app"@[6] == 'p',
        "warp.app"@[7] == 'p',
        "hyper.app"@.len() == 9,
        "hyper.app"@[0] == 'h',
        "hyper.app"@[1] == 'y',
        "hyper.app"@[2] == 'p',
        "hyper.app"@[3] == 'e',
        "hyper.app"@[4] == 'r',
        "hyper.app"@[5] == '.',
        "hyper.app"@[6] == 'a',
        "hyper.app"@[7] == 'p',
        "hyper.app"@[8] == 'p',
        "sublime text.app"@.len() == 16,
        "sublime text.app"@[0] == 's',
        "sublime text.app"@[1] == 'u',
        "sublime text.app"@[2] == 'b',
        "sublime text.app"@[3] == 'l',
        "sublime text.app"@[4] == 'i',
        "sublime text.app"@[5] == 'm',
        "sublime text.app"@[6] == 'e',
        "sublime text.app"@[7] == ' ',
        "sublime text.app"@[8] == 't',
        "sublime text.app"@[9] == 'e',
        "sublime text.app"@[10] == 'x',
        "sublime text.app"@[11] == 't',
        "sublime text.app"@[12] == '.',
        "sublime text.app"@[13] == 'a',
        "sublime text.app"@[14] == 'p',
        "sublime text.app"@[15] == 'p',
        ".app"@.len() == 4,
        ".app"@[0] == '.',
        ".app"@[1] == 'a',
        ".app"@[2] == 'p',
        ".app"@[3] == 'p',
        "terminal"@.len() == 8,
        "terminal"@[0] == 't',
        "terminal"@[1] == 'e',
        "terminal"@[2] == 'r',
        "terminal"@[3] == 'm',
        "terminal"@[4] == 'i',
        "terminal"@[5] == 'n',
        "terminal"@[6] == 'a',
        "terminal"@[7] == 'l',
        "iterm2"@.len() == 6,
        "iterm2"@[0] == 'i',
        "iterm2"@[1] == 't',
        "iterm2"@[2] == 'e',
        "iterm2"@[3] == 'r',
        "iterm2"@[4] == 'm',
        "iterm2"@[5] == '2',
        "iterm"@.len() == 5,
        "iterm"@[0] == 'i',
        "iterm"@[1] == 't',
        "iterm"@[2] == 'e',
        "iterm"@[3] == 'r',
        "iterm"@[4] == 'm',
        "alacritty"@.len() == 9,
        "alacritty"@[0] == 'a',
        "alacritty"@[1] == 'l',
        "alacritty"@[2] == 'a',
        "alacritty"@[3] == 'c',
        "alacritty"@[4] == 'r',
        "alacritty"@[5] == 'i',
        "alacritty"@[6] == 't',
        "alacritty"@[7] == 't',
        "alacritty"@[8] == 'y',
        "kitty"@.len() == 5,
        "kitty"@[0] == 'k',
        "kitty"@[1] == 'i',
        "kitty"@[2] == 't',
        "kitty"@[3] == 't',
        "kitty"@[4] == 'y',
        "warp"@.len() == 4,
        "warp"@[0] == 'w',
        "warp"@[1] == 'a',
        "warp"@[2] == 'r',
        "warp"@[3] == 'p',
        "hyper"@.len() == 5,
        "hyper"@[0] == 'h',
        "hyper"@[1] == 'y',
        "hyper"@[2] == 'p',
        "hyper"@[3] == 'e',
        "hyper"@[4] == 'r',
        "zed"@.len() == 3,
        "zed"@[0] == 'z',
        "zed"@[1] == 'e',
        "zed"@[2] == 'd',
        "zed-editor"@.len() == 10,
        "zed-editor"@[0] == 'z',
        "zed-editor"@[1] == 'e',
        "zed-editor"@[2] == 'd',
        "zed-editor"@[3] == '-',
        "zed-editor"@[4] == 'e',
        "zed-editor"@[5] == 'd',
        "zed-editor"@[6] == 'i',
        "zed-editor"@[7] == 't',
        "zed-editor"@[8] == 'o',
        "zed-editor"@[9] == 'r',
        "code"@.len() == 4,
        "code"@[0] == 'c',
        "code"@[1] == 'o',
        "code"@[2] == 'd',
        "code"@[3] == 'e',
        "code helper"@.len() == 11,
        "code helper"@[0] == 'c',
        "code helper"@[1] == 'o',
        "code helper"@[2] == 'd',
        "code helper"@[3] == 'e',
        "code helper"@[4] == ' ',
        "code helper"@[5] == 'h',
        "code helper"@[6] == 'e',
        "code helper"@[7] == 'l',
        "code helper"@[8] == 'p',
        "code helper"@[9] == 'e',
        "code helper"@[10] == 'r',
        "electron"@.len() == 8,
        "electron"@[0] == 'e',
        "electron"@[1] == 'l',
        "electron"@[2] == 'e',
        "electron"@[3] == 'c',
        "electron"@[4] == 't',
        "electron"@[5] == 'r',
        "electron"@[6] == 'o',
        "electron"@[7] == 'n',
        "cursor"@.len() == 6,
        "cursor"@[0] == 'c',
        "cursor"@[1] == 'u',
        "cursor"@[2] == 'r',
        "cursor"@[3] == 's',
        "cursor"@[4] == 'o',
        "cursor"@[5] == 'r',
        "windsurf"@.len() == 8,
        "windsurf"@[0] == 'w',
        "windsurf"@[1] == 'i',
        "windsurf"@[2] == 'n',
        "windsurf"@[3] == 'd',
        "windsurf"@[4] == 's',
        "windsurf"@[5] == 'u',
        "windsurf"@[6] == 'r',
        "windsurf"@[7] == 'f',
        "sublime_text"@.len() == 12,
        "sublime_text"@[0] == 's',
        "sublime_text"@[1] == 'u',
        "sublime_text"@[2] == 'b',
        "sublime_text"@[3] == 'l',
        "sublime_text"@[4] == 'i',
        "sublime_text"@[5] == 'm',
        "sublime_text"@[6] == 'e',
        "sublime_text"@[7] == '_',
        "sublime_text"@[8] == 't',
        "sublime_text"@[9] == 'e',
        "sublime_text"@[10] == 'x',
        "sublime_text"@[11] == 't',
        "subl"@.len() == 4,
        "subl"@[0] == 's',
        "subl"@[1] == 'u',
        "subl"@[2] == 'b',
        "subl"@[3] == 'l',
        "atom"@.len() == 4,
        "atom"@[0] == 'a',
        "atom"@[1] == 't',
        "atom"@[2] == 'o',
        "atom"@[3] == 'm',
        "Zed"@.len() == 3,
        "Zed"@[0] == 'Z',
        "Zed"@[1] == 'e',
        "Zed"@[2] == 'd',
        "Visual Studio Code"@.len() == 18,
        "Visual Studio Code"@[0] == 'V',
        "Visual Studio Code"@[1] == 'i',
        "Visual Studio Code"@[2] == 's',
        "Visual Studio Code"@[3] == 'u',
        "Visual Studio Code"@[4] == 'a',
        "Visual Studio Code"@[5] == 'l',
        "Visual Studio Code"@[6] == ' ',
        "Visual Studio Code"@[7] == 'S',
        "Visual Studio Code"@[8] == 't',
        "Visual Studio Code"@[9] == 'u',
        "Visual Studio Code"@[10] == 'd',
        "Visual Studio Code"@[11] == 'i',
        "Visual Studio Code"@[12] == 'o',
        "Visual Studio Code"@[13] == ' ',
        "Visual Studio Code"@[14] == 'C',
        "Visual Studio Code"@[15] == 'o',
        "Visual Studio Code"@[16] == 'd',
        "Visual Studio Code"@[17] == 'e',
        "Cursor"@.len() == 6,
        "Cursor"@[0] == 'C',
        "Cursor"@[1] == 'u',
        "Cursor"@[2] == 'r',
        "Cursor"@[3] == 's',
        "Cursor"@[4] == 'o',
        "Cursor"@[5] == 'r',
        "Windsurf"@.len() == 8,
        "Windsurf"@[0] == 'W',
        "Windsurf"@[1] == 'i',
        "Windsurf"@[2] == 'n',
        "Windsurf"@[3] == 'd',
        "Windsurf"@[4] == 's',
        "Windsurf"@[5] == 'u',
        "Windsurf"@[6] == 'r',
        "Windsurf"@[7] == 'f',
        "/Applications/Zed.app/Contents/MacOS/cli"@.len() == 40,
        "/Applications/Zed.app/Contents/MacOS/cli"@[0] == '/',
        "/Applications/Zed.app/Contents/MacOS/cli"@[1] == 'A',
        "/Applications/Zed.app/Contents/MacOS/cli"@[2] == 'p',
        "/Applications/Zed.app/Contents/MacOS/cli"@[3] == 'p',
        "/Applications/Zed.app/Contents/MacOS/cli"@[4] == 'l',
        "/Applications/Zed.app/Contents/MacOS/cli"@[5] == 'i',
        "/Applications/Zed.app/Contents/MacOS/cli"@[6] == 'c',
        "/Applications/Zed.app/Contents/MacOS/cli"@[7] == 'a',
        "/Applications/Zed.app/Contents/MacOS/cli"@[8] == 't',
        "/Applications/Zed.app/Contents/MacOS/cli"@[9] == 'i',
        "/Applications/Zed.app/Contents/MacOS/cli"@[10] == 'o',
        "/Applications/Zed.app/Contents/MacOS/cli"@[11] == 'n',
        "/Applications/Zed.app/Contents/MacOS/cli"@[12] == 's',
        "/Applications/Zed.app/Contents/MacOS/cli"@[13] == '/',
        "/Applications/Zed.app/Contents/MacOS/cli"@[14] == 'Z',
        "/Applications/Zed.app/Contents/MacOS/cli"@[15] == 'e',
        "/Applications/Zed.app/Contents/MacOS/cli"@[16] == 'd',
        "/Applications/Zed.app/Contents/MacOS/cli"@[17] == '.',
        "/Applications/Zed.app/Contents/MacOS/cli"@[18] == 'a',
        "/Applications/Zed.app/Contents/MacOS/cli"@[19] == 'p',
        "/Applications/Zed.app/Contents/MacOS/cli"@[20] == 'p',
        "/Applications/Zed.app/Contents/MacOS/cli"@[21] == '/',
        "/Applications/Zed.app/Contents/MacOS/cli"@[22] == 'C',
        "/Applications/Zed.app/Contents/MacOS/cli"@[23] == 'o',
        "/Applications/Zed.app/Contents/MacOS/cli"@[24] == 'n',
        "/Applications/Zed.app/Contents/MacOS/cli"@[25] == 't',
        "/Applications/Zed.app/Contents/MacOS/cli"@[26] == 'e',
        "/Applications/Zed.app/Contents/MacOS/cli"@[27] == 'n',
        "/Applications/Zed.app/Contents/MacOS/cli"@[28] == 't',
        "/Applications/Zed.app/Contents/MacOS/cli"@[29] == 's',
        "/Applications/Zed.app/Contents/MacOS/cli"@[30] == '/',
        "/Applications/Zed.app/Contents/MacOS/cli"@[31] == 'M',
        "/Applications/Zed.app/Contents/MacOS/cli"@[32] == 'a',
        "/Applications/Zed.app/Contents/MacOS/cli"@[33] == 'c',
        "/Applications/Zed.app/Contents/MacOS/cli"@[34] == 'O',
        "/Applications/Zed.app/Contents/MacOS/cli"@[35] == 'S',
        "/Applications/Zed.app/Contents/MacOS/cli"@[36] == '/',
        "/Applications/Zed.app/Contents/MacOS/cli"@[37] == 'c',
        "/Applications/Zed.app/Contents/MacOS/cli"@[38] == 'l',
        "/Applications/Zed.app/Contents/MacOS/cli"@[39] == 'i',
        "/Applications/Visual Studio Code.app/Contents/Resources/app/bin/code"@.len() == 68,
        "/Applications/Visual Studio Code.app/Contents/Resources/app/bin/code"@[0] == '/',
        "/Applications/Visual Studio Code.app/Contents/Resources/app/bin/code"@[1] == 'A',
        "/Applications/Visual Studio Code.app/Contents/Resources/app/bin/code"@[2] == 'p',
        "/Applications/Visual Studio Code.app/Contents/Resources/app/bin/code"@[3] == 'p',
        "/Applications/Visual Studio Code.app/Contents/Resources/app/bin/code"@[4] == 'l',
        "/Applications/Visual Studio Code.app/Contents/Resources/app/bin/code"@[5] == 'i',
        "/Applications/Visual Studio Code.app/Contents/Resources/app/bin/code"@[6] == 'c',
        "/Applications/Visual Studio Code.app/Contents/Resources/app/bin/code"@[7] == 'a',
        "/Applications/Visual Studio Code.app/Contents/Resources/app/bin/code"@[8] == 't',
        "/Applications/Visual Studio Code.app/Contents/Resources/app/bin/code"@[9] == 'i',
        "/Applications/Visual Studio Code.app/Contents/Resources/app/bin/code"@[10] == 'o',
        "/Applications/Visual Studio Code.app/Contents/Resources/app/bin/code"@[11] == 'n',
        "/Applications/Visual Studio Code.app/Contents/Resources/app/bin/code"@[12] == 's',
        "/Applications/Visual Studio Code.app/Contents/Resources/app/bin/code"@[13] == '/',
        "/Applications/Visual Studio Code.app/Contents/Resources/app/bin/code"@[14] == 'V',
        "/Applications/Visual Studio Code.app/Contents/Resources/app/bin/code"@[15] == 'i',
        "/Applications/Visual Studio Code.app/Contents/Resources/app/bin/code"@[16] == 's',
        "/Applications/Visual Studio Code.app/Contents/Resources/app/bin/code"@[17] == 'u',
        "/Applications/Visual Studio Code.app/Contents/Resources/app/bin/code"@[18] == 'a',
        "/Applications/Visual Studio Code.app/Contents/Resources/app/bin/code"@[19] == 'l',
        "/Applications/Visual Studio Code.app/Contents/Resources/app/bin/code"@[20] == ' ',
        "/Applications/Visual Studio Code.app/Contents/Resources/app/bin/code"@[21] == 'S',
        "/Applications/Visual Studio Code.app/Contents/Resources/app/bin/code"@[22] == 't',
        "/Applications/Visual Studio Code.app/Contents/Resources/app/bin/code"@[23] == 'u',
        "/Applications/Visual Studio Code.app/Contents/Resources/app/bin/code"@[24] == 'd',
        "/Applications/Visual Studio Code.app/Contents/Resources/app/bin/code"@[25] == 'i',
        "/Applications/Visual Studio Code.app/Contents/Resources/app/bin/code"@[26] == 'o',
        "/Applications/Visual Studio Code.app/Contents/Resources/app/bin/code"@[27] == ' ',
        "/Applications/Visual Studio Code.app/Contents/Resources/app/bin/code"@[28] == 'C',
        "/Applications/Visual Studio Code.app/Contents/Resources/app/bin/code"@[29] == 'o',
        "/Applications/Visual Studio Code.app/Contents/Resources/app/bin/code"@[30] == 'd',
        "/Applications/Visual Studio Code.app/Contents/Resources/app/bin/code"@[31] == 'e',
        "/Applications/Visual Studio Code.app/Contents/Resources/app/bin/code"@[32] == '.',
        "/Applications/Visual Studio Code.app/Contents/Resources/app/bin/code"@[33] == 'a',
        "/Applications/Visual Studio Code.app/Contents/Resources/app/bin/code"@[34] == 'p',
        "/Applications/Visual Studio Code.app/Contents/Resources/app/bin/code"@[35] == 'p',
        "/Applications/Visual Studio Code.app/Contents/Resources/app/bin/code"@[36] == '/',
        "/Applications/Visual Studio Code.app/Contents/Resources/app/bin/code"@[37] == 'C',
        "/Applications/Visual Studio Code.app/Contents/Resources/app/bin/code"@[38] == 'o',
        "/Applications/Visual Studio Code.app/Contents/Resources/app/bin/code"@[39] == 'n',
        "/Applications/Visual Studio Code.app/Contents/Resources/app/bin/code"@[40] == 't',
        "/Applications/Visual Studio Code.app/Contents/Resources/app/bin/code"@[41] == 'e',
        "/Applications/Visual Studio Code.app/Contents/Resources/app/bin/code"@[42] == 'n',
        "/Applications/Visual Studio Code.app/Contents/Resources/app/bin/code"@[43] == 't',
        "/Applications/Visual Studio Code.app/Contents/Resources/app/bin/code"@[44] == 's',
        "/Applications/Visual Studio Code.app/Contents/Resources/app/bin/code"@[45] == '/',
        "/Applications/Visual Studio Code.app/Contents/Resources/app/bin/code"@[46] == 'R',
        "/Applications/Visual Studio Code.app/Contents/Resources/app/bin/code"@[47] == 'e',
        "/Applications/Visual Studio Code.app/Contents/Resources/app/bin/code"@[48] == 's',
        "/Applications/Visual Studio Code.app/Contents/Resources/app/bin/code"@[49] == 'o',
        "/Applications/Visual Studio Code.app/Contents/Resources/app/bin/code"@[50] == 'u',
        "/Applications/Visual Studio Code.app/Contents/Resources/app/bin/code"@[51] == 'r',
        "/Applications/Visual Studio Code.app/Contents/Resources/app/bin/code"@[52] == 'c',
        "/Applications/Visual Studio Code.app/Contents/Resources/app/bin/code"@[53] == 'e',
        "/Applications/Visual Studio Code.app/Contents/Resources/app/bin/code"@[54] == 's',
        "/Applications/Visual Studio Code.app/Contents/Resources/app/bin/code"@[55] == '/',
        "/Applications/Visual Studio Code.app/Contents/Resources/app/bin/code"@[56] == 'a',
        "/Applications/Visual Studio Code.app/Contents/Resources/app/bin/code"@[57] == 'p',
        "/Applications/Visual Studio Code.app/Contents/Resources/app/bin/code"@[58] == 'p',
        "/Applications/Visual Studio Code.app/Contents/Resources/app/bin/code"@[59] == '/',
        "/Applications/Visual Studio Code.app/Contents/Resources/app/bin/code"@[60] == 'b',
        "/Applications/Visual Studio Code.app/Contents/Resources/app/bin/code"@[61] == 'i',
        "/Applications/Visual Studio Code.app/Contents/Resources/app/bin/code"@[62] == 'n',
        "/Applications/Visual Studio Code.app/Contents/Resources/app/bin/code"@[63] == '/',
        "/Applications/Visual Studio Code.app/Contents/Resources/app/bin/code"@[64] == 'c',
        "/Applications/Visual Studio Code.app/Contents/Resources/app/bin/code"@[65] == 'o',
        "/Applications/Visual Studio Code.app/Contents/Resources/app/bin/code"@[66] == 'd',
        "/Applications/Visual Studio Code.app/Contents/Resources/app/bin/code"@[67] == 'e',
        "/usr/local/bin/code"@.len() == 19,
        "/usr/local/bin/code"@[0] == '/',
        "/usr/local/bin/code"@[1] == 'u',
        "/usr/local/bin/code"@[2] == 's',
        "/usr/local/bin/code"@[3] == 'r',
        "/usr/local/bin/code"@[4] == '/',
        "/usr/local/bin/code"@[5] == 'l',
        "/usr/local/bin/code"@[6] == 'o',
        "/usr/local/bin/code"@[7] == 'c',
        "/usr/local/bin/code"@[8] == 'a',
        "/usr/local/bin/code"@[9] == 'l',
        "/usr/local/bin/code"@[10] == '/',
        "/usr/local/bin/code"@[11] == 'b',
        "/usr/local/bin/code"@[12] == 'i',
        "/usr/local/bin/code"@[13] == 'n',
        "/usr/local/bin/code"@[14] == '/',
        "/usr/local/bin/code"@[15] == 'c',
        "/usr/local/bin/code"@[16] == 'o',
        "/usr/local/bin/code"@[17] == 'd',
        "/usr/local/bin/code"@[18] == 'e',
        "/Applications/Cursor.app/Contents/Resources/app/bin/cursor"@.len() == 58,
        "/Applications/Cursor.app/Contents/Resources/app/bin/cursor"@[0] == '/',
        "/Applications/Cursor.app/Contents/Resources/app/bin/cursor"@[1] == 'A',
        "/Applications/Cursor.app/Contents/Resources/app/bin/cursor"@[2] == 'p',
        "/Applications/Cursor.app/Contents/Resources/app/bin/cursor"@[3] == 'p',
        "/Applications/Cursor.app/Contents/Resources/app/bin/cursor"@[4] == 'l',
        "/Applications/Cursor.app/Contents/Resources/app/bin/cursor"@[5] == 'i',
        "/Applications/Cursor.app/Contents/Resources/app/bin/cursor"@[6] == 'c',
        "/Applications/Cursor.app/Contents/Resources/app/bin/cursor"@[7] == 'a',
        "/Applications/Cursor.app/Contents/Resources/app/bin/cursor"@[8] == 't',
        "/Applications/Cursor.app/Contents/Resources/app/bin/cursor"@[9] == 'i',
        "/Applications/Cursor.app/Contents/Resources/app/bin/cursor"@[10] == 'o',
        "/Applications/Cursor.app/Contents/Resources/app/bin/cursor"@[11] == 'n',
        "/Applications/Cursor.app/Contents/Resources/app/bin/cursor"@[12] == 's',
        "/Applications/Cursor.app/Contents/Resources/app/bin/cursor"@[13] == '/',
        "/Applications/Cursor.app/Contents/Resources/app/bin/cursor"@[14] == 'C',
        "/Applications/Cursor.app/Contents/Resources/app/bin/cursor"@[15] == 'u',
        "/Applications/Cursor.app/Contents/Resources/app/bin/cursor"@[16] == 'r',
        "/Applications/Cursor.app/Contents/Resources/app/bin/cursor"@[17] == 's',
        "/Applications/Cursor.app/Contents/Resources/app/bin/cursor"@[18] == 'o',
        "/Applications/Cursor.app/Contents/Resources/app/bin/cursor"@[19] == 'r',
        "/Applications/Cursor.app/Contents/Resources/app/bin/cursor"@[20] == '.',
        "/Applications/Cursor.app/Contents/Resources/app/bin/cursor"@[21] == 'a',
        "/Applications/Cursor.app/Contents/Resources/app/bin/cursor"@[22] == 'p',
        "/Applications/Cursor.app/Contents/Resources/app/bin/cursor"@[23] == 'p',
        "/Applications/Cursor.app/Contents/Resources/app/bin/cursor"@[24] == '/',
        "/Applications/Cursor.app/Contents/Resources/app/bin/cursor"@[25] == 'C',
        "/Applications/Cursor.app/Contents/Resources/app/bin/cursor"@[26] == 'o',
        "/Applications/Cursor.app/Contents/Resources/app/bin/cursor"@[27] == 'n',
        "/Applications/Cursor.app/Contents/Resources/app/bin/cursor"@[28] == 't',
        "/Applications/Cursor.app/Contents/Resources/app/bin/cursor"@[29] == 'e',
        "/Applications/Cursor.app/Contents/Resources/app/bin/cursor"@[30] == 'n',
        "/Applications/Cursor.app/Contents/Resources/app/bin/cursor"@[31] == 't',
        "/Applications/Cursor.app/Contents/Resources/app/bin/cursor"@[32] == 's',
        "/Applications/Cursor.app/Contents/Resources/app/bin/cursor"@[33] == '/',
        "/Applications/Cursor.app/Contents/Resources/app/bin/cursor"@[34] == 'R',
        "/Applications/Cursor.app/Contents/Resources/app/bin/cursor"@[35] == 'e',
        "/Applications/Cursor.app/Contents/Resources/app/bin/cursor"@[36] == 's',
        "/Applications/Cursor.app/Contents/Resources/app/bin/cursor"@[37] == 'o',
        "/Applications/Cursor.app/Contents/Resources/app/bin/cursor"@[38] == 'u',
        "/Applications/Cursor.app/Contents/Resources/app/bin/cursor"@[39] == 'r',
        "/Applications/Cursor.app/Contents/Resources/app/bin/cursor"@[40] == 'c',
        "/Applications/Cursor.app/Contents/Resources/app/bin/cursor"@[41] == 'e',
        "/Applications/Cursor.app/Contents/Resources/app/bin/cursor"@[42] == 's',
        "/Applications/Cursor.app/Contents/Resources/app/bin/cursor"@[43] == '/',
        "/Applications/Cursor.app/Contents/Resources/app/bin/cursor"@[44] == 'a',
        "/Applications/Cursor.app/Contents/Resources/app/bin/cursor"@[45] == 'p',
        "/Applications/Cursor.app/Contents/Resources/app/bin/cursor"@[46] == 'p',
        "/Applications/Cursor.app/Contents/Resources/app/bin/cursor"@[47] == '/',
        "/Applications/Cursor.app/Contents/Resources/app/bin/cursor"@[48] == 'b',
        "/Applications/Cursor.app/Contents/Resources/app/bin/cursor"@[49] == 'i',
        "/Applications/Cursor.app/Contents/Resources/app/bin/cursor"@[50] == 'n',
        "/Applications/Cursor.app/Contents/Resources/app/bin/cursor"@[51] == '/',
        "/Applications/Cursor.app/Contents/Resources/app/bin/cursor"@[52] == 'c',
        "/Applications/Cursor.app/Contents/Resources/app/bin/cursor"@[53] == 'u',
        "/Applications/Cursor.app/Contents/Resources/app/bin/cursor"@[54] == 'r',
        "/Applications/Cursor.app/Contents/Resources/app/bin/cursor"@[55] == 's',
        "/Applications/Cursor.app/Contents/Resources/app/bin/cursor"@[56] == 'o',
        "/Applications/Cursor.app/Contents/Resources/app/bin/cursor"@[57] == 'r',
        "/Applications/Cursor.app/Contents/Resources/app/bin/code"@.len() == 56,
        "/Applications/Cursor.app/Contents/Resources/app/bin/code"@[0] == '/',
        "/Applications/Cursor.app/Contents/Resources/app/bin/code"@[1] == 'A',
        "/Applications/Cursor.app/Contents/Resources/app/bin/code"@[2] == 'p',
        "/Applications/Cursor.app/Contents/Resources/app/bin/code"@[3] == 'p',
        "/Applications/Cursor.app/Contents/Resources/app/bin/code"@[4] == 'l',
        "/Applications/Cursor.app/Contents/Resources/app/bin/code"@[5] == 'i',
        "/Applications/Cursor.app/Contents/Resources/app/bin/code"@[6] == 'c',
        "/Applications/Cursor.app/Contents/Resources/app/bin/code"@[7] == 'a',
        "/Applications/Cursor.app/Contents/Resources/app/bin/code"@[8] == 't',
        "/Applications/Cursor.app/Contents/Resources/app/bin/code"@[9] == 'i',
        "/Applications/Cursor.app/Contents/Resources/app/bin/code"@[10] == 'o',
        "/Applications/Cursor.app/Contents/Resources/app/bin/code"@[11] == 'n',
        "/Applications/Cursor.app/Contents/Resources/app/bin/code"@[12] == 's',
        "/Applications/Cursor.app/Contents/Resources/app/bin/code"@[13] == '/',
        "/Applications/Cursor.app/Contents/Resources/app/bin/code"@[14] == 'C',
        "/Applications/Cursor.app/Contents/Resources/app/bin/code"@[15] == 'u',
        "/Applications/Cursor.app/Contents/Resources/app/bin/code"@[16] == 'r',
        "/Applications/Cursor.app/Contents/Resources/app/bin/code"@[17] == 's',
        "/Applications/Cursor.app/Contents/Resources/app/bin/code"@[18] == 'o',
        "/Applications/Cursor.app/Contents/Resources/app/bin/code"@[19] == 'r',
        "/Applications/Cursor.app/Contents/Resources/app/bin/code"@[20] == '.',
        "/Applications/Cursor.app/Contents/Resources/app/bin/code"@[21] == 'a',
        "/Applications/Cursor.app/Contents/Resources/app/bin/code"@[22] == 'p',
        "/Applications/Cursor.app/Contents/Resources/app/bin/code"@[23] == 'p',
        "/Applications/Cursor.app/Contents/Resources/app/bin/code"@[24] == '/',
        "/Applications/Cursor.app/Contents/Resources/app/bin/code"@[25] == 'C',
        "/Applications/Cursor.app/Contents/Resources/app/bin/code"@[26] == 'o',
        "/Applications/Cursor.app/Contents/Resources/app/bin/code"@[27] == 'n',
        "/Applications/Cursor.app/Contents/Resources/app/bin/code"@[28] == 't',
        "/Applications/Cursor.app/Contents/Resources/app/bin/code"@[29] == 'e',
        "/Applications/Cursor.app/Contents/Resources/app/bin/code"@[30] == 'n',
        "/Applications/Cursor.app/Contents/Resources/app/bin/code"@[31] == 't',
        "/Applications/Cursor.app/Contents/Resources/app/bin/code"@[32] == 's',
        "/Applications/Cursor.app/Contents/Resources/app/bin/code"@[33] == '/',
        "/Applications/Cursor.app/Contents/Resources/app/bin/code"@[34] == 'R',
        "/Applications/Cursor.app/Contents/Resources/app/bin/code"@[35] == 'e',
        "/Applications/Cursor.app/Contents/Resources/app/bin/code"@[36] == 's',
        "/Applications/Cursor.app/Contents/Resources/app/bin/code"@[37] == 'o',
        "/Applications/Cursor.app/Contents/Resources/app/bin/code"@[38] == 'u',
        "/Applications/Cursor.app/Contents/Resources/app/bin/code"@[39] == 'r',
        "/Applications/Cursor.app/Contents/Resources/app/bin/code"@[40] == 'c',
        "/Applications/Cursor.app/Contents/Resources/app/bin/code"@[41] == 'e',
        "/Applications/Cursor.app/Contents/Resources/app/bin/code"@[42] == 's',
        "/Applications/Cursor.app/Contents/Resources/app/bin/code"@[43] == '/',
        "/Applications/Cursor.app/Contents/Resources/app/bin/code"@[44] == 'a',
        "/Applications/Cursor.app/Contents/Resources/app/bin/code"@[45] == 'p',
        "/Applications/Cursor.app/Contents/Resources/app/bin/code"@[46] == 'p',
        "/Applications/Cursor.app/Contents/Resources/app/bin/code"@[47] == '/',
        "/Applications/Cursor.app/Contents/Resources/app/bin/code"@[48] == 'b',
        "/Applications/Cursor.app/Contents/Resources/app/bin/code"@[49] == 'i',
        "/Applications/Cursor.app/Contents/Resources/app/bin/code"@[50] == 'n',
        "/Applications/Cursor.app/Contents/Resources/app/bin/code"@[51] == '/',
        "/Applications/Cursor.app/Contents/Resources/app/bin/code"@[52] == 'c',
        "/Applications/Cursor.app/Contents/Resources/app/bin/code"@[53] == 'o',
        "/Applications/Cursor.app/Contents/Resources/app/bin/code"@[54] == 'd',
        "/Applications/Cursor.app/Contents/Resources/app/bin/code"@[55] == 'e',
        "/usr/local/bin/cursor"@.len() == 21,
        "/usr/local/bin/cursor"@[0] == '/',
        "/usr/local/bin/cursor"@[1] == 'u',
        "/usr/local/bin/cursor"@[2] == 's',
        "/usr/local/bin/cursor"@[3] == 'r',
        "/usr/local/bin/cursor"@[4] == '/',
        "/usr/local/bin/cursor"@[5] == 'l',
        "/usr/local/bin/cursor"@[6] == 'o',
        "/usr/local/bin/cursor"@[7] == 'c',
        "/usr/local/bin/cursor"@[8] == 'a',
        "/usr/local/bin/cursor"@[9] == 'l',
        "/usr/local/bin/cursor"@[10] == '/',
        "/usr/local/bin/cursor"@[11] == 'b',
        "/usr/local/bin/cursor"@[12] == 'i',
        "/usr/local/bin/cursor"@[13] == 'n',
        "/usr/local/bin/cursor"@[14] == '/',
        "/usr/local/bin/cursor"@[15] == 'c',
        "/usr/local/bin/cursor"@[16] == 'u',
        "/usr/local/bin/cursor"@[17] == 'r',
        "/usr/local/bin/cursor"@[18] == 's',
        "/usr/local/bin/cursor"@[19] == 'o',
        "/usr/local/bin/cursor"@[20] == 'r',
        "/Applications/Windsurf.app/Contents/Resources/app/bin/windsurf"@.len() == 62,
        "/Applications/Windsurf.app/Contents/Resources/app/bin/windsurf"@[0] == '/',
        "/Applications/Windsurf.app/Contents/Resources/app/bin/windsurf"@[1] == 'A',
        "/Applications/Windsurf.app/Contents/Resources/app/bin/windsurf"@[2] == 'p',
        "/Applications/Windsurf.app/Contents/Resources/app/bin/windsurf"@[3] == 'p',
        "/Applications/Windsurf.app/Contents/Resources/app/bin/windsurf"@[4] == 'l',
        "/Applications/Windsurf.app/Contents/Resources/app/bin/windsurf"@[5] == 'i',
        "/Applications/Windsurf.app/Contents/Resources/app/bin/windsurf"@[6] == 'c',
        "/Applications/Windsurf.app/Contents/Resources/app/bin/windsurf"@[7] == 'a',
        "/Applications/Windsurf.app/Contents/Resources/app/bin/windsurf"@[8] == 't',
        "/Applications/Windsurf.app/Contents/Resources/app/bin/windsurf"@[9] == 'i',
        "/Applications/Windsurf.app/Contents/Resources/app/bin/windsurf"@[10] == 'o',
        "/Applications/Windsurf.app/Contents/Resources/app/bin/windsurf"@[11] == 'n',
        "/Applications/Windsurf.app/Contents/Resources/app/bin/windsurf"@[12] == 's',
        "/Applications/Windsurf.app/Contents/Resources/app/bin/windsurf"@[13] == '/',
        "/Applications/Windsurf.app/Contents/Resources/app/bin/windsurf"@[14] == 'W',
        "/Applications/Windsurf.app/Contents/Resources/app/bin/windsurf"@[15] == 'i',
        "/Applications/Windsurf.app/Contents/Resources/app/bin/windsurf"@[16] == 'n',
        "/Applications/Windsurf.app/Contents/Resources/app/bin/windsurf"@[17] == 'd',
        "/Applications/Windsurf.app/Contents/Resources/app/bin/windsurf"@[18] == 's',
        "/Applications/Windsurf.app/Contents/Resources/app/bin/windsurf"@[19] == 'u',
        "/Applications/Windsurf.app/Contents/Resources/app/bin/windsurf"@[20] == 'r',
        "/Applications/Windsurf.app/Contents/Resources/app/bin/windsurf"@[21] == 'f',
        "/Applications/Windsurf.app/Contents/Resources/app/bin/windsurf"@[22] == '.',
        "/Applications/Windsurf.app/Contents/Resources/app/bin/windsurf"@[23] == 'a',
        "/Applications/Windsurf.app/Contents/Resources/app/bin/windsurf"@[24] == 'p',
        "/Applications/Windsurf.app/Contents/Resources/app/bin/windsurf"@[25] == 'p',
        "/Applications/Windsurf.app/Contents/Resources/app/bin/windsurf"@[26] == '/',
        "/Applications/Windsurf.app/Contents/Resources/app/bin/windsurf"@[27] == 'C',
        "/Applications/Windsurf.app/Contents/Resources/app/bin/windsurf"@[28] == 'o',
        "/Applications/Windsurf.app/Contents/Resources/app/bin/windsurf"@[29] == 'n',
        "/Applications/Windsurf.app/Contents/Resources/app/bin/windsurf"@[30] == 't',
        "/Applications/Windsurf.app/Contents/Resources/app/bin/windsurf"@[31] == 'e',
        "/Applications/Windsurf.app/Contents/Resources/app/bin/windsurf"@[32] == 'n',
        "/Applications/Windsurf.app/Contents/Resources/app/bin/windsurf"@[33] == 't',
        "/Applications/Windsurf.app/Contents/Resources/app/bin/windsurf"@[34] == 's',
        "/Applications/Windsurf.app/Contents/Resources/app/bin/windsurf"@[35] == '/',
        "/Applications/Windsurf.app/Contents/Resources/app/bin/windsurf"@[36] == 'R',
        "/Applications/Windsurf.app/Contents/Resources/app/bin/windsurf"@[37] == 'e',
        "/Applications/Windsurf.app/Contents/Resources/app/bin/windsurf"@[38] == 's',
        "/Applications/Windsurf.app/Contents/Resources/app/bin/windsurf"@[39] == 'o',
        "/Applications/Windsurf.app/Contents/Resources/app/bin/windsurf"@[40] == 'u',
        "/Applications/Windsurf.app/Contents/Resources/app/bin/windsurf"@[41] == 'r',
        "/Applications/Windsurf.app/Contents/Resources/app/bin/windsurf"@[42] == 'c',
        "/Applications/Windsurf.app/Contents/Resources/app/bin/windsurf"@[43] == 'e',
        "/Applications/Windsurf.app/Contents/Resources/app/bin/windsurf"@[44] == 's',
        "/Applications/Windsurf.app/Contents/Resources/app/bin/windsurf"@[45] == '/',
        "/Applications/Windsurf.app/Contents/Resources/app/bin/windsurf"@[46] == 'a',
        "/Applications/Windsurf.app/Contents/Resources/app/bin/windsurf"@[47] == 'p',
        "/Applications/Windsurf.app/Contents/Resources/app/bin/windsurf"@[48] == 'p',
        "/Applications/Windsurf.app/Contents/Resources/app/bin/windsurf"@[49] == '/',
        "/Applications/Windsurf.app/Contents/Resources/app/bin/windsurf"@[50] == 'b',
        "/Applications/Windsurf.app/Contents/Resources/app/bin/windsurf"@[51] == 'i',
        "/Applications/Windsurf.app/Contents/Resources/app/bin/windsurf"@[52] == 'n',
        "/Applications/Windsurf.app/Contents/Resources/app/bin/windsurf"@[53] == '/',
        "/Applications/Windsurf.app/Contents/Resources/app/bin/windsurf"@[54] == 'w',
        "/Applications/Windsurf.app/Contents/Resources/app/bin/windsurf"@[55] == 'i',
        "/Applications/Windsurf.app/Contents/Resources/app/bin/windsurf"@[56] == 'n',
        "/Applications/Windsurf.app/Contents/Resources/app/bin/windsurf"@[57] == 'd',
        "/Applications/Windsurf.app/Contents/Resources/app/bin/windsurf"@[58] == 's',
        "/Applications/Windsurf.app/Contents/Resources/app/bin/windsurf"@[59] == 'u',
        "/Applications/Windsurf.app/Contents/Resources/app/bin/windsurf"@[60] == 'r',
        "/Applications/Windsurf.app/Contents/Resources/app/bin/windsurf"@[61] == 'f',
        "/Applications/Windsurf.app/Contents/Resources/app/bin/code"@.len() == 58,
        "/Applications/Windsurf.app/Contents/Resources/app/bin/code"@[0] == '/',
        "/Applications/Windsurf.app/Contents/Resources/app/bin/code"@[1] == 'A',
        "/Applications/Windsurf.app/Contents/Resources/app/bin/code"@[2] == 'p',
        "/Applications/Windsurf.app/Contents/Resources/app/bin/code"@[3] == 'p',
        "/Applications/Windsurf.app/Contents/Resources/app/bin/code"@[4] == 'l',
        "/Applications/Windsurf.app/Contents/Resources/app/bin/code"@[5] == 'i',
        "/Applications/Windsurf.app/Contents/Resources/app/bin/code"@[6] == 'c',
        "/Applications/Windsurf.app/Contents/Resources/app/bin/code"@[7] == 'a',
        "/Applications/Windsurf.app/Contents/Resources/app/bin/code"@[8] == 't',
        "/Applications/Windsurf.app/Contents/Resources/app/bin/code"@[9] == 'i',
        "/Applications/Windsurf.app/Contents/Resources/app/bin/code"@[10] == 'o',
        "/Applications/Windsurf.app/Contents/Resources/app/bin/code"@[11] == 'n',
        "/Applications/Windsurf.app/Contents/Resources/app/bin/code"@[12] == 's',
        "/Applications/Windsurf.app/Contents/Resources/app/bin/code"@[13] == '/',
        "/Applications/Windsurf.app/Contents/Resources/app/bin/code"@[14] == 'W',
        "/Applications/Windsurf.app/Contents/Resources/app/bin/code"@[15] == 'i',
        "/Applications/Windsurf.app/Contents/Resources/app/bin/code"@[16] == 'n',
        "/Applications/Windsurf.app/Contents/Resources/app/bin/code"@[17] == 'd',
        "/Applications/Windsurf.app/Contents/Resources/app/bin/code"@[18] == 's',
        "/Applications/Windsurf.app/Contents/Resources/app/bin/code"@[19] == 'u',
        "/Applications/Windsurf.app/Contents/Resources/app/bin/code"@[20] == 'r',
        "/Applications/Windsurf.app/Contents/Resources/app/bin/code"@[21] == 'f',
        "/Applications/Windsurf.app/Contents/Resources/app/bin/code"@[22] == '.',
        "/Applications/Windsurf.app/Contents/Resources/app/bin/code"@[23] == 'a',
        "/Applications/Windsurf.app/Contents/Resources/app/bin/code"@[24] == 'p',
        "/Applications/Windsurf.app/Contents/Resources/app/bin/code"@[25] == 'p',
        "/Applications/Windsurf.app/Contents/Resources/app/bin/code"@[26] == '/',
        "/Applications/Windsurf.app/Contents/Resources/app/bin/code"@[27] == 'C',
        "/Applications/Windsurf.app/Contents/Resources/app/bin/code"@[28] == 'o',
        "/Applications/Windsurf.app/Contents/Resources/app/bin/code"@[29] == 'n',
        "/Applications/Windsurf.app/Contents/Resources/app/bin/code"@[30] == 't',
        "/Applications/Windsurf.app/Contents/Resources/app/bin/code"@[31] == 'e',
        "/Applications/Windsurf.app/Contents/Resources/app/bin/code"@[32] == 'n',
        "/Applications/Windsurf.app/Contents/Resources/app/bin/code"@[33] == 't',
        "/Applications/Windsurf.app/Contents/Resources/app/bin/code"@[34] == 's',
        "/Applications/Windsurf.app/Contents/Resources/app/bin/code"@[35] == '/',
        "/Applications/Windsurf.app/Contents/Resources/app/bin/code"@[36] == 'R',
        "/Applications/Windsurf.app/Contents/Resources/app/bin/code"@[37] == 'e',
        "/Applications/Windsurf.app/Contents/Resources/app/bin/code"@[38] == 's',
        "/Applications/Windsurf.app/Contents/Resources/app/bin/code"@[39] == 'o',
        "/Applications/Windsurf.app/Contents/Resources/app/bin/code"@[40] == 'u',
        "/Applications/Windsurf.app/Contents/Resources/app/bin/code"@[41] == 'r',
        "/Applications/Windsurf.app/Contents/Resources/app/bin/code"@[42] == 'c',
        "/Applications/Windsurf.app/Contents/Resources/app/bin/code"@[43] == 'e',
        "/Applications/Windsurf.app/Contents/Resources/app/bin/code"@[44] == 's',
        "/Applications/Windsurf.app/Contents/Resources/app/bin/code"@[45] == '/',
        "/Applications/Windsurf.app/Contents/Resources/app/bin/code"@[46] == 'a',
        "/Applications/Windsurf.app/Contents/Resources/app/bin/code"@[47] == 'p',
        "/Applications/Windsurf.app/Contents/Resources/app/bin/code"@[48] == 'p',
        "/Applications/Windsurf.app/Contents/Resources/app/bin/code"@[49] == '/',
        "/Applications/Windsurf.app/Contents/Resources/app/bin/code"@[50] == 'b',
        "/Applications/Windsurf.app/Contents/Resources/app/bin/code"@[51] == 'i',
        "/Applications/Windsurf.app/Contents/Resources/app/bin/code"@[52] == 'n',
        "/Applications/Windsurf.app/Contents/Resources/app/bin/code"@[53] == '/',
        "/Applications/Windsurf.app/Contents/Resources/app/bin/code"@[54] == 'c',
        "/Applications/Windsurf.app/Contents/Resources/app/bin/code"@[55] == 'o',
        "/Applications/Windsurf.app/Contents/Resources/app/bin/code"@[56] == 'd',
        "/Applications/Windsurf.app/Contents/Resources/app/bin/code"@[57] == 'e',
{
    reveal_strlit("zed.app");
    reveal_strlit("visual studio code.app");
    reveal_strlit("code.app");
    reveal_strlit("cursor.app");
    reveal_strlit("windsurf.app");
    reveal_strlit("iterm.app");
    reveal_strlit("iterm2.app");
    reveal_strlit("terminal.app");
    reveal_strlit("alacritty.app");
    reveal_strlit("kitty.app");
    reveal_strlit("warp.app");
    reveal_strlit("hyper.app");
    reveal_strlit("sublime text.app");
    reveal_strlit(".app");
    reveal_strlit("terminal");
    reveal_strlit("iterm2");
    reveal_strlit("iterm");
    reveal_strlit("alacritty");
    reveal_strlit("kitty");
    reveal_strlit("warp");
    reveal_strlit("hyper");
    reveal_strlit("zed");
    reveal_strlit("zed-editor");
    reveal_strlit("code");
    reveal_strlit("code helper");
    reveal_strlit("electron");
    reveal_strlit("cursor");
    reveal_strlit("windsurf");
    reveal_strlit("sublime_text");
    reveal_strlit("subl");
    reveal_strlit("atom");
    reveal_strlit("Zed");
    reveal_strlit("Visual Studio Code");
    reveal_strlit("Cursor");
    reveal_strlit("Windsurf");
    reveal_strlit("/Applications/Zed.app/Contents/MacOS/cli");
    reveal_strlit("/Applications/Visual Studio Code.app/Contents/Resources/app/bin/code");
    reveal_strlit("/usr/local/bin/code");
    reveal_strlit("/Applications/Cursor.app/Contents/Resources/app/bin/cursor");
    reveal_strlit("/Applications/Cursor.app/Contents/Resources/app/bin/code");
    reveal_strlit("/usr/local/bin/cursor");
    reveal_strlit("/Applications/Windsurf.app/Contents/Resources/app/bin/windsurf");
    reveal_strlit("/Applications/Windsurf.app/Contents/Resources/app/bin/code");
}

/// On macOS a process inside an application bundle is named after the
/// bundle (compared without regard to case), the bundles checked in a fixed
/// order: `zed.app`, then `code.app` (Visual Studio Code), `cursor.app`,
/// `windsurf.app`, `iterm.app`/`iterm2.app`, `terminal.app`, `alacritty.app`,
/// `kitty.app`, `warp.app`, `hyper.app`, `sublime text.app`. So a path with
/// `cursor.app` and neither `zed.app` nor `code.app` is Cursor.
pub proof fn lemma_macos_bundles(comm_lower: Seq<char>, base_lower: Seq<char>)
    ensures
        seq_contains(comm_lower, "zed.app"@) ==> app_name_spec(comm_lower, base_lower) == Some("Zed"@),
        (seq_contains(comm_lower, "visual studio code.app"@) || seq_contains(comm_lower, "code.app"@)) && !seq_contains(comm_lower, "zed.app"@) ==> app_name_spec(comm_lower, base_lower) == Some("Visual Studio Code"@),
        seq_contains(comm_lower, "cursor.app"@) && !seq_contains(comm_lower, "zed.app"@) && !seq_contains(comm_lower, "code.app"@) ==> app_name_spec(comm_lower, base_lower) == Some("Cursor"@),
        seq_contains(comm_lower, "windsurf.app"@) && !seq_contains(comm_lower, "zed.app"@) && !seq_contains(comm_lower, "code.app"@) && !seq_contains(comm_lower, "cursor.app"@) ==> app_name_spec(comm_lower, base_lower) == Some("Windsurf"@),
        (seq_contains(comm_lower, "iterm.app"@) || seq_contains(comm_lower, "iterm2.app"@)) && !seq_contains(comm_lower, "zed.app"@) && !seq_contains(comm_lower, "code.app"@) && !seq_contains(comm_lower, "cursor.app"@) && !seq_contains(comm_lower, "windsurf.app"@) ==> app_name_spec(comm_lower, base_lower) == Some("iTerm"@),
        seq_contains(comm_lower, "terminal.app"@) && !seq_contains(comm_lower, "zed.app"@) && !seq_contains(comm_lower, "code.app"@) && !seq_contains(comm_lower, "cursor.app"@) && !seq_contains(comm_lower, "windsurf.app"@) && !seq_contains(comm_lower, "iterm.app"@) && !seq_contains(comm_lower, "iterm2.app"@) ==> app_name_spec(comm_lower, base_lower) == Some("Terminal"@),
        seq_contains(comm_lower, "alacritty.app"@) && !seq_contains(comm_lower, "zed.app"@) && !seq_contains(comm_lower, "code.app"@) && !seq_contains(comm_lower, "cursor.app"@) && !seq_contains(comm_lower, "windsurf.app"@) && !seq_contains(comm_lower, "iterm.app"@) && !seq_contains(comm_lower, "iterm2.app"@) && !seq_contains(comm_lower, "terminal.app"@) ==> app_name_spec(comm_lower, base_lower) == Some("Alacritty"@),
        seq_contains(comm_lower, "kitty.app"@) && !seq_contains(comm_lower, "zed.app"@) && !seq_contains(comm_lower, "code.app"@) && !seq_contains(comm_lower, "cursor.app"@) && !seq_contains(comm_lower, "windsurf.app"@) && !seq_contains(comm_lower, "iterm.app"@) && !seq_contains(comm_lower, "iterm2.app"@) && !seq_contains(comm_lower, "terminal.app"@) && !seq_contains(comm_lower, "alacritty.app"@) ==> app_name_spec(comm_lower, base_lower) == Some("kitty"@),
        seq_contains(comm_lower, "warp.app"@) && !seq_contains(comm_lower, "zed.app"@) && !seq_contains(comm_lower, "code.app"@) && !seq_contains(comm_lower, "cursor.app"@) && !seq_contains(comm_lower, "windsurf.app"@) && !seq_contains(comm_lower, "iterm.app"@) && !seq_contains(comm_lower, "iterm2.app"@) && !seq_contains(comm_lower, "terminal.app"@) && !seq_contains(comm_lower, "alacritty.app"@) && !seq_contains(comm_lower, "kitty.app"@) ==> app_name_spec(comm_lower, base_lower) == Some("Warp"@),
        seq_contains(comm_lower, "hyper.app"@) && !seq_contains(comm_lower, "zed.app"@) && !seq_contains(comm_lower, "code.app"@) && !seq_contains(comm_lower, "cursor.app"@) && !seq_contains(comm_lower, "windsurf.app"@) && !seq_contains(comm_lower, "iterm.app"@) && !seq_contains(comm_lower, "iterm2.app"@) && !seq_contains(comm_lower, "terminal.app"@) && !seq_contains(comm_lower, "alacritty.app"@) && !seq_contains(comm_lower, "kitty.app"@) && !seq_contains(comm_lower, "warp.app"@) ==> app_name_spec(comm_lower, base_lower) == Some("Hyper"@),
        seq_contains(comm_lower, "sublime text.app"@) && !seq_contains(comm_lower, "zed.app"@) && !seq_contains(comm_lower, "code.app"@) && !seq_contains(comm_lower, "cursor.app"@) && !seq_contains(comm_lower, "windsurf.app"@) && !seq_contains(comm_lower, "iterm.app"@) && !seq_contains(comm_lower, "iterm2.app"@) && !seq_contains(comm_lower, "terminal.app"@) && !seq_contains(comm_lower, "alacritty.app"@) && !seq_contains(comm_lower, "kitty.app"@) && !seq_contains(comm_lower, "warp.app"@) && !seq_contains(comm_lower, "hyper.app"@) ==> app_name_spec(comm_lower, base_lower) == Some("Sublime Text"@),
{
    lemma_macos_literals();
    if seq_contains(comm_lower, "zed.app"@) {
        assert("zed.app"@.subrange(3, 7) =~= ".app"@);
        lemma_contains_within(comm_lower, "zed.app"@, ".app"@, 3);
    }
    if seq_contains(comm_lower, "visual studio code.app"@) {
        assert("visual studio code.app"@.subrange(18, 22) =~= ".app"@);
        lemma_contains_within(comm_lower, "visual studio code.app"@, ".app"@, 18);
    }
    if seq_contains(comm_lower, "code.app"@) {
        assert("code.app"@.subrange(4, 8) =~= ".app"@);
        lemma_contains_within(comm_lower, "code.app"@, ".app"@, 4);
    }
    if seq_contains(comm_lower, "cursor.app"@) {
        assert("cursor.app"@.subrange(6, 10) =~= ".app"@);
        lemma_contains_within(comm_lower, "cursor.app"@, ".app"@, 6);
    }
    if seq_contains(comm_lower, "windsurf.app"@) {
        assert("windsurf.app"@.subrange(8, 12) =~= ".app"@);
        lemma_contains_within(comm_lower, "windsurf.app"@, ".app"@, 8);
    }
    if seq_contains(comm_lower, "iterm.app"@) {
        assert("iterm.app"@.subrange(5, 9) =~= ".app"@);
        lemma_contains_within(comm_lower, "iterm.app"@, ".app"@, 5);
    }
    if seq_contains(comm_lower, "iterm2.app"@) {
        assert("iterm2.app"@.subrange(6, 10) =~= ".app"@);
        lemma_contains_within(comm_lower, "iterm2.app"@, ".app"@, 6);
    }
    if seq_contains(comm_lower, "terminal.app"@) {
        assert("terminal.app"@.subrange(8, 12) =~= ".app"@);
        lemma_contains_within(comm_lower, "terminal.app"@, ".app"@, 8);
    }
    if seq_contains(comm_lower, "alacritty.app"@) {
        assert("alacritty.app"@.subrange(9, 13) =~= ".app"@);
        lemma_contains_within(comm_lower, "alacritty.app"@, ".app"@, 9);
    }
    if seq_contains(comm_lower, "kitty.app"@) {
        assert("kitty.app"@.subrange(5, 9) =~= ".app"@);
        lemma_contains_within(comm_lower, "kitty.app"@, ".app"@, 5);
    }
    if seq_contains(comm_lower, "warp.app"@) {
        assert("warp.app"@.subrange(4, 8) =~= ".app"@);
        lemma_contains_within(comm_lower, "warp.app"@, ".app"@, 4);
    }
    if seq_contains(comm_lower, "hyper.app"@) {
        assert("hyper.app"@.subrange(5, 9) =~= ".app"@);
        lemma_contains_within(comm_lower, "hyper.app"@, ".app"@, 5);
    }
    if seq_contains(comm_lower, "sublime text.app"@) {
        assert("sublime text.app"@.subrange(12, 16) =~= ".app"@);
        lemma_contains_within(comm_lower, "sublime text.app"@, ".app"@, 12);
    }
    if seq_contains(comm_lower, "visual studio code.app"@) {
        assert("visual studio code.app"@.subrange(14, 22) =~= "code.app"@);
        lemma_contains_within(comm_lower, "visual studio code.app"@, "code.app"@, 14);
    }
}

/// On macOS a process outside any known bundle is named by its executable:
/// `terminal` is Terminal, `iterm2` iTerm, `code helper` Visual Studio Code,
/// `subl` Sublime Text, `atom` Atom, and so on; any other name is none.
pub proof fn lemma_macos_executables(comm_lower: Seq<char>, base_lower: Seq<char>)
    ensures
        !seq_contains(comm_lower, "zed.app"@) && !seq_contains(comm_lower, "code.app"@) && !seq_contains(comm_lower, "cursor.app"@) && !seq_contains(comm_lower, "windsurf.app"@) && !seq_contains(comm_lower, "iterm.app"@) && !seq_contains(comm_lower, "iterm2.app"@) && !seq_contains(comm_lower, "terminal.app"@) && !seq_contains(comm_lower, "alacritty.app"@) && !seq_contains(comm_lower, "kitty.app"@) && !seq_contains(comm_lower, "warp.app"@) && !seq_contains(comm_lower, "hyper.app"@) && !seq_contains(comm_lower, "sublime text.app"@) && base_lower == "terminal"@ ==> app_name_spec(comm_lower, base_lower) == Some("Terminal"@),
        !seq_contains(comm_lower, "zed.app"@) && !seq_contains(comm_lower, "code.app"@) && !seq_contains(comm_lower, "cursor.app"@) && !seq_contains(comm_lower, "windsurf.app"@) && !seq_contains(comm_lower, "iterm.app"@) && !seq_contains(comm_lower, "iterm2.app"@) && !seq_contains(comm_lower, "terminal.app"@) && !seq_contains(comm_lower, "alacritty.app"@) && !seq_contains(comm_lower, "kitty.app"@) && !seq_contains(comm_lower, "warp.app"@) && !seq_contains(comm_lower, "hyper.app"@) && !seq_contains(comm_lower, "sublime text.app"@) && base_lower == "iterm2"@ ==> app_name_spec(comm_lower, base_lower) == Some("iTerm"@),
        !seq_contains(comm_lower, "zed.app"@) && !seq_contains(comm_lower, "code.app"@) && !seq_contains(comm_lower, "cursor.app"@) && !seq_contains(comm_lower, "windsurf.app"@) && !seq_contains(comm_lower, "iterm.app"@) && !seq_contains(comm_lower, "iterm2.app"@) && !seq_contains(comm_lower, "terminal.app"@) && !seq_contains(comm_lower, "alacritty.app"@) && !seq_contains(comm_lower, "kitty.app"@) && !seq_contains(comm_lower, "warp.app"@) && !seq_contains(comm_lower, "hyper.app"@) && !seq_contains(comm_lower, "sublime text.app"@) && base_lower == "iterm"@ ==> app_name_spec(comm_lower, base_lower) == Some("iTerm"@),
        !seq_contains(comm_lower, "zed.app"@) && !seq_contains(comm_lower, "code.app"@) && !seq_contains(comm_lower, "cursor.app"@) && !seq_contains(comm_lower, "windsurf.app"@) && !seq_contains(comm_lower, "iterm.app"@) && !seq_contains(comm_lower, "iterm2.app"@) && !seq_contains(comm_lower, "terminal.app"@) && !seq_contains(comm_lower, "alacritty.app"@) && !seq_contains(comm_lower, "kitty.app"@) && !seq_contains(comm_lower, "warp.app"@) && !seq_contains(comm_lower, "hyper.app"@) && !seq_contains(comm_lower, "sublime text.app"@) && base_lower == "alacritty"@ ==> app_name_spec(comm_lower, base_lower) == Some("Alacritty"@),
        !seq_contains(comm_lower, "zed.app"@) && !seq_contains(comm_lower, "code.app"@) && !seq_contains(comm_lower, "cursor.app"@) && !seq_contains(comm_lower, "windsurf.app"@) && !seq_contains(comm_lower, "iterm.app"@) && !seq_contains(comm_lower, "iterm2.app"@) && !seq_contains(comm_lower, "terminal.app"@) && !seq_contains(comm_lower, "alacritty.app"@) && !seq_contains(comm_lower, "kitty.app"@) && !seq_contains(comm_lower, "warp.app"@) && !seq_contains(comm_lower, "hyper.app"@) && !seq_contains(comm_lower, "sublime text.app"@) && base_lower == "kitty"@ ==> app_name_spec(comm_lower, base_lower) == Some("kitty"@),
        !seq_contains(comm_lower, "zed.app"@) && !seq_contains(comm_lower, "code.app"@) && !seq_contains(comm_lower, "cursor.app"@) && !seq_contains(comm_lower, "windsurf.app"@) && !seq_contains(comm_lower, "iterm.app"@) && !seq_contains(comm_lower, "iterm2.app"@) && !seq_contains(comm_lower, "terminal.app"@) && !seq_contains(comm_lower, "alacritty.app"@) && !seq_contains(comm_lower, "kitty.app"@) && !seq_contains(comm_lower, "warp.app"@) && !seq_contains(comm_lower, "hyper.app"@) && !seq_contains(comm_lower, "sublime text.app"@) && base_lower == "warp"@ ==> app_name_spec(comm_lower, base_lower) == Some("Warp"@),
        !seq_contains(comm_lower, "zed.app"@) && !seq_contains(comm_lower, "code.app"@) && !seq_contains(comm_lower, "cursor.app"@) && !seq_contains(comm_lower, "windsurf.app"@) && !seq_contains(comm_lower, "iterm.app"@) && !seq_contains(comm_lower, "iterm2.app"@) && !seq_contains(comm_lower, "terminal.app"@) && !seq_contains(comm_lower, "alacritty.app"@) && !seq_contains(comm_lower, "kitty.app"@) && !seq_contains(comm_lower, "warp.app"@) && !seq_contains(comm_lower, "hyper.app"@) && !seq_contains(comm_lower, "sublime text.app"@) && base_lower == "hyper"@ ==> app_name_spec(comm_lower, base_lower) == Some("Hyper"@),
        !seq_contains(comm_lower, "zed.app"@) && !seq_contains(comm_lower, "code.app"@) && !seq_contains(comm_lower, "cursor.app"@) && !seq_contains(comm_lower, "windsurf.app"@) && !seq_contains(comm_lower, "iterm.app"@) && !seq_contains(comm_lower, "iterm2.app"@) && !seq_contains(comm_lower, "terminal.app"@) && !seq_contains(comm_lower, "alacritty.app"@) && !seq_contains(comm_lower, "kitty.app"@) && !seq_contains(comm_lower, "warp.app"@) && !seq_contains(comm_lower, "hyper.app"@) && !seq_contains(comm_lower, "sublime text.app"@) && base_lower == "zed"@ ==> app_name_spec(comm_lower, base_lower) == Some("Zed"@),
        !seq_contains(comm_lower, "zed.app"@) && !seq_contains(comm_lower, "code.app"@) && !seq_contains(comm_lower, "cursor.app"@) && !seq_contains(comm_lower, "windsurf.app"@) && !seq_contains(comm_lower, "iterm.app"@) && !seq_contains(comm_lower, "iterm2.app"@) && !seq_contains(comm_lower, "terminal.app"@) && !seq_contains(comm_lower, "alacritty.app"@) && !seq_contains(comm_lower, "kitty.app"@) && !seq_contains(comm_lower, "warp.app"@) && !seq_contains(comm_lower, "hyper.app"@) && !seq_contains(comm_lower, "sublime text.app"@) && base_lower == "zed-editor"@ ==> app_name_spec(comm_lower, base_lower) == Some("Zed"@),
        !seq_contains(comm_lower, "zed.app"@) && !seq_contains(comm_lower, "code.app"@) && !seq_contains(comm_lower, "cursor.app"@) && !seq_contains(comm_lower, "windsurf.app"@) && !seq_contains(comm_lower, "iterm.app"@) && !seq_contains(comm_lower, "iterm2.app"@) && !seq_contains(comm_lower, "terminal.app"@) && !seq_contains(comm_lower, "alacritty.app"@) && !seq_contains(comm_lower, "kitty.app"@) && !seq_contains(comm_lower, "warp.app"@) && !seq_contains(comm_lower, "hyper.app"@) && !seq_contains(comm_lower, "sublime text.app"@) && base_lower == "code"@ ==> app_name_spec(comm_lower, base_lower) == Some("Visual Studio Code"@),
        !seq_contains(comm_lower, "zed.app"@) && !seq_contains(comm_lower, "code.app"@) && !seq_contains(comm_lower, "cursor.app"@) && !seq_contains(comm_lower, "windsurf.app"@) && !seq_contains(comm_lower, "iterm.app"@) && !seq_contains(comm_lower, "iterm2.app"@) && !seq_contains(comm_lower, "terminal.app"@) && !seq_contains(comm_lower, "alacritty.app"@) && !seq_contains(comm_lower, "kitty.app"@) && !seq_contains(comm_lower, "warp.app"@) && !seq_contains(comm_lower, "hyper.app"@) && !seq_contains(comm_lower, "sublime text.app"@) && base_lower == "code helper"@ ==> app_name_spec(comm_lower, base_lower) == Some("Visual Studio Code"@),
        !seq_contains(comm_lower, "zed.app"@) && !seq_contains(comm_lower, "code.app"@) && !seq_contains(comm_lower, "cursor.app"@) && !seq_contains(comm_lower, "windsurf.app"@) && !seq_contains(comm_lower, "iterm.app"@) && !seq_contains(comm_lower, "iterm2.app"@) && !seq_contains(comm_lower, "terminal.app"@) && !seq_contains(comm_lower, "alacritty.app"@) && !seq_contains(comm_lower, "kitty.app"@) && !seq_contains(comm_lower, "warp.app"@) && !seq_contains(comm_lower, "hyper.app"@) && !seq_contains(comm_lower, "sublime text.app"@) && base_lower == "electron"@ ==> app_name_spec(comm_lower, base_lower) == Some("Visual Studio Code"@),
        !seq_contains(comm_lower, "zed.app"@) && !seq_contains(comm_lower, "code.app"@) && !seq_contains(comm_lower, "cursor.app"@) && !seq_contains(comm_lower, "windsurf.app"@) && !seq_contains(comm_lower, "iterm.app"@) && !seq_contains(comm_lower, "iterm2.app"@) && !seq_contains(comm_lower, "terminal.app"@) && !seq_contains(comm_lower, "alacritty.app"@) && !seq_contains(comm_lower, "kitty.app"@) && !seq_contains(comm_lower, "warp.app"@) && !seq_contains(comm_lower, "hyper.app"@) && !seq_contains(comm_lower, "sublime text.app"@) && base_lower == "cursor"@ ==> app_name_spec(comm_lower, base_lower) == Some("Cursor"@),
        !seq_contains(comm_lower, "zed.app"@) && !seq_contains(comm_lower, "code.app"@) && !seq_contains(comm_lower, "cursor.app"@) && !seq_contains(comm_lower, "windsurf.app"@) && !seq_contains(comm_lower, "iterm.app"@) && !seq_contains(comm_lower, "iterm2.app"@) && !seq_contains(comm_lower, "terminal.app"@) && !seq_contains(comm_lower, "alacritty.app"@) && !seq_contains(comm_lower, "kitty.app"@) && !seq_contains(comm_lower, "warp.app"@) && !seq_contains(comm_lower, "hyper.app"@) && !seq_contains(comm_lower, "sublime text.app"@) && base_lower == "windsurf"@ ==> app_name_spec(comm_lower, base_lower) == Some("Windsurf"@),
        !seq_contains(comm_lower, "zed.app"@) && !seq_contains(comm_lower, "code.app"@) && !seq_contains(comm_lower, "cursor.app"@) && !seq_contains(comm_lower, "windsurf.app"@) && !seq_contains(comm_lower, "iterm.app"@) && !seq_contains(comm_lower, "iterm2.app"@) && !seq_contains(comm_lower, "terminal.app"@) && !seq_contains(comm_lower, "alacritty.app"@) && !seq_contains(comm_lower, "kitty.app"@) && !seq_contains(comm_lower, "warp.app"@) && !seq_contains(comm_lower, "hyper.app"@) && !seq_contains(comm_lower, "sublime text.app"@) && base_lower == "sublime_text"@ ==> app_name_spec(comm_lower, base_lower) == Some("Sublime Text"@),
        !seq_contains(comm_lower, "zed.app"@) && !seq_contains(comm_lower, "code.app"@) && !seq_contains(comm_lower, "cursor.app"@) && !seq_contains(comm_lower, "windsurf.app"@) && !seq_contains(comm_lower, "iterm.app"@) && !seq_contains(comm_lower, "iterm2.app"@) && !seq_contains(comm_lower, "terminal.app"@) && !seq_contains(comm_lower, "alacritty.app"@) && !seq_contains(comm_lower, "kitty.app"@) && !seq_contains(comm_lower, "warp.app"@) && !seq_contains(comm_lower, "hyper.app"@) && !seq_contains(comm_lower, "sublime text.app"@) && base_lower == "subl"@ ==> app_name_spec(comm_lower, base_lower) == Some("Sublime Text"@),
        !seq_contains(comm_lower, "zed.app"@) && !seq_contains(comm_lower, "code.app"@) && !seq_contains(comm_lower, "cursor.app"@) && !seq_contains(comm_lower, "windsurf.app"@) && !seq_contains(comm_lower, "iterm.app"@) && !seq_contains(comm_lower, "iterm2.app"@) && !seq_contains(comm_lower, "terminal.app"@) && !seq_contains(comm_lower, "alacritty.app"@) && !seq_contains(comm_lower, "kitty.app"@) && !seq_contains(comm_lower, "warp.app"@) && !seq_contains(comm_lower, "hyper.app"@) && !seq_contains(comm_lower, "sublime text.app"@) && base_lower == "atom"@ ==> app_name_spec(comm_lower, base_lower) == Some("Atom"@),
        !seq_contains(comm_lower, "zed.app"@) && !seq_contains(comm_lower, "code.app"@) && !seq_contains(comm_lower, "cursor.app"@) && !seq_contains(comm_lower, "windsurf.app"@) && !seq_contains(comm_lower, "iterm.app"@) && !seq_contains(comm_lower, "iterm2.app"@) && !seq_contains(comm_lower, "terminal.app"@) && !seq_contains(comm_lower, "alacritty.app"@) && !seq_contains(comm_lower, "kitty.app"@) && !seq_contains(comm_lower, "warp.app"@) && !seq_contains(comm_lower, "hyper.app"@) && !seq_contains(comm_lower, "sublime text.app"@) && base_lower != "terminal"@ && base_lower != "iterm2"@ && base_lower != "iterm"@ && base_lower != "alacritty"@ && base_lower != "kitty"@ && base_lower != "warp"@ && base_lower != "hyper"@ && base_lower != "zed"@ && base_lower != "zed-editor"@ && base_lower != "code"@ && base_lower != "code helper"@ && base_lower != "electron"@ && base_lower != "cursor"@ && base_lower != "windsurf"@ && base_lower != "sublime_text"@ && base_lower != "subl"@ && base_lower != "atom"@ ==> app_name_spec(comm_lower, base_lower) is None,
{
    lemma_macos_literals();
    if seq_contains(comm_lower, "visual studio code.app"@) {
        assert("visual studio code.app"@.subrange(14, 22) =~= "code.app"@);
        lemma_contains_within(comm_lower, "visual studio code.app"@, "code.app"@, 14);
    }
    if seq_contains(comm_lower, ".app/"@) {
        reveal_strlit(".app/");
        assert(".app/"@.subrange(0, 4) =~= ".app"@);
        lemma_contains_within(comm_lower, ".app/"@, ".app"@, 0);
    }
}

/// The macOS launchers of each editor, in the order they are tried; no
/// other application has one.
pub proof fn lemma_macos_launchers(app_name: Seq<char>)
    ensures
        cli_candidates_spec("Zed"@) == seq!["/Applications/Zed.app/Contents/MacOS/cli"@],
        cli_candidates_spec("Visual Studio Code"@) == seq!["/Applications/Visual Studio Code.app/Contents/Resources/app/bin/code"@, "/usr/local/bin/code"@],
        cli_candidates_spec("Cursor"@) == seq!["/Applications/Cursor.app/Contents/Resources/app/bin/cursor"@, "/Applications/Cursor.app/Contents/Resources/app/bin/code"@, "/usr/local/bin/cursor"@],
        cli_candidates_spec("Windsurf"@) == seq!["/Applications/Windsurf.app/Contents/Resources/app/bin/windsurf"@, "/Applications/Windsurf.app/Contents/Resources/app/bin/code"@],
        app_name != "Zed"@ && app_name != "Visual Studio Code"@ && app_name != "Cursor"@ && app_name != "Windsurf"@ ==> cli_candidates_spec(app_name).len() == 0,
{
    lemma_macos_literals();
}


} // verus!
