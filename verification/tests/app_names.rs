use c9watch::apps::{app_name_on, Platform};
use c9watch::{linux, macos, windows};

#[test]
fn test_get_app_name_known_apps() {
    // Windows rules
    assert_eq!(windows::get_app_name("Code.exe"), Some("Visual Studio Code"));
    assert_eq!(windows::get_app_name("WindowsTerminal.exe"), Some("Windows Terminal"));
    assert_eq!(windows::get_app_name("pwsh.exe"), Some("PowerShell"));
    assert_eq!(windows::get_app_name("cmd.exe"), Some("Command Prompt"));
    assert_eq!(windows::get_app_name("Cursor.exe"), Some("Cursor"));

    // macOS rules
    assert_eq!(macos::get_app_name("code"), Some("Visual Studio Code"));
    assert_eq!(macos::get_app_name("terminal"), Some("Terminal"));
    assert_eq!(macos::get_app_name("zed"), Some("Zed"));
}

#[test]
fn test_get_app_name_unknown() {
    assert_eq!(macos::get_app_name("unknown_process"), None);
    assert_eq!(windows::get_app_name("unknown_process"), None);
    assert_eq!(linux::get_app_name("unknown_process"), None);
}

#[test]
fn macos_bundle_path_names_the_bundle() {
    assert_eq!(macos::get_app_name("/Applications/Zed.app/Contents/MacOS/zed"), Some("Zed"));
    assert_eq!(
        macos::get_app_name("/Applications/iTerm.app/Contents/MacOS/iTerm2"),
        Some("iTerm")
    );
    assert_eq!(
        macos::get_app_name("/Applications/Visual Studio Code.app/Contents/MacOS/Electron"),
        Some("Visual Studio Code")
    );
    assert_eq!(
        macos::get_app_name("/Applications/Sublime Text.app/Contents/MacOS/sublime_text"),
        Some("Sublime Text")
    );
}

#[test]
fn macos_unknown_bundle_falls_back_to_executable() {
    // A bundle nobody knows: the executable name decides.
    assert_eq!(macos::get_app_name("/Applications/Other.app/Contents/MacOS/Alacritty"), Some("Alacritty"));
    assert_eq!(macos::get_app_name("/Applications/Other.app/Contents/MacOS/other"), None);
}

#[test]
fn macos_executable_names() {
    assert_eq!(macos::get_app_name("/bin/zsh"), None);
    assert_eq!(macos::get_app_name("Code Helper"), Some("Visual Studio Code"));
    assert_eq!(macos::get_app_name("/usr/local/bin/subl"), Some("Sublime Text"));
    assert_eq!(macos::get_app_name("atom"), Some("Atom"));
    assert_eq!(macos::get_app_name("ITERM2"), Some("iTerm"));
    assert_eq!(macos::get_app_name(""), None);
}

#[test]
fn macos_classifier_on_lowercase_inputs() {
    assert_eq!(
        macos::app_name_from_lowercase("/applications/warp.app/contents/macos/stable", "stable"),
        Some("Warp")
    );
    assert_eq!(macos::app_name_from_lowercase("/x/hyper", "hyper"), Some("Hyper"));
    assert_eq!(macos::executable_app_of("zed-editor"), Some("Zed"));
    assert_eq!(macos::executable_app_of("Zed"), None);
}

#[test]
fn linux_names_use_last_path_segment() {
    assert_eq!(linux::get_app_name("/usr/bin/konsole"), Some("Konsole"));
    assert_eq!(linux::get_app_name("gnome-terminal-server"), Some("GNOME Terminal"));
    assert_eq!(linux::get_app_name("/opt/zed/zed-editor"), Some("Zed"));
    assert_eq!(linux::get_app_name("/usr/share/code/code"), Some("Visual Studio Code"));
    assert_eq!(linux::get_app_name("/usr/bin/"), None);
    assert_eq!(linux::get_app_name("XTerm"), Some("XTerm"));
    // the directory is never consulted
    assert_eq!(linux::get_app_name("/kitty/bash"), None);
    assert_eq!(linux::get_app_name("/a/b/c/kitty"), linux::get_app_name("kitty"));
}

#[test]
fn windows_names_ignore_repeated_exe() {
    assert_eq!(windows::get_app_name("code.exe.exe"), Some("Visual Studio Code"));
    assert_eq!(windows::get_app_name("WEZTERM-GUI.EXE"), Some("WezTerm"));
    assert_eq!(windows::get_app_name("powershell"), Some("PowerShell"));
    assert_eq!(windows::get_app_name("explorer.exe"), None);
    assert_eq!(windows::app_name_from_lowercase("zed.exe"), Some("Zed"));
    // only the lowercase classifier is case-sensitive
    assert_eq!(windows::app_name_from_lowercase("ZED.EXE"), None);
}

#[test]
fn lowercasing_follows_unicode() {
    // KELVIN SIGN lowercases to an ASCII 'k'.
    assert_eq!(linux::get_app_name("\u{212A}itty"), Some("kitty"));
    assert_eq!(c9watch::text::to_lowercase("CoDe"), "code");
}

#[test]
fn dispatch_by_platform() {
    assert_eq!(app_name_on(Platform::Windows, "cmd.exe"), Some("Command Prompt"));
    assert_eq!(app_name_on(Platform::Linux, "cmd.exe"), None);
    assert_eq!(app_name_on(Platform::MacOs, "/Applications/Kitty.app/x"), Some("kitty"));
}
