use c9watch::actions::cli_arguments;
use c9watch::{linux, macos, windows};

fn strings(v: &[&str]) -> Vec<String> {
    v.iter().map(|s| s.to_string()).collect()
}

#[test]
fn macos_launcher_prefers_first_installed_candidate() {
    let installed = strings(&[
        "/usr/local/bin/cursor",
        "/Applications/Cursor.app/Contents/Resources/app/bin/code",
    ]);
    assert_eq!(
        macos::get_app_cli("Cursor", &installed),
        Some("/Applications/Cursor.app/Contents/Resources/app/bin/code".to_string())
    );
    assert_eq!(macos::get_app_cli("Cursor", &[]), None);
    assert_eq!(macos::get_app_cli("Terminal", &installed), None);
    assert_eq!(
        macos::get_app_cli("Zed", &strings(&["/Applications/Zed.app/Contents/MacOS/cli"])),
        Some("/Applications/Zed.app/Contents/MacOS/cli".to_string())
    );
}

#[test]
fn macos_candidates_in_order() {
    assert_eq!(
        macos::cli_candidates("Visual Studio Code"),
        vec![
            "/Applications/Visual Studio Code.app/Contents/Resources/app/bin/code",
            "/usr/local/bin/code",
        ]
    );
    assert_eq!(macos::cli_candidates("Windsurf").len(), 2);
    assert!(macos::cli_candidates("visual studio code").is_empty());
}

#[test]
fn linux_launchers() {
    assert_eq!(linux::cli_candidates("Visual Studio Code"), vec!["/usr/bin/code", "/usr/local/bin/code", "/snap/bin/code"]);
    assert_eq!(
        linux::get_app_cli("Visual Studio Code", &strings(&["/snap/bin/code", "/usr/bin/zed"])),
        Some("/snap/bin/code".to_string())
    );
    assert_eq!(linux::get_app_cli("Windsurf", &strings(&["/usr/bin/windsurf"])), None);
    assert_eq!(linux::get_app_cli("Zed", &strings(&["/usr/local/bin/zed"])), Some("/usr/local/bin/zed".to_string()));
}

#[test]
fn windows_launchers_under_program_directories() {
    let local = "C:\\Users\\me\\AppData\\Local";
    let files = "C:\\Program Files";
    let x86 = "C:\\Program Files (x86)";
    assert_eq!(
        windows::cli_candidates("Visual Studio Code", local, files, x86),
        strings(&[
            "C:\\Users\\me\\AppData\\Local\\Programs\\Microsoft VS Code\\bin\\code.cmd",
            "C:\\Program Files\\Microsoft VS Code\\bin\\code.cmd",
            "C:\\Program Files (x86)\\Microsoft VS Code\\bin\\code.cmd",
        ])
    );
    let installed = strings(&["C:\\Program Files\\Windsurf\\bin\\windsurf.cmd"]);
    assert_eq!(
        windows::get_app_cli("Windsurf", Some(local), Some(files), None, &installed),
        Some("C:\\Program Files\\Windsurf\\bin\\windsurf.cmd".to_string())
    );
    // an unset LOCALAPPDATA or PROGRAMFILES means no launcher at all
    assert_eq!(windows::get_app_cli("Windsurf", None, Some(files), None, &installed), None);
    assert_eq!(windows::get_app_cli("Windsurf", Some(local), None, None, &installed), None);
    // an unset PROGRAMFILES(X86) counts as empty
    let bare = strings(&["\\Microsoft VS Code\\bin\\code.cmd"]);
    assert_eq!(
        windows::get_app_cli("Visual Studio Code", Some(local), Some(files), None, &bare),
        Some("\\Microsoft VS Code\\bin\\code.cmd".to_string())
    );
    assert_eq!(
        windows::cli_candidates("Zed", "L", "F", "X"),
        strings(&["L\\Zed\\zed.exe", "L\\Programs\\Zed\\zed.exe"])
    );
}

#[test]
fn editor_arguments() {
    assert_eq!(cli_arguments("Cursor", "/tmp/p"), strings(&["-r", "-g", "/tmp/p"]));
    assert_eq!(cli_arguments("Visual Studio Code", "/a b"), strings(&["-r", "-g", "/a b"]));
    assert_eq!(cli_arguments("Zed", "/tmp/p"), strings(&["/tmp/p"]));
}
