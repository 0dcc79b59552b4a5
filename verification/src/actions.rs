//! Decisions of the session actions: which arguments open a project in an
//! editor, how a failed stop is reported, and how a failure to start a
//! system tool is worded.
use vstd::prelude::*;
use crate::apps::strings_view;
use crate::number::{decimal, decimal_spec};
use crate::text::same_text;

verus! {

/// Editors of the Visual Studio Code family, which reuse a window when
/// given `-r -g`.
pub open spec fn reuses_window(app_name: Seq<char>) -> bool {
    app_name == "Visual Studio Code"@ || app_name == "Cursor"@ || app_name == "Windsurf"@
}

/// The arguments handed to an application's launcher to open `project_path`.
pub open spec fn cli_arguments_spec(app_name: Seq<char>, project_path: Seq<char>) -> Seq<Seq<char>> {
    if reuses_window(app_name) {
        seq!["-r"@, "-g"@, project_path]
    } else {
        seq![project_path]
    }
}

/// The arguments that open `project_path` with the launcher of `app_name`.
pub fn cli_arguments(app_name: &str, project_path: &str) -> (r: Vec<String>)
    ensures
        strings_view(r@) == cli_arguments_spec(app_name@, project_path@),
{
    let mut r: Vec<String> = Vec::new();
    if same_text(app_name, "Visual Studio Code") || same_text(app_name, "Cursor") || same_text(
        app_name,
        "Windsurf",
    ) {
        r.push(String::from_str("-r"));
        r.push(String::from_str("-g"));
    }
    r.push(String::from_str(project_path));
    assert(strings_view(r@) =~= cli_arguments_spec(app_name@, project_path@));
    r
}

/// Every editor of the Visual Studio Code family (Visual Studio Code,
/// Cursor, Windsurf) is given `-r -g` before the project path, so it reuses
/// a window and goes to the path; any other application is given the path
/// alone. The path is always the last argument.
pub proof fn lemma_editor_arguments(app_name: Seq<char>, project_path: Seq<char>)
    ensures
        cli_arguments_spec("Visual Studio Code"@, project_path) == seq!["-r"@, "-g"@, project_path],
        cli_arguments_spec("Cursor"@, project_path) == seq!["-r"@, "-g"@, project_path],
        cli_arguments_spec("Windsurf"@, project_path) == seq!["-r"@, "-g"@, project_path],
        app_name != "Visual Studio Code"@ && app_name != "Cursor"@ && app_name != "Windsurf"@
            ==> cli_arguments_spec(app_name, project_path) == seq![project_path],
        cli_arguments_spec(app_name, project_path).last() == project_path,
{
}

/// The system tools the session actions start.
#[derive(Clone, Copy, Debug, PartialEq, Eq)]
pub enum Tool {
    /// `ps`, to walk the process tree on macOS and Linux.
    Ps,
    /// `wmic`, to walk the process tree on Windows.
    Wmic,
    /// `kill -15`, to stop a session on macOS and Linux.
    Kill,
    /// `taskkill`, the graceful stop on Windows.
    Taskkill,
    /// `taskkill /F`, the forced stop on Windows.
    ForcedTaskkill,
    /// `osascript`, to activate an application on macOS.
    Osascript,
    /// `powershell`, to activate an application on Windows.
    PowerShell,
}

/// How the failure to start each tool is introduced.
pub open spec fn launch_error_prefix(tool: Tool) -> Seq<char> {
    match tool {
        Tool::Ps => "Failed to execute ps: "@,
        Tool::Wmic => "Failed to execute wmic: "@,
        Tool::Kill => "Failed to execute kill command: "@,
        Tool::Taskkill => "Failed to execute taskkill: "@,
        Tool::ForcedTaskkill => "Failed to execute taskkill /F: "@,
        Tool::Osascript => "Failed to execute osascript: "@,
        Tool::PowerShell => "Failed to execute PowerShell: "@,
    }
}

/// The error reported when `tool` could not be started; `detail` is the
/// system's own message.
pub fn launch_error(tool: Tool, detail: &str) -> (r: String)
    ensures
        r@ == launch_error_prefix(tool) + detail@,
{
    let mut r = match tool {
        Tool::Ps => String::from_str("Failed to execute ps: "),
        Tool::Wmic => String::from_str("Failed to execute wmic: "),
        Tool::Kill => String::from_str("Failed to execute kill command: "),
        Tool::Taskkill => String::from_str("Failed to execute taskkill: "),
        Tool::ForcedTaskkill => String::from_str("Failed to execute taskkill /F: "),
        Tool::Osascript => String::from_str("Failed to execute osascript: "),
        Tool::PowerShell => String::from_str("Failed to execute PowerShell: "),
    };
    r.append(detail);
    r
}

/// How each failure to start a tool reads, whatever the system's message:
/// `Failed to execute ps: ...`, `Failed to execute kill command: ...`, and
/// so on, the message itself at the end.
pub proof fn lemma_launch_error_wording(tool: Tool, detail: Seq<char>)
    ensures
        tool == Tool::Ps ==> launch_error_prefix(tool) + detail == "Failed to execute ps: "@ + detail,
        tool == Tool::Wmic ==> launch_error_prefix(tool) + detail == "Failed to execute wmic: "@ + detail,
        tool == Tool::Kill ==> launch_error_prefix(tool) + detail == "Failed to execute kill command: "@
            + detail,
        tool == Tool::Taskkill ==> launch_error_prefix(tool) + detail == "Failed to execute taskkill: "@
            + detail,
        tool == Tool::ForcedTaskkill ==> launch_error_prefix(tool) + detail
            == "Failed to execute taskkill /F: "@ + detail,
        tool == Tool::Osascript ==> launch_error_prefix(tool) + detail
            == "Failed to execute osascript: "@ + detail,
        tool == Tool::PowerShell ==> launch_error_prefix(tool) + detail
            == "Failed to execute PowerShell: "@ + detail,
{
}

/// A failed stop names the process by its decimal id, which reads back as
/// that id, and ends with what the stop command printed.
pub proof fn lemma_stop_error_wording(pid: u32, stderr: Seq<char>)
    ensures
        stop_error_spec(pid, stderr) == "Failed to stop process "@ + decimal_spec(pid as nat) + ": "@
            + stderr,
        crate::number::parse_u32_spec(decimal_spec(pid as nat)) == Some(pid),
{
    crate::number::lemma_parse_decimal(pid);
}

/// The error reported when process `pid` could not be stopped.
pub open spec fn stop_error_spec(pid: u32, stderr: Seq<char>) -> Seq<char> {
    "Failed to stop process "@ + decimal_spec(pid as nat) + ": "@ + stderr
}

/// The outcome of `stop_session` once the last stop command has run:
/// success when it exited successfully, else an error naming `pid` and
/// carrying what the command printed on its error stream.
pub fn stop_outcome(pid: u32, succeeded: bool, stderr: &str) -> (r: Result<(), String>)
    ensures
        succeeded <==> r is Ok,
        r matches Err(msg) ==> msg@ == stop_error_spec(pid, stderr@),
{
    if succeeded {
        Ok(())
    } else {
        let mut msg = String::from_str("Failed to stop process ");
        let digits = decimal(pid);
        msg.append(digits.as_str());
        msg.append(": ");
        msg.append(stderr);
        Err(msg)
    }
}

} // verus!
