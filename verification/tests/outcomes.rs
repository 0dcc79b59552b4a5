use c9watch::actions::{launch_error, stop_outcome, Tool};
use c9watch::conversation::{build_conversation, session_file_name, session_not_found};
use c9watch::macos::activation_script;
use c9watch::windows::{activation_process, activation_target};
use c9watch::greet;

#[test]
fn stop_outcomes() {
    assert_eq!(stop_outcome(42, true, "ignored"), Ok(()));
    assert_eq!(
        stop_outcome(999999, false, "kill: (999999) - No such process\n"),
        Err("Failed to stop process 999999: kill: (999999) - No such process\n".to_string())
    );
}

#[test]
fn launch_errors() {
    assert_eq!(launch_error(Tool::Ps, "boom"), "Failed to execute ps: boom");
    assert_eq!(launch_error(Tool::Wmic, "x"), "Failed to execute wmic: x");
    assert_eq!(launch_error(Tool::Kill, "x"), "Failed to execute kill command: x");
    assert_eq!(launch_error(Tool::Taskkill, "x"), "Failed to execute taskkill: x");
    assert_eq!(launch_error(Tool::ForcedTaskkill, "x"), "Failed to execute taskkill /F: x");
    assert_eq!(launch_error(Tool::Osascript, "x"), "Failed to execute osascript: x");
    assert_eq!(launch_error(Tool::PowerShell, "x"), "Failed to execute PowerShell: x");
}

#[test]
fn greeting() {
    assert_eq!(greet("Ada"), "Hello, Ada! You've been greeted from Rust!");
    assert_eq!(greet(""), "Hello, ! You've been greeted from Rust!");
}

#[test]
fn conversation_keeps_order() {
    let msgs = vec![
        ("t1".to_string(), "user".to_string(), "hi".to_string()),
        ("t2".to_string(), "assistant".to_string(), "hello".to_string()),
    ];
    let c = build_conversation("abc".to_string(), &msgs);
    assert_eq!(c.session_id, "abc");
    assert_eq!(c.messages.len(), 2);
    assert_eq!(c.messages[1].timestamp, "t2");
    assert_eq!(c.messages[1].message_type, "assistant");
    assert_eq!(c.messages[0].content, "hi");
    assert!(build_conversation("e".to_string(), &vec![]).messages.is_empty());
}

#[test]
fn session_names() {
    assert_eq!(session_file_name("1234-abcd"), "1234-abcd.jsonl");
    assert_eq!(session_not_found("x"), "Session x not found in any project directory");
}

#[test]
fn activation() {
    assert_eq!(activation_script("iTerm"), "tell application \"iTerm\" to activate");
    assert_eq!(activation_process("Visual Studio Code"), Some("Code.exe"));
    assert_eq!(activation_target("Windows Terminal"), Some("WindowsTerminal"));
    assert_eq!(activation_target("Command Prompt"), Some("cmd"));
    assert_eq!(activation_target("Zed"), None);
}
