use c9watch::apps::{Platform, ProcessWalk, WalkAction, MAX_STEPS};
use c9watch::windows::{parse_wmic_output, wmic_line, WmicAction, WmicWalk};

#[test]
fn walk_finds_editor_above_shell() {
    let (mut walk, action) = ProcessWalk::start(Platform::Linux, 500);
    assert_eq!(action, WalkAction::QueryName(500));
    assert_eq!(walk.advance("agent\n"), WalkAction::QueryParent(500));
    assert_eq!(walk.advance("  400\n"), WalkAction::QueryName(400));
    assert_eq!(walk.advance("bash\n"), WalkAction::QueryParent(400));
    assert_eq!(walk.advance("300"), WalkAction::QueryName(300));
    assert_eq!(walk.advance("/usr/share/code/code\n"), WalkAction::Found("Visual Studio Code"));
}

#[test]
fn walk_stops_at_root_with_terminal() {
    let (mut walk, _) = ProcessWalk::start(Platform::MacOs, 77);
    assert_eq!(walk.advance("-zsh"), WalkAction::QueryParent(77));
    assert_eq!(walk.advance("1"), WalkAction::Found("Terminal"));
    let (mut walk, _) = ProcessWalk::start(Platform::MacOs, 77);
    walk.advance("login");
    // an unreadable parent id counts as the root
    assert_eq!(walk.advance("not a pid"), WalkAction::Found("Terminal"));
}

#[test]
fn walk_gives_up_after_max_steps() {
    let (mut walk, _) = ProcessWalk::start(Platform::Linux, 1000);
    let mut names = 1;
    let mut pid = 1000;
    loop {
        assert_eq!(walk.advance("sh"), WalkAction::QueryParent(pid));
        pid = pid + 1;
        match walk.advance(&pid.to_string()) {
            WalkAction::QueryName(p) => {
                assert_eq!(p, pid);
                names += 1;
            }
            WalkAction::Found(app) => {
                assert_eq!(app, "Terminal");
                break;
            }
            other => panic!("unexpected {:?}", other),
        }
    }
    assert_eq!(names, MAX_STEPS);
}

#[test]
fn wmic_output_last_record_wins() {
    let out = "\r\nNode,Name,ParentProcessId\r\nHOST,bash.exe,120\r\nHOST, Code.exe ,  88 \r\n\r\n";
    let (name, ppid) = parse_wmic_output(out);
    assert_eq!(name, "Code.exe");
    assert_eq!(ppid, 88);
    assert_eq!(parse_wmic_output(""), (String::new(), 0));
    assert_eq!(parse_wmic_output("Node,Name,ParentProcessId\n"), (String::new(), 0));
    assert_eq!(parse_wmic_output("HOST,x.exe,oops\nshort,line"), ("x.exe".to_string(), 0));
}

#[test]
fn wmic_line_fields() {
    assert_eq!(wmic_line("HOST,cmd.exe,4,extra"), Some(("cmd.exe".to_string(), 4)));
    assert_eq!(wmic_line("   "), None);
    assert_eq!(wmic_line("Node,a,b"), None);
    assert_eq!(wmic_line("a,b"), None);
}

#[test]
fn wmic_walk_rules() {
    let (mut walk, action) = WmicWalk::start(10);
    assert_eq!(action, WmicAction::Query(10));
    assert_eq!(walk.advance("Node,Name,ParentProcessId\nH,agent.exe,9\n"), WmicAction::Query(9));
    assert_eq!(walk.advance("H,pwsh.exe,8\n"), WmicAction::Found("PowerShell"));

    let (mut walk, _) = WmicWalk::start(10);
    assert_eq!(walk.advance("H,node.exe,10\n"), WmicAction::Found("Windows Terminal"));
    let (mut walk, _) = WmicWalk::start(10);
    assert_eq!(walk.advance("H,node.exe,1\n"), WmicAction::Found("Windows Terminal"));
    let (mut walk, _) = WmicWalk::start(10);
    assert_eq!(walk.advance("No Instance(s) Available.\n"), WmicAction::Found("Windows Terminal"));
}
