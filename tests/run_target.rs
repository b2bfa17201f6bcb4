use zellij_server::run_target::{
    resolve_run_target, LaunchEnv, ResolveError, RunCommand, TerminalAction,
};

fn env(editor: Option<&str>, visual: Option<&str>, shell: Option<&str>) -> LaunchEnv<String> {
    LaunchEnv {
        editor: editor.map(String::from),
        visual: visual.map(String::from),
        shell: shell.map(String::from),
    }
}

#[test]
fn open_file_uses_editor_first() {
    let action = Some(TerminalAction::OpenFile("notes.txt".to_string()));
    let t = resolve_run_target(action, env(Some("/usr/bin/vim"), Some("/usr/bin/nano"), None))
        .unwrap();
    assert_eq!(t.command, "/usr/bin/vim");
    assert_eq!(t.args, vec!["notes.txt".to_string()]);
}

#[test]
fn open_file_falls_back_to_visual() {
    let action = Some(TerminalAction::OpenFile("/tmp/a.rs".to_string()));
    let t = resolve_run_target(action, env(None, Some("/usr/bin/nano"), Some("/bin/sh"))).unwrap();
    assert_eq!(t.command, "/usr/bin/nano");
    assert_eq!(t.args, vec!["/tmp/a.rs".to_string()]);
}

#[test]
fn open_file_without_editor_fails() {
    let action = Some(TerminalAction::OpenFile("a".to_string()));
    let r = resolve_run_target(action, env(None, None, Some("/bin/sh")));
    assert_eq!(r.err(), Some(ResolveError::NoEditor));
}

#[test]
fn explicit_command_passes_through() {
    let cmd = RunCommand {
        command: "/usr/bin/htop".to_string(),
        args: vec!["-d".to_string(), "10".to_string()],
    };
    let t = resolve_run_target(Some(TerminalAction::RunCommand(cmd)), env(None, None, None))
        .unwrap();
    assert_eq!(t.command, "/usr/bin/htop");
    assert_eq!(t.args, vec!["-d".to_string(), "10".to_string()]);
}

#[test]
fn no_action_runs_shell_without_arguments() {
    let t = resolve_run_target(None, env(Some("vim"), None, Some("/bin/sh"))).unwrap();
    assert_eq!(t.command, "/bin/sh");
    assert!(t.args.is_empty());
}

#[test]
fn no_action_without_shell_fails() {
    let r = resolve_run_target(None, env(Some("vim"), Some("nano"), None));
    assert_eq!(r.err(), Some(ResolveError::NoShell));
}
