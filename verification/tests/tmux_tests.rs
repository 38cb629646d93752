use sessioncast::tmux::executor::{
    create_executor, first_installation, itmux_candidates, sanitize_session_name, scan_sessions, send_keys, KeyResult, TmuxCommand, TmuxExecutor, UnixTmuxExecutor,
    WindowsTmuxExecutor,
};
use sessioncast::tmux::{list_sessions, repo_from_remote, GitInfo};

fn unix() -> TmuxExecutor {
    create_executor(false, None)
}

fn windows() -> TmuxExecutor {
    create_executor(true, Some("C:\\itmux".to_string()))
}

fn args(c: &TmuxCommand) -> Vec<String> {
    match c {
        TmuxCommand::Tmux(a) => a.clone(),
        TmuxCommand::Shell(_) => panic!("expected an argument vector"),
    }
}

fn line(c: &TmuxCommand) -> String {
    match c {
        TmuxCommand::Shell(l) => l.clone(),
        TmuxCommand::Tmux(_) => panic!("expected a command line"),
    }
}

#[test]
fn escape_for_shell_escapes_quote_dollar_backquote() {
    assert_eq!(UnixTmuxExecutor::escape_for_shell("say \"$HOME\" `x`"), "say \\\"\\$HOME\\\" \\`x\\`");
    assert_eq!(UnixTmuxExecutor::escape_for_shell("plain"), "plain");
}

#[test]
fn escape_session_quotes_single_quotes() {
    assert_eq!(WindowsTmuxExecutor::escape_session("it's"), "it'\\''s");
}

#[test]
fn cygwin_paths() {
    assert_eq!(WindowsTmuxExecutor::windows_to_cygwin_path("C:\\Users\\me"), "/cygdrive/c/Users/me");
    assert_eq!(WindowsTmuxExecutor::windows_to_cygwin_path("\\\\server\\share"), "\\\\server\\share");
    assert_eq!(WindowsTmuxExecutor::windows_to_cygwin_path("rel\\dir"), "rel/dir");
    assert_eq!(WindowsTmuxExecutor::windows_to_cygwin_path("d:"), "/cygdrive/d");
    // a two-byte first character keeps the colon, as byte slicing does
    assert_eq!(WindowsTmuxExecutor::windows_to_cygwin_path("é:\\x"), "/cygdrive/é:/x");
}

#[test]
fn windows_executor_paths_and_availability() {
    let w = WindowsTmuxExecutor::new(Some("C:\\itmux".to_string()));
    assert_eq!(w.bash_path.as_deref(), Some("C:\\itmux\\bin\\bash.exe"));
    assert!(w.is_available());
    let none = WindowsTmuxExecutor::new(None);
    assert!(none.bash_path.is_none());
    assert!(!none.is_available());
    assert_eq!(WindowsTmuxExecutor::check_bash_path("D:\\x"), "D:\\x\\bin\\bash.exe");
}

#[test]
fn session_list_parsing() {
    let out = " main \n\nwork\r\nno server running on /tmp/x\n";
    assert_eq!(unix().list_sessions(Some(out)), vec!["main", "work", "no server running on /tmp/x"]);
    assert_eq!(windows().list_sessions(Some(out)), vec!["main", "work"]);
    assert!(unix().list_sessions(None).is_empty());
}

#[test]
fn pane_list_parsing() {
    let out = "%1:0:80:24:0:0:1:my:title\n%2:1:x:24:0:0:0:bad\n%3:2:40:12:0:81:0:t\nshort:line\n";
    let panes = unix().list_panes(Some(out)).unwrap();
    assert_eq!(panes.len(), 2);
    assert_eq!(panes[0].id, "%1");
    assert_eq!((panes[0].index, panes[0].width, panes[0].height), (0, 80, 24));
    assert!(panes[0].active);
    assert_eq!(panes[0].title, "my:title");
    assert_eq!(panes[1].id, "%3");
    assert_eq!(panes[1].left, 81);
    assert!(!panes[1].active);
    assert!(unix().list_panes(None).is_none());
}

#[test]
fn captured_screen_uses_crlf() {
    assert_eq!(TmuxExecutor::captured_screen(Some("a\nb\n")), Some("a\r\nb\r\n".to_string()));
    assert_eq!(TmuxExecutor::captured_screen(None), None);
}

#[test]
fn active_pane_and_cwd_are_trimmed() {
    assert_eq!(TmuxExecutor::get_active_pane(Some(" %4\n")), Some("%4".to_string()));
    assert_eq!(TmuxExecutor::get_active_pane(Some(" \n")), None);
    assert_eq!(TmuxExecutor::get_pane_cwd(Some("/home/me\n")), Some("/home/me".to_string()));
    assert_eq!(TmuxExecutor::get_version(Some("tmux 3.4\n")), Some("tmux 3.4".to_string()));
}

#[test]
fn unix_commands() {
    let e = unix();
    assert_eq!(args(&e.list_sessions_command()), vec!["ls", "-F", "#{session_name}"]);
    assert_eq!(args(&e.capture_pane("s")), vec!["capture-pane", "-t", "s", "-p", "-e", "-N"]);
    assert_eq!(args(&e.capture_pane_by_id("s", "%2")), vec!["capture-pane", "-t", "%2", "-p", "-e", "-N"]);
    assert_eq!(args(&e.send_keys_command("s", "echo $X")), vec!["send-keys", "-t", "s", "-l", "echo \\$X"]);
    assert_eq!(args(&e.send_special_key("s", "Enter")), vec!["send-keys", "-t", "s", "Enter"]);
    assert_eq!(args(&e.resize_window("s", 120, 40)), vec!["resize-window", "-t", "s", "-x", "120", "-y", "40"]);
    assert_eq!(args(&e.resize_pane("%1", 80, 24)), vec!["resize-pane", "-t", "%1", "-x", "80", "-y", "24"]);
    assert_eq!(args(&e.kill_session("s")), vec!["kill-session", "-t", "s"]);
    assert_eq!(args(&e.get_version_command()), vec!["-V"]);
    assert_eq!(args(&e.get_active_pane_command("s")), vec!["display-message", "-t", "s", "-p", "#{pane_id}"]);
    assert_eq!(args(&e.get_pane_cwd_command("s", Some("%1"))), vec!["display-message", "-t", "s:%1", "-p", "#{pane_current_path}"]);
    assert_eq!(args(&e.get_pane_cwd_command("s", None)), vec!["display-message", "-t", "s", "-p", "#{pane_current_path}"]);
    let lp = args(&e.list_panes_command("s"));
    assert_eq!(lp[4], "#{pane_id}:#{pane_index}:#{pane_width}:#{pane_height}:#{pane_top}:#{pane_left}:#{?pane_active,1,0}:#{pane_title}");
}

#[test]
fn windows_commands() {
    let e = windows();
    assert_eq!(line(&e.list_sessions_command()), "tmux ls -F '#{session_name}' 2>/dev/null || true");
    assert_eq!(line(&e.capture_pane("a'b")), "tmux capture-pane -t 'a'\\''b' -p -e -N");
    assert_eq!(line(&e.send_keys_command("s", "it's")), "tmux send-keys -t 's' -l 'it'\\''s'");
    assert_eq!(line(&e.send_special_key("s", "C-c")), "tmux send-keys -t 's' C-c");
    assert_eq!(line(&e.resize_window("s", 100, 30)), "tmux resize-window -t 's' -x 100 -y 30");
    assert_eq!(line(&e.kill_session("s")), "tmux kill-session -t 's'");
    assert_eq!(line(&e.get_version_command()), "tmux -V");
    assert_eq!(line(&e.get_active_pane_command("s")), "tmux display-message -t 's' -p \"#{pane_id}\"");
    assert_eq!(line(&e.get_pane_cwd_command("s", Some("%2"))), "tmux display-message -t 's:%2' -p \"#{pane_current_path}\"");
}

#[test]
fn create_session_sanitizes_the_name() {
    let u = unix();
    assert_eq!(args(&u.create_session("my sess!", None).unwrap()), vec!["new-session", "-d", "-s", "mysess"]);
    assert_eq!(args(&u.create_session("a_b-c", Some("/tmp")).unwrap()), vec!["new-session", "-d", "-s", "a_b-c", "-c", "/tmp"]);
    assert!(u.create_session("!!!", None).is_none());
    let w = windows();
    assert_eq!(line(&w.create_session("x", Some("C:\\work")).unwrap()), "tmux new-session -d -s 'x' -c '/cygdrive/c/work'");
    assert_eq!(line(&w.create_session("x", None).unwrap()), "tmux new-session -d -s 'x'");
}

#[test]
fn key_plans() {
    let e = unix();
    let p = send_keys(&e, "t", "\u{3}", true);
    assert_eq!(p.result, KeyResult::LastCommand);
    assert_eq!(p.commands.len(), 1);
    assert_eq!(args(&p.commands[0]), vec!["send-keys", "-t", "t", "C-c"]);

    let p = send_keys(&e, "t", "\u{4}", false);
    assert_eq!(args(&p.commands[0]), vec!["send-keys", "-t", "t", "C-d"]);

    let p = send_keys(&e, "t", "\r\n", false);
    assert_eq!(args(&p.commands[0]), vec!["send-keys", "-t", "t", "Enter"]);

    let p = send_keys(&e, "t", "ls\n", false);
    assert_eq!(p.result, KeyResult::LastCommand);
    assert_eq!(p.commands.len(), 2);
    assert_eq!(args(&p.commands[0]), vec!["send-keys", "-t", "t", "-l", "ls"]);
    assert_eq!(args(&p.commands[1]), vec!["send-keys", "-t", "t", "Enter"]);

    let p = send_keys(&e, "t", "ls", true);
    assert_eq!(p.result, KeyResult::Sent);
    assert_eq!(p.commands.len(), 2);

    let p = send_keys(&e, "t", "ls", false);
    assert_eq!(p.result, KeyResult::Sent);
    assert_eq!(p.commands.len(), 1);
}

#[test]
fn sessions_listed_with_defaults() {
    let s = list_sessions(vec!["a".to_string(), "b".to_string()]);
    assert_eq!(s.len(), 2);
    assert_eq!(s[1].name, "b");
    assert_eq!(s[0].windows, 1);
    assert!(!s[0].attached);
}

#[test]
fn github_repository_from_remote() {
    assert_eq!(repo_from_remote("git@github.com:owner/repo.git"), Some("owner/repo".to_string()));
    assert_eq!(repo_from_remote("https://github.com/owner/repo.git"), Some("owner/repo".to_string()));
    assert_eq!(repo_from_remote("https://gitlab.com/owner/repo.git"), None);
    let g = GitInfo::from_git_output(Some("main\n".to_string()), Some(" https://github.com/o/r\n".to_string()));
    assert_eq!(g.branch.as_deref(), Some("main"));
    assert_eq!(g.remote.as_deref(), Some("https://github.com/o/r"));
    assert_eq!(g.repo.as_deref(), Some("o/r"));
    let none = GitInfo::from_git_output(None, None);
    assert!(none.branch.is_none() && none.remote.is_none() && none.repo.is_none());
}

#[test]
fn itmux_search_order() {
    let c = itmux_candidates(
        Some("E:\\tools\\itmux"),
        Some("C:\\Windows;C:\\ITMUX\\bin;D:\\cygwin64/bin;C:\\other"),
        Some("C:\\Users\\me"),
        None,
    );
    let v: Vec<(String, bool)> = c.into_iter().map(|c| (c.path, c.parent)).collect();
    assert_eq!(
        v,
        vec![
            ("E:\\tools\\itmux".to_string(), false),
            ("C:\\ITMUX\\bin".to_string(), true),
            ("D:\\cygwin64/bin".to_string(), true),
            ("C:\\Users\\me\\itmux".to_string(), false),
            ("C:\\itmux".to_string(), false),
            ("D:\\itmux".to_string(), false),
            ("\\itmux".to_string(), false),
        ]
    );
}

#[test]
fn itmux_search_splits_unix_paths_at_colons() {
    let c = itmux_candidates(None, Some("/usr/bin:/opt/itmux:/bin"), None, Some("L"));
    let v: Vec<(String, bool)> = c.into_iter().map(|c| (c.path, c.parent)).collect();
    assert_eq!(v[0], ("/opt/itmux".to_string(), false));
    assert_eq!(v.len(), 5);
    assert_eq!(v[4], ("L\\itmux".to_string(), false));
}

#[test]
fn cygwin_conversion_guard() {
    assert!(!WindowsTmuxExecutor::cuts_first_char("C:\\x"));
    assert!(!WindowsTmuxExecutor::cuts_first_char("é:\\x"));
    assert!(WindowsTmuxExecutor::cuts_first_char("語:\\x"));
    assert!(!WindowsTmuxExecutor::cuts_first_char("\\\\語:\\x"));
}

#[test]
fn scan_sessions_reads_the_list() {
    let e = unix();
    assert_eq!(scan_sessions(&e, Some("a\n\n b \n")), vec!["a".to_string(), "b".to_string()]);
    assert!(scan_sessions(&e, None).is_empty());
    let w = windows();
    assert_eq!(
        scan_sessions(&w, Some("no server running on /tmp/x\nwork\n")),
        vec!["work".to_string()]
    );
}

#[test]
fn sanitizing_twice_changes_nothing() {
    let once: String = sanitize_session_name("my session!#1_ok-é").into_iter().collect();
    assert_eq!(once, "mysession1_ok-é");
    let twice: String = sanitize_session_name(&once).into_iter().collect();
    assert_eq!(twice, once);
}

#[test]
fn resize_and_kill_commands() {
    let e = unix();
    assert_eq!(
        args(&e.resize_window("dev", 120, 40)),
        vec!["resize-window", "-t", "dev", "-x", "120", "-y", "40"]
    );
    assert_eq!(
        args(&e.resize_pane("%1", 80, 24)),
        vec!["resize-pane", "-t", "%1", "-x", "80", "-y", "24"]
    );
    assert_eq!(args(&e.kill_session("dev")), vec!["kill-session", "-t", "dev"]);
    assert_eq!(
        args(&e.capture_pane_by_id("dev", "%2")),
        vec!["capture-pane", "-t", "%2", "-p", "-e", "-N"]
    );
    let w = windows();
    assert_eq!(line(&w.kill_session("it's")), "tmux kill-session -t 'it'\\''s'");
    assert_eq!(line(&w.resize_window("dev", 100, 30)), "tmux resize-window -t 'dev' -x 100 -y 30");
}

#[test]
fn availability_by_platform() {
    assert!(unix().is_available(true));
    assert!(!unix().is_available(false));
    assert!(windows().is_available(false));
    assert!(!create_executor(true, None).is_available(true));
}

#[test]
fn first_installation_found() {
    let dirs = vec![
        ("C:\\a".to_string(), false),
        ("C:\\b".to_string(), true),
        ("C:\\c".to_string(), true),
    ];
    assert_eq!(first_installation(&dirs), Some("C:\\b".to_string()));
    assert_eq!(first_installation(&vec![("x".to_string(), false)]), None);
    assert_eq!(first_installation(&vec![]), None);
}
