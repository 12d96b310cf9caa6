use histsel::HistoryError;
use histsel::Shell;

fn lines(raw: &[&str]) -> Vec<String> {
    raw.iter().map(|s| s.to_string()).collect()
}

#[test]
fn bash_lines_are_commands_unchanged() {
    let input = lines(&["ls -la", "  spaced  ", "a;b;c"]);
    let out = Shell::Bash.get_commands(&input).unwrap();
    assert_eq!(out, input);
}

#[test]
fn fish_keeps_only_marker_lines() {
    let input = lines(&[
        "- cmd: git status",
        "  when: 1700000000",
        "- cmd: echo hi",
        "paths:",
        "- cmd:ls",
    ]);
    let out = Shell::Fish.get_commands(&input).unwrap();
    let texts: Vec<&str> = out.iter().map(|s| s.as_str()).collect();
    assert_eq!(texts, vec!["git status", "echo hi", "ls"]);
}

#[test]
fn fish_trims_surrounding_whitespace() {
    let input = lines(&["- cmd: \t echo hi \r\n"]);
    let out = Shell::Fish.get_commands(&input).unwrap();
    let texts: Vec<&str> = out.iter().map(|s| s.as_str()).collect();
    assert_eq!(texts, vec!["echo hi"]);
}

#[test]
fn fish_strips_repeated_markers() {
    let input = lines(&["- cmd:- cmd: nested"]);
    let out = Shell::Fish.get_commands(&input).unwrap();
    let texts: Vec<&str> = out.iter().map(|s| s.as_str()).collect();
    assert_eq!(texts, vec!["nested"]);
}

#[test]
fn fish_empty_history_gives_no_commands() {
    let out = Shell::Fish.get_commands(&Vec::new()).unwrap();
    assert!(out.is_empty());
}

#[test]
fn zsh_takes_text_after_first_semicolon() {
    let input = lines(&[": 1700000000:0;git status"]);
    let out = Shell::Zsh.get_commands(&input).unwrap();
    let texts: Vec<&str> = out.iter().map(|s| s.as_str()).collect();
    assert_eq!(texts, vec!["git status"]);
}

#[test]
fn zsh_keeps_lines_without_semicolon() {
    let input = lines(&["plain command"]);
    let out = Shell::Zsh.get_commands(&input).unwrap();
    let texts: Vec<&str> = out.iter().map(|s| s.as_str()).collect();
    assert_eq!(texts, vec!["plain command"]);
}

#[test]
fn zsh_takes_only_the_second_field() {
    let input = lines(&["a;b;c", "x;"]);
    let out = Shell::Zsh.get_commands(&input).unwrap();
    let texts: Vec<&str> = out.iter().map(|s| s.as_str()).collect();
    assert_eq!(texts, vec!["b", ""]);
}

#[test]
fn unknown_shell_has_no_commands() {
    let input = lines(&["anything"]);
    let err = Shell::Unknown.get_commands(&input).unwrap_err();
    assert_eq!(err, HistoryError::UnsupportedFormat);
}

#[test]
fn history_paths_live_under_home() {
    let home = "/home/u";
    assert_eq!(
        Shell::Fish.get_history_path(home).unwrap(),
        "/home/u/.local/share/fish/fish_history"
    );
    assert_eq!(Shell::Bash.get_history_path(home).unwrap(), "/home/u/.bash_history");
    assert_eq!(Shell::Zsh.get_history_path(home).unwrap(), "/home/u/.zsh_history");
}

#[test]
fn unknown_shell_has_no_history_path() {
    let err = Shell::Unknown.get_history_path("/home/u").unwrap_err();
    assert_eq!(err, HistoryError::UnsupportedFormat);
}

#[test]
fn errors_describe_themselves() {
    assert_eq!(
        HistoryError::UnsupportedFormat.message(),
        "Unknown shell, unable to determine history file"
    );
    assert_eq!(
        HistoryError::SourceUnavailable.message(),
        "history file missing or unreadable"
    );
}

#[test]
fn detect_shell_finds_each_dialect() {
    assert!(matches!(histsel::shell::detect_shell("  PID TTY  /usr/bin/fish"), Shell::Fish));
    assert!(matches!(histsel::shell::detect_shell("  PID TTY  -bash"), Shell::Bash));
    assert!(matches!(histsel::shell::detect_shell("  PID TTY  /bin/zsh"), Shell::Zsh));
    assert!(matches!(histsel::shell::detect_shell("  PID TTY  python3"), Shell::Unknown));
}

#[test]
fn detect_shell_prefers_fish_then_bash() {
    assert!(matches!(histsel::shell::detect_shell("fish bash zsh"), Shell::Fish));
    assert!(matches!(histsel::shell::detect_shell("bash zsh"), Shell::Bash));
}
