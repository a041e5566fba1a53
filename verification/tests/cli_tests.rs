use grok_desktop::cli::{
    candidate_paths, default_install_hint, detect_cli, dirs_home, first_nonempty_line, grok_bin_name,
    join, pick_cli_path, version_after_first, version_after_second, which_output_line, CliStatus,
    VersionNext, VersionProbe, MIN_CLI_VERSION_HINT,
};
use grok_desktop::text::{contains_text, ends_with_text, first_line_in, same_text, trim};

#[test]
fn missing_status_has_install_hint() {
    let s = CliStatus::missing("nope");
    assert!(!s.installed);
    assert!(s.install_hint.contains("Grok"));
}

#[test]
fn missing_and_found_statuses() {
    let s = CliStatus::missing("nope");
    assert_eq!(s.error.as_deref(), Some("nope"));
    assert!(s.path.is_none() && s.version.is_none());
    let f = CliStatus::found("/usr/bin/grok".to_string(), Some("grok 0.3.1".to_string()));
    assert!(f.installed);
    assert_eq!(f.path.as_deref(), Some("/usr/bin/grok"));
    assert_eq!(f.version.as_deref(), Some("grok 0.3.1"));
    assert!(f.error.is_none());
    assert_eq!(f.install_hint, default_install_hint());
    assert_eq!(MIN_CLI_VERSION_HINT, "0.2.0");
}

#[test]
fn detect_reports_missing_cli() {
    let d = detect_cli(None, Some("ignored".to_string()));
    assert!(!d.installed);
    assert!(d.version.is_none());
    assert_eq!(d.error.as_deref(), Some("未在 PATH 或常见安装路径中找到 `grok`。请先安装 Grok Build CLI。"));
    let d = detect_cli(Some("/g".to_string()), None);
    assert!(d.installed);
    assert_eq!(d.path.as_deref(), Some("/g"));
}

#[test]
fn binary_names_and_joins() {
    assert_eq!(grok_bin_name(true), "grok.exe");
    assert_eq!(grok_bin_name(false), "grok");
    assert_eq!(join("/usr/bin", "grok", false), "/usr/bin/grok");
    assert_eq!(join("/usr/bin/", "grok", false), "/usr/bin/grok");
    assert_eq!(join("", "grok", false), "grok");
    assert_eq!(join("C:\\tools", "grok.exe", true), "C:\\tools\\grok.exe");
    assert_eq!(join("C:/tools/", "grok.exe", true), "C:/tools/grok.exe");
    assert_eq!(join("C:", "grok.exe", true), "C:grok.exe");
    assert_eq!(join("a\\b", "c", false), "a\\b/c");
}

#[test]
fn candidates_in_order() {
    let dirs = vec!["/usr/bin".to_string(), "/opt/bin".to_string()];
    let unix = candidate_paths(&dirs, Some("/home/u"), false);
    assert_eq!(
        unix,
        vec![
            "/usr/bin/grok".to_string(),
            "/opt/bin/grok".to_string(),
            "/home/u/.grok/bin/grok".to_string(),
            "/home/u/.local/bin/grok".to_string(),
        ]
    );
    let win = candidate_paths(&vec!["C:\\bin".to_string()], Some("C:\\Users\\u"), true);
    assert_eq!(
        win,
        vec![
            "C:\\bin\\grok.exe".to_string(),
            "C:\\Users\\u\\.grok\\bin\\grok.exe".to_string(),
            "C:\\Users\\u\\AppData\\Local\\grok\\bin\\grok.exe".to_string(),
        ]
    );
    assert_eq!(candidate_paths(&vec![], None, false), Vec::<String>::new());
}

#[test]
fn home_and_which() {
    assert_eq!(dirs_home(Some("C:\\Users\\u".to_string()), Some("/h".to_string())), Some("C:\\Users\\u".to_string()));
    assert_eq!(dirs_home(None, Some("/h".to_string())), Some("/h".to_string()));
    assert_eq!(dirs_home(None, None), None);
    assert_eq!(which_output_line(true, b"/usr/local/bin/grok\n/usr/bin/grok\n"), Some("/usr/local/bin/grok".to_string()));
    assert_eq!(which_output_line(true, b"  C:\\grok.exe\r\n"), Some("C:\\grok.exe".to_string()));
    assert_eq!(which_output_line(true, b""), None);
    assert_eq!(which_output_line(true, b"\n/x\n"), Some("".to_string()));
    assert_eq!(which_output_line(false, b"/usr/bin/grok\n"), None);
}

#[test]
fn picking_the_path() {
    let cands = || vec![("/a".to_string(), false), ("/b".to_string(), true), ("/c".to_string(), true)];
    assert_eq!(pick_cli_path(Some(("/w".to_string(), true)), cands()), Some("/w".to_string()));
    assert_eq!(pick_cli_path(Some(("/w".to_string(), false)), cands()), Some("/b".to_string()));
    assert_eq!(pick_cli_path(None, cands()), Some("/b".to_string()));
    assert_eq!(pick_cli_path(None, vec![("/a".to_string(), false)]), None);
}

#[test]
fn version_lines() {
    assert_eq!(first_nonempty_line(b"\n  \n grok 1.2.3 \nmore"), Some("grok 1.2.3".to_string()));
    assert_eq!(first_nonempty_line(b" \r\n\t\n"), None);
    assert_eq!(first_nonempty_line(b""), None);
    // Invalid UTF-8 is replaced, not dropped: the line is not blank.
    assert_eq!(first_nonempty_line(&[0xff, b'\n']), Some("\u{fffd}".to_string()));
    let ok = VersionProbe::Ran { success: true, stdout: b"".to_vec(), stderr: b"grok 0.9\n".to_vec() };
    match version_after_first(&ok) {
        VersionNext::Done(v) => assert_eq!(v.as_deref(), Some("grok 0.9")),
        VersionNext::TryVersionFlag => panic!("expected a version"),
    }
    let failed = VersionProbe::Ran { success: false, stdout: b"x".to_vec(), stderr: vec![] };
    assert!(matches!(version_after_first(&failed), VersionNext::TryVersionFlag));
    assert!(matches!(version_after_first(&VersionProbe::NotRun), VersionNext::Done(None)));
    let second = VersionProbe::Ran { success: true, stdout: b"v2\n".to_vec(), stderr: vec![] };
    assert_eq!(version_after_second(&second), Some("v2".to_string()));
    assert_eq!(version_after_second(&failed), None);
    assert_eq!(version_after_second(&VersionProbe::NotRun), None);
}

#[test]
fn text_operations() {
    assert_eq!(trim("\u{3000} a b \u{2029}"), "a b");
    assert_eq!(trim(""), "");
    assert_eq!(trim(&trim("  x  ")), trim("  x  "));
    assert_eq!(first_line_in("a\r\nb"), Some("a".to_string()));
    assert!(contains_text("session/request_permission", "permission"));
    assert!(!contains_text("perm", "permission"));
    assert!(contains_text("abc", ""));
    assert!(ends_with_text("x.ai/session/update", "session/update"));
    assert!(!ends_with_text("update", "session/update"));
    assert!(same_text("你好", "你好"));
    assert!(!same_text("a", "b"));
}

#[test]
fn verbatim_prefix_matters_only_on_windows() {
    assert_eq!(join("\\\\?\\tools", "grok", false), "\\\\?\\tools/grok");
    assert_eq!(join("\\\\?", "bin", true), "\\\\?\\bin");
}

#[test]
fn every_candidate_ends_with_the_binary() {
    assert!(join("\\\\?\\C:\\tools", "grok.exe", true).ends_with("grok.exe"));
    let dirs = vec!["\\\\?\\C:\\tools".to_string(), "C:\\bin".to_string()];
    let win = candidate_paths(&dirs, Some("\\\\?\\C:\\Users\\u"), true);
    assert_eq!(win.len(), 4);
    assert!(win.iter().all(|p| p.ends_with("grok.exe")));
    assert_eq!(win[1], "C:\\bin\\grok.exe");
    let unix = candidate_paths(&vec!["/usr/bin".to_string()], Some("/home/u"), false);
    assert!(unix.iter().all(|p| p.ends_with("grok")));
}
