use sudoaudit::paths::{
    environment_dir_path, join_path, prepend_search_path, report_dir_path, report_file,
    resolve_executable_dir, resolve_executable_path, side_channel_path, Platform, ReportFormat,
};

#[test]
fn join_writes_one_separator() {
    assert_eq!(join_path("/home/u/.sudoaudit", "slither-env", Platform::Posix), "/home/u/.sudoaudit/slither-env");
    assert_eq!(join_path("/home/u/", "x", Platform::Posix), "/home/u/x");
    assert_eq!(join_path("", "x", Platform::Posix), "x");
    assert_eq!(join_path("/", "x", Platform::Posix), "/x");
    assert_eq!(join_path("C:\\data", "x", Platform::Windows), "C:\\data\\x");
    assert_eq!(join_path("C:\\data\\", "x", Platform::Windows), "C:\\data\\x");
    assert_eq!(join_path("C:/data/", "x", Platform::Windows), "C:/data/x");
    assert_eq!(join_path("a\\", "x", Platform::Posix), "a\\/x");
}

#[test]
fn executables_live_in_bin_on_posix() {
    assert_eq!(resolve_executable_dir("/env", Platform::Posix), "/env/bin");
    assert_eq!(resolve_executable_path("/env", "slither", Platform::Posix), "/env/bin/slither");
    assert_eq!(resolve_executable_path("/env", "myth", Platform::Posix), "/env/bin/myth");
}

#[test]
fn executables_live_in_scripts_on_windows() {
    assert_eq!(resolve_executable_dir("C:\\env", Platform::Windows), "C:\\env\\Scripts");
    assert_eq!(
        resolve_executable_path("C:\\env", "slither", Platform::Windows),
        "C:\\env\\Scripts\\slither.exe"
    );
    assert_eq!(
        resolve_executable_path("C:\\env", "solc-select", Platform::Windows),
        "C:\\env\\Scripts\\solc-select.exe"
    );
}

#[test]
fn search_path_puts_the_environment_first() {
    assert_eq!(prepend_search_path("/env/bin", "/usr/bin:/bin"), "/env/bin:/usr/bin:/bin");
    assert_eq!(prepend_search_path("/env/bin", ""), "/env/bin:");
}

#[test]
fn side_channel_file_is_named_after_tool_and_token() {
    assert_eq!(side_channel_path("/tmp", "slither", 4711, Platform::Posix), "/tmp/slither-out-4711.json");
    assert_eq!(side_channel_path("/tmp/", "slither", 0, Platform::Posix), "/tmp/slither-out-0.json");
    assert_ne!(
        side_channel_path("/tmp", "slither", 1, Platform::Posix),
        side_channel_path("/tmp", "slither", 11, Platform::Posix)
    );
}

#[test]
fn environments_and_reports_are_named_after_the_toolset() {
    assert_eq!(environment_dir_path("/d", "slither", Platform::Posix), "/d/slither-env");
    assert_eq!(environment_dir_path("/d", "mythril", Platform::Posix), "/d/mythril-env");
    assert_eq!(report_dir_path("Token", "slither", Platform::Posix), "Token/slither-report");
    assert_eq!(report_dir_path("Token", "mythril", Platform::Windows), "Token\\mythril-report");
    assert_eq!(report_file("Token", "slither", ReportFormat::Markdown), "Token_slither_report.md");
    assert_eq!(report_file("Token", "mythril", ReportFormat::Html), "Token_mythril_report.html");
}
