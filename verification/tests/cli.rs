use sudoaudit::cli::{confirms_install, parse_choice, toolsets_for, Cli, RunMode};
use sudoaudit::installer::ToolKind;

#[test]
fn output_defaults_to_report_md() {
    let cli = Cli::new("Token.sol".to_string(), None);
    assert_eq!(cli.contract_path, "Token.sol");
    assert_eq!(cli.output, "report.md");
    let cli = Cli::new("Token.sol".to_string(), Some("out.md".to_string()));
    assert_eq!(cli.output, "out.md");
}

#[test]
fn choice_is_one_of_three_digits() {
    assert_eq!(parse_choice("1"), Some(RunMode::Slither));
    assert_eq!(parse_choice("2\n"), Some(RunMode::Mythril));
    assert_eq!(parse_choice("  3 \r\n"), Some(RunMode::Both));
    for bad in ["", "\n", "4", "0", "12", "1 2", "one", "１"] {
        assert_eq!(parse_choice(bad), None);
    }
}

#[test]
fn run_mode_selects_the_toolsets_in_order() {
    assert_eq!(toolsets_for(RunMode::Slither), vec![ToolKind::Slither]);
    assert_eq!(toolsets_for(RunMode::Mythril), vec![ToolKind::Mythril]);
    assert_eq!(toolsets_for(RunMode::Both), vec![ToolKind::Slither, ToolKind::Mythril]);
}

#[test]
fn install_is_confirmed_by_the_letter_y() {
    for yes in ["y", "Y", "y\n", "  Y \r\n"] {
        assert!(confirms_install(yes));
        assert_eq!(yes.trim().to_lowercase(), "y");
    }
    for no in ["", "\n", "n", "yes", "yy", "N", "y y"] {
        assert!(!confirms_install(no));
        assert_ne!(no.trim().to_lowercase(), "y");
    }
}
