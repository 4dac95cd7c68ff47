use sudoaudit::command::{Command, ProcessOutput};
use sudoaudit::compiler::{extract_bytecode, plan_compile, select_bytecode, CompileError};
use sudoaudit::paths::Platform;

fn output(code: Option<i32>, stdout: &[u8], stderr: &[u8]) -> ProcessOutput {
    ProcessOutput { exit_code: code, stdout: stdout.to_vec(), stderr: stderr.to_vec() }
}

#[test]
fn compiler_is_called_with_the_pinned_version() {
    let c = plan_compile("Token.sol", "/d/mythril-env", Platform::Posix, "/usr/bin:/bin");
    assert_eq!(
        c,
        Command {
            program: "/d/mythril-env/bin/solc".to_string(),
            args: vec!["--bin".to_string(), "--optimize".to_string(), "Token.sol".to_string()],
            env: vec![
                ("PATH".to_string(), "/d/mythril-env/bin:/usr/bin:/bin".to_string()),
                ("SOLC_VERSION".to_string(), "0.8.20".to_string()),
            ],
        }
    );
}

#[test]
fn bytecode_is_the_last_non_blank_line() {
    let out = b"\n======= Token.sol:Token =======\nBinary:\n608060405234801561001057600080fd5b50\n\n";
    assert_eq!(
        extract_bytecode(&output(Some(0), out, b"")),
        Ok("608060405234801561001057600080fd5b50".to_string())
    );
    assert_eq!(extract_bytecode(&output(Some(0), b"6080\r\n", b"warning")), Ok("6080".to_string()));
    assert_eq!(extract_bytecode(&output(Some(0), b"a\n b \n", b"")), Ok(" b ".to_string()));
}

#[test]
fn failed_compiler_carries_its_standard_error() {
    assert_eq!(
        extract_bytecode(&output(Some(1), b"6080\n", b"ParserError: expected ';'")),
        Err(CompileError::CompileFailed { stderr: "ParserError: expected ';'".to_string() })
    );
    assert_eq!(
        extract_bytecode(&output(None, b"6080\n", b"")),
        Err(CompileError::CompileFailed { stderr: String::new() })
    );
}

#[test]
fn output_without_a_line_holds_no_bytecode() {
    assert_eq!(extract_bytecode(&output(Some(0), b"", b"")), Err(CompileError::NoBytecode));
    assert_eq!(extract_bytecode(&output(Some(0), b"\n \r\n\t\n", b"")), Err(CompileError::NoBytecode));
}

#[test]
fn output_that_is_not_text_is_unreadable() {
    assert_eq!(extract_bytecode(&output(Some(0), &[0x36, 0xff, 0x0a], b"")), Err(CompileError::UnreadableOutput));
}

#[test]
fn bytecode_line_keeps_non_ascii_text() {
    let out = "é\n🚨 x\n".as_bytes();
    assert_eq!(extract_bytecode(&output(Some(0), out, b"")), Ok("🚨 x".to_string()));
}

#[test]
fn bytecode_from_streams_that_are_already_text() {
    assert_eq!(select_bytecode(Some(0), Some("a\nb\n\n".to_string()), String::new()), Ok("b".to_string()));
    assert_eq!(select_bytecode(Some(0), None, String::new()), Err(CompileError::UnreadableOutput));
    assert_eq!(select_bytecode(Some(0), Some(" \n".to_string()), "w".to_string()), Err(CompileError::NoBytecode));
    assert_eq!(
        select_bytecode(Some(3), Some("6080".to_string()), "w".to_string()),
        Err(CompileError::CompileFailed { stderr: "w".to_string() })
    );
    assert_eq!(
        select_bytecode(None, None, "killed".to_string()),
        Err(CompileError::CompileFailed { stderr: "killed".to_string() })
    );
}
