use rcp_cli::args::{Args, DEFAULT_PORT};
use rcp_cli::error::ParseError;

/// Builds the full argument vector, program name first, and parses it.
fn rcp(tokens: &[&str]) -> Result<Args, ParseError> {
    let mut v: Vec<String> = vec![String::from("rcp")];
    for t in tokens {
        v.push(String::from(*t));
    }
    Args::new(v)
}

const PATHS: &[&str] = &[
    "file.txt",
    "/absolute/dir/",
    "/absolute/file",
    "relative/dir/",
    "./relative/../dir/",
    "relative/file",
    "./relative/../file",
];

#[test]
fn test_command_copy_ok() {
    for l in PATHS {
        for r in PATHS {
            match rcp(&[l, r]) {
                Ok(Args::Copy { src, dest }) => {
                    assert_eq!(src, String::from(*l));
                    assert_eq!(dest, String::from(*r));
                }
                other => panic!("expected Ok(Args::Copy), got {:?}", other),
            }
        }
    }
}

#[test]
fn test_command_serve_ok() {
    match rcp(&[]) {
        Ok(Args::Serve { port }) => assert_eq!(port, DEFAULT_PORT),
        other => panic!("expected Ok(Args::Serve), got {:?}", other),
    }
    match rcp(&["-p", "1234"]) {
        Ok(Args::Serve { port }) => assert_eq!(port, 1234),
        other => panic!("expected Ok(Args::Serve), got {:?}", other),
    }
    match rcp(&["--port", "1234"]) {
        Ok(Args::Serve { port }) => assert_eq!(port, 1234),
        other => panic!("expected Ok(Args::Serve), got {:?}", other),
    }
}

#[test]
fn test_command_copy_missing_dest() {
    match rcp(&["src"]) {
        Err(ParseError::MissingValue { option }) => assert_eq!(option, "DEST"),
        other => panic!("expected Err(MissingValue DEST), got {:?}", other),
    }
}

#[test]
fn test_command_conflicting_args() {
    match rcp(&["src", "dest", "-p", "1234"]) {
        Err(ParseError::ConflictingArguments { message }) => {
            assert_eq!(message, "Cannot specify both SRC/DEST and port")
        }
        other => panic!("expected Err(Custom), got {:?}", other),
    }
}
