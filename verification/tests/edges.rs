use rcp_cli::args::{Args, DEFAULT_PORT};
use rcp_cli::error::ParseError;

/// Builds the full argument vector, program name first, and parses it.
fn rcp(tokens: &[&str]) -> Result<Args, ParseError> {
    let mut v: Vec<String> = vec![String::from("rcp")];
    for t in tokens {
        v.push(String::from(*t));
    }
    Args::new(v)
}

fn expect_serve(tokens: &[&str], port: u16) {
    match rcp(tokens) {
        Ok(Args::Serve { port: p }) => assert_eq!(p, port),
        other => panic!("expected Ok(Args::Serve), got {:?}", other),
    }
}

fn expect_copy(tokens: &[&str], src: &str, dest: &str) {
    match rcp(tokens) {
        Ok(Args::Copy { src: s, dest: d }) => {
            assert_eq!(s, src);
            assert_eq!(d, dest);
        }
        other => panic!("expected Ok(Args::Copy), got {:?}", other),
    }
}

fn expect_invalid_value(tokens: &[&str], text: &str) {
    match rcp(tokens) {
        Err(ParseError::InvalidValue { text: t }) => assert_eq!(t, text),
        other => panic!("expected Err(InvalidValue), got {:?}", other),
    }
}

#[test]
fn attached_port_values() {
    expect_serve(&["--port=1234"], 1234);
    expect_serve(&["-p1234"], 1234);
    expect_serve(&["-p=1234"], 1234);
}

#[test]
fn port_boundaries() {
    expect_serve(&["-p", "65535"], 65535);
    expect_serve(&["-p", "0"], 0);
    expect_serve(&["-p", "+123"], 123);
    expect_serve(&["-p", "00080"], 80);
    expect_invalid_value(&["-p", "65536"], "65536");
    expect_invalid_value(&["-p", "abc"], "abc");
    expect_invalid_value(&["-p", "12a"], "12a");
    expect_invalid_value(&["-p", "+"], "+");
    expect_invalid_value(&["--port="], "");
    expect_invalid_value(&["-p", "--port"], "--port");
}

#[test]
fn no_arguments_at_all() {
    match Args::new(Vec::new()) {
        Ok(Args::Serve { port }) => assert_eq!(port, DEFAULT_PORT),
        other => panic!("expected Ok(Args::Serve), got {:?}", other),
    }
}

#[test]
fn port_flag_without_value() {
    match rcp(&["-p"]) {
        Err(ParseError::MissingValue { option }) => assert_eq!(option, "-p"),
        other => panic!("expected Err(MissingValue), got {:?}", other),
    }
    match rcp(&["--port"]) {
        Err(ParseError::MissingValue { option }) => assert_eq!(option, "--port"),
        other => panic!("expected Err(MissingValue), got {:?}", other),
    }
}

#[test]
fn unexpected_arguments() {
    match rcp(&["src", "dest", "extra"]) {
        Err(ParseError::UnexpectedArgument { text }) => assert_eq!(text, "extra"),
        other => panic!("expected Err(UnexpectedArgument), got {:?}", other),
    }
    match rcp(&["--verbose"]) {
        Err(ParseError::UnexpectedArgument { text }) => assert_eq!(text, "--verbose"),
        other => panic!("expected Err(UnexpectedArgument), got {:?}", other),
    }
    match rcp(&["-x"]) {
        Err(ParseError::UnexpectedArgument { text }) => assert_eq!(text, "-x"),
        other => panic!("expected Err(UnexpectedArgument), got {:?}", other),
    }
}

#[test]
fn one_positional_and_port_conflict() {
    match rcp(&["src", "--port", "9"]) {
        Err(ParseError::ConflictingArguments { message }) => {
            assert_eq!(message, "Cannot specify both SRC/DEST and port")
        }
        other => panic!("expected Err(ConflictingArguments), got {:?}", other),
    }
}

#[test]
fn last_port_wins() {
    expect_serve(&["-p", "1", "--port", "2"], 2);
    expect_serve(&["--port=7", "-p", "8"], 8);
}

#[test]
fn escape_marker_makes_tokens_positional() {
    expect_copy(&["--", "-p", "x"], "-p", "x");
    expect_copy(&["a", "--", "b"], "a", "b");
}

#[test]
fn dash_alone_is_positional() {
    expect_copy(&["-", "out"], "-", "out");
}

#[test]
fn reparsing_gives_identical_result() {
    let cases: &[&[&str]] = &[
        &[],
        &["src", "dest"],
        &["-p", "1234"],
        &["src"],
        &["src", "dest", "-p", "1234"],
        &["src", "dest", "extra"],
        &["-p", "65536"],
    ];
    for tokens in cases {
        assert_eq!(rcp(tokens), rcp(tokens));
    }
}
