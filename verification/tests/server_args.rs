use nodeget::server_args::{ArgsError, ServerArgs};

fn parse(args: &[&str]) -> Result<ServerArgs, ArgsError> {
    let v: Vec<String> = args.iter().map(|s| s.to_string()).collect();
    ServerArgs::par(&v)
}

fn config(args: &[&str]) -> String {
    match parse(args) {
        Ok(a) => a.config,
        Err(e) => panic!("unexpected {e:?}"),
    }
}

#[test]
fn default_config_file() {
    assert_eq!(config(&[]), "config.toml");
    assert_eq!(config(&["--"]), "config.toml");
}

#[test]
fn config_forms() {
    assert_eq!(config(&["--config", "a.toml"]), "a.toml");
    assert_eq!(config(&["--config=b.toml"]), "b.toml");
    assert_eq!(config(&["--config="]), "");
    assert_eq!(config(&["-c", "c.toml"]), "c.toml");
    assert_eq!(config(&["-cd.toml"]), "d.toml");
    assert_eq!(config(&["-c=e.toml"]), "e.toml");
    assert_eq!(config(&["-c", "-"]), "-");
    assert_eq!(config(&["--config", "x=y"]), "x=y");
    assert_eq!(config(&["-c", "f.toml", "--"]), "f.toml");
}

#[test]
fn help_requests() {
    assert!(matches!(parse(&["-h"]), Err(ArgsError::Help)));
    assert!(matches!(parse(&["--help"]), Err(ArgsError::Help)));
    assert!(matches!(parse(&["--help=1"]), Err(ArgsError::Help)));
}

#[test]
fn rejected_command_lines() {
    assert!(matches!(parse(&["--config"]), Err(ArgsError::MissingValue)));
    assert!(matches!(parse(&["-c", "--other"]), Err(ArgsError::MissingValue)));
    assert!(matches!(parse(&["-c", "a", "-c", "b"]), Err(ArgsError::DuplicatedNamedArgument)));
    match parse(&["--verbose"]) {
        Err(ArgsError::UnknownNamedArgument(s)) => assert_eq!(s, "--verbose"),
        other => panic!("unexpected {other:?}"),
    }
    match parse(&["--h"]) {
        Err(ArgsError::UnknownNamedArgument(s)) => assert_eq!(s, "--h"),
        other => panic!("unexpected {other:?}"),
    }
    match parse(&["-x"]) {
        Err(ArgsError::UnknownNamedArgument(s)) => assert_eq!(s, "-x"),
        other => panic!("unexpected {other:?}"),
    }
    match parse(&["file.toml"]) {
        Err(ArgsError::ExtraUnnamedArgument(s)) => assert_eq!(s, "file.toml"),
        other => panic!("unexpected {other:?}"),
    }
    match parse(&["--", "x"]) {
        Err(ArgsError::ExtraUnnamedArgument(s)) => assert_eq!(s, "x"),
        other => panic!("unexpected {other:?}"),
    }
    match parse(&["-"]) {
        Err(ArgsError::ExtraUnnamedArgument(s)) => assert_eq!(s, "-"),
        other => panic!("unexpected {other:?}"),
    }
}
