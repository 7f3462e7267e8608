use devenv::cli::{Cli, CliError, Commands};

fn words(list: &[&str]) -> Vec<String> {
    list.iter().map(|w| w.to_string()).collect()
}

#[test]
fn parses_start_open_default_and_flags() {
    let cli = Cli::parse_from(&words(&["devenv", "start", "--open"])).unwrap();
    match cli.command {
        Commands::Start(args) => {
            assert_eq!(args.open.as_deref(), Some("zed"));
            assert!(!args.attach);
            assert!(!args.rebuild);
            assert!(!args.no_build);
            assert!(args.name.is_none());
        }
        _ => panic!("expected start"),
    }
}

#[test]
fn parses_start_open_explicit_command() {
    let cli = Cli::parse_from(&words(&["devenv", "start", "--open", "code", "myenv"])).unwrap();
    match cli.command {
        Commands::Start(args) => {
            assert_eq!(args.open.as_deref(), Some("code"));
            assert_eq!(args.name.as_deref(), Some("myenv"));
        }
        _ => panic!("expected start"),
    }
}

#[test]
fn parses_build_with_pull_and_rebuild() {
    let cli = Cli::parse_from(&words(&["devenv", "build", "--pull", "--rebuild", "proj"])).unwrap();
    match cli.command {
        Commands::Build(args) => {
            assert!(args.pull);
            assert!(args.rebuild);
            assert_eq!(args.name.as_deref(), Some("proj"));
        }
        _ => panic!("expected build"),
    }
}

#[test]
fn parses_open_with_equals_sign() {
    let cli = Cli::parse_from(&words(&["devenv", "restart", "--open=code", "--attach", "--no-build"])).unwrap();
    assert!(!cli.verbose);
    match cli.command {
        Commands::Restart(args) => {
            assert_eq!(args.open.as_deref(), Some("code"));
            assert!(args.attach);
            assert!(args.no_build);
            assert!(!args.rebuild);
            assert!(args.name.is_none());
        }
        _ => panic!("expected restart"),
    }
}

#[test]
fn open_takes_no_option_as_its_value() {
    let cli = Cli::parse_from(&words(&["devenv", "start", "myenv", "--open", "--rebuild"])).unwrap();
    match cli.command {
        Commands::Start(args) => {
            assert_eq!(args.open.as_deref(), Some("zed"));
            assert_eq!(args.name.as_deref(), Some("myenv"));
            assert!(args.rebuild);
        }
        _ => panic!("expected start"),
    }
}

#[test]
fn verbose_may_stand_anywhere() {
    let before = Cli::parse_from(&words(&["devenv", "-v", "list"])).unwrap();
    assert!(before.verbose);
    assert!(matches!(before.command, Commands::List));
    let after = Cli::parse_from(&words(&["devenv", "stop", "web", "--verbose"])).unwrap();
    assert!(after.verbose);
    match after.command {
        Commands::Stop { name } => assert_eq!(name.as_deref(), Some("web")),
        _ => panic!("expected stop"),
    }
}

#[test]
fn parses_commands_with_optional_name() {
    match Cli::parse_from(&words(&["devenv", "init", "/tmp/demo"])).unwrap().command {
        Commands::Init { path } => assert_eq!(path.as_deref(), Some("/tmp/demo")),
        _ => panic!("expected init"),
    }
    match Cli::parse_from(&words(&["devenv", "init"])).unwrap().command {
        Commands::Init { path } => assert!(path.is_none()),
        _ => panic!("expected init"),
    }
    match Cli::parse_from(&words(&["devenv", "remove", "demo"])).unwrap().command {
        Commands::Remove { name } => assert_eq!(name.as_deref(), Some("demo")),
        _ => panic!("expected remove"),
    }
    match Cli::parse_from(&words(&["devenv", "attach"])).unwrap().command {
        Commands::Attach { name } => assert!(name.is_none()),
        _ => panic!("expected attach"),
    }
}

#[test]
fn refuses_a_line_without_command() {
    assert_eq!(Cli::parse_from(&words(&["devenv"])).err(), Some(CliError::MissingCommand));
    assert_eq!(Cli::parse_from(&words(&["devenv", "-v"])).err(), Some(CliError::MissingCommand));
    assert_eq!(Cli::parse_from(&words(&[])).err(), Some(CliError::MissingCommand));
}

#[test]
fn refuses_an_unknown_command() {
    assert_eq!(Cli::parse_from(&words(&["devenv", "launch"])).err(), Some(CliError::UnknownCommand(1)));
}

#[test]
fn refuses_an_unknown_option() {
    assert_eq!(Cli::parse_from(&words(&["devenv", "start", "--pull"])).err(), Some(CliError::UnknownOption(2)));
    assert_eq!(Cli::parse_from(&words(&["devenv", "build", "--attach"])).err(), Some(CliError::UnknownOption(2)));
    assert_eq!(Cli::parse_from(&words(&["devenv", "stop", "--rebuild"])).err(), Some(CliError::UnknownOption(2)));
    assert_eq!(Cli::parse_from(&words(&["devenv", "--attach", "start"])).err(), Some(CliError::UnknownOption(1)));
}

#[test]
fn refuses_a_second_name() {
    assert_eq!(
        Cli::parse_from(&words(&["devenv", "stop", "a", "b"])).err(),
        Some(CliError::UnexpectedArgument(3))
    );
    assert_eq!(Cli::parse_from(&words(&["devenv", "list", "a"])).err(), Some(CliError::UnexpectedArgument(2)));
}

#[test]
fn refuses_a_repeated_option() {
    assert_eq!(
        Cli::parse_from(&words(&["devenv", "start", "--attach", "--attach"])).err(),
        Some(CliError::RepeatedOption(3))
    );
    assert_eq!(
        Cli::parse_from(&words(&["devenv", "start", "--open", "code", "--open=zed"])).err(),
        Some(CliError::RepeatedOption(4))
    );
    assert_eq!(Cli::parse_from(&words(&["devenv", "-v", "list", "-v"])).err(), Some(CliError::RepeatedOption(3)));
}
