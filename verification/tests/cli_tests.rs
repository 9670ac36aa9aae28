use grip_grab::cli::{process_cli_args, Cli, Commands, ConfigurationError, PostProcessedCli};
use grip_grab::printer::PrintMode;

fn base_cli() -> Cli {
    Cli {
        pattern: None,
        patterns: vec![],
        paths: vec![],
        ignore_paths: vec![],
        disregard_gitignore: false,
        n_threads: 4,
        multiline: false,
        json: false,
        file_paths_only: false,
        absolute_paths: false,
        disable_colored_output: false,
        filter_filetypes: vec![],
        disable_hyperlinks: false,
        sub_command: None,
    }
}

#[test]
fn missing_pattern_is_rejected() {
    let outcome = process_cli_args(base_cli());
    assert_eq!(outcome.unwrap_err(), ConfigurationError::MissingPattern);
}

#[test]
fn error_message_names_the_pattern_argument() {
    let e = ConfigurationError::MissingPattern;
    assert_eq!(
        e.message(),
        "error: the following required arguments were not provided: <PATTERN>"
    );
}

#[test]
fn positional_argument_is_the_pattern() {
    let mut cli = base_cli();
    cli.pattern = Some(String::from("needle"));
    let p = process_cli_args(cli).unwrap();
    assert_eq!(p.patterns, vec![String::from("needle")]);
    assert_eq!(p.paths, vec![String::from(".")]);
    assert_eq!(p.n_threads, 4);
    assert!(p.colored_output);
    assert_eq!(p.print_mode, PrintMode::Text);
    assert!(p.sub_command.is_none());
}

#[test]
fn positional_argument_is_a_path_beside_explicit_patterns() {
    let mut cli = base_cli();
    cli.patterns = vec![String::from("a"), String::from("b")];
    cli.pattern = Some(String::from("src"));
    cli.paths = vec![String::from("docs")];
    let p = process_cli_args(cli).unwrap();
    assert_eq!(p.patterns, vec![String::from("a"), String::from("b")]);
    assert_eq!(p.paths, vec![String::from("docs"), String::from("src")]);
}

#[test]
fn explicit_patterns_alone_search_the_default_path() {
    let mut cli = base_cli();
    cli.patterns = vec![String::from("a")];
    let p = process_cli_args(cli).unwrap();
    assert_eq!(p.paths, vec![String::from(".")]);
}

#[test]
fn print_mode_resolution() {
    let mut cli = base_cli();
    cli.pattern = Some(String::from("x"));
    cli.json = true;
    cli.file_paths_only = true;
    let p = process_cli_args(cli).unwrap();
    assert_eq!(p.print_mode, PrintMode::Json);

    let mut cli = base_cli();
    cli.pattern = Some(String::from("x"));
    cli.file_paths_only = true;
    let p = process_cli_args(cli).unwrap();
    assert_eq!(p.print_mode, PrintMode::Files);
}

#[test]
fn flags_carry_over() {
    let mut cli = base_cli();
    cli.pattern = Some(String::from("x"));
    cli.ignore_paths = vec![String::from("/tmp/skip")];
    cli.disregard_gitignore = true;
    cli.multiline = true;
    cli.absolute_paths = true;
    cli.disable_colored_output = true;
    cli.filter_filetypes = vec![String::from("rust")];
    cli.disable_hyperlinks = true;
    let p = process_cli_args(cli).unwrap();
    assert_eq!(p.ignored_paths, vec![String::from("/tmp/skip")]);
    assert!(p.disregard_gitignore);
    assert!(p.multiline);
    assert!(p.absolute_paths);
    assert!(!p.colored_output);
    assert_eq!(p.filter_filetypes, vec![String::from("rust")]);
    assert!(p.disable_hyperlinks);
}

#[test]
fn subcommand_passes_through_on_defaults() {
    let mut cli = base_cli();
    cli.sub_command = Some(Commands::Upgrade { force: true });
    let p = process_cli_args(cli).unwrap();
    assert_eq!(p.sub_command, Some(Commands::Upgrade { force: true }));
    assert!(p.patterns.is_empty());
    assert!(p.paths.is_empty());
    assert_eq!(p.n_threads, 1);
}

#[test]
fn default_configuration_values() {
    let d = PostProcessedCli::default();
    assert!(d.patterns.is_empty());
    assert!(d.paths.is_empty());
    assert!(d.ignored_paths.is_empty());
    assert_eq!(d.n_threads, 1);
    assert!(!d.disregard_gitignore);
    assert!(!d.multiline);
    assert_eq!(d.print_mode, PrintMode::Text);
    assert!(!d.absolute_paths);
    assert!(d.colored_output);
    assert!(d.filter_filetypes.is_empty());
    assert!(!d.disable_hyperlinks);
    assert!(d.sub_command.is_none());
}
