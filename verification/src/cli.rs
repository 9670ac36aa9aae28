//! The normalized configuration that the command line resolves to. Flag
//! parsing itself happens outside the library; what arrives here is the raw
//! argument record, and what leaves is the validated, normalized
//! configuration the search pipeline runs on. Path canonicalization is
//! filesystem work and is the caller's step, after this one.

use vstd::prelude::*;

use crate::printer::PrintMode;

verus! {

/// The default search root when none is given: the current directory.
pub open spec fn spec_default_path() -> Seq<char> {
    "."@
}

/// Subcommands beside searching: self-upgrade, and the interactive screen.
#[derive(Debug, Clone, Copy, PartialEq, Eq, Structural)]
pub enum Commands {
    Upgrade { force: bool },
    Interactive,
}

/// The raw command line: one optional positional argument, repeatable
/// pattern and filter flags, and the search switches.
#[derive(Debug, Clone)]
pub struct Cli {
    pub pattern: Option<String>,
    pub patterns: Vec<String>,
    pub paths: Vec<String>,
    pub ignore_paths: Vec<String>,
    pub disregard_gitignore: bool,
    pub n_threads: usize,
    pub multiline: bool,
    pub json: bool,
    pub file_paths_only: bool,
    pub absolute_paths: bool,
    pub disable_colored_output: bool,
    pub filter_filetypes: Vec<String>,
    pub disable_hyperlinks: bool,
    pub sub_command: Option<Commands>,
}

/// The fatal error raised before any traversal starts: the command line
/// named no pattern at all.
#[derive(Debug, Clone, Copy, PartialEq, Eq, Structural)]
pub enum ConfigurationError {
    MissingPattern,
}

impl ConfigurationError {
    /// The message the command line reports for this error.
    pub fn message(&self) -> (r: String)
        ensures
            r@ == "error: the following required arguments were not provided: <PATTERN>"@,
    {
        String::from_str("error: the following required arguments were not provided: <PATTERN>")
    }
}

/// The normalized, immutable configuration one search run takes as input.
#[derive(Debug, Clone)]
pub struct PostProcessedCli {
    pub patterns: Vec<String>,
    pub paths: Vec<String>,
    pub ignored_paths: Vec<String>,
    pub n_threads: usize,
    pub disregard_gitignore: bool,
    pub multiline: bool,
    pub print_mode: PrintMode,
    pub absolute_paths: bool,
    pub colored_output: bool,
    pub filter_filetypes: Vec<String>,
    pub disable_hyperlinks: bool,
    pub sub_command: Option<Commands>,
}

impl Default for PostProcessedCli {
    /// A single-threaded plain-text search of nothing: the base that a
    /// subcommand invocation carries.
    fn default() -> (c: PostProcessedCli)
        ensures
            c.patterns@.len() == 0,
            c.paths@.len() == 0,
            c.ignored_paths@.len() == 0,
            c.n_threads == 1,
            !c.disregard_gitignore,
            !c.multiline,
            c.print_mode == PrintMode::Text,
            !c.absolute_paths,
            c.colored_output,
            c.filter_filetypes@.len() == 0,
            !c.disable_hyperlinks,
            c.sub_command is None,
    {
        PostProcessedCli {
            patterns: Vec::new(),
            paths: Vec::new(),
            ignored_paths: Vec::new(),
            n_threads: 1,
            disregard_gitignore: false,
            multiline: false,
            print_mode: PrintMode::Text,
            absolute_paths: false,
            colored_output: true,
            filter_filetypes: Vec::new(),
            disable_hyperlinks: false,
            sub_command: None,
        }
    }
}

/// The command line names no pattern: no `-e` flag and no positional
/// argument, with no subcommand to excuse them.
pub open spec fn spec_missing_pattern(cli: Cli) -> bool {
    cli.sub_command is None && cli.patterns@.len() == 0 && cli.pattern is None
}

/// The pattern set a valid command line resolves to: the `-e` patterns, or
/// else the positional argument.
pub open spec fn spec_processed_patterns(cli: Cli) -> Seq<Seq<char>> {
    if cli.patterns@.len() > 0 {
        cli.patterns.deep_view()
    } else {
        seq![cli.pattern->Some_0@]
    }
}

/// The search roots a valid command line resolves to. With `-e` patterns
/// given, a positional argument is a path and joins the list; with `-e`
/// patterns but no positional argument the default path stands alone; and a
/// list left empty falls back to the default path.
pub open spec fn spec_processed_paths(cli: Cli) -> Seq<Seq<char>> {
    let adjusted = if cli.patterns@.len() > 0 {
        match cli.pattern {
            Option::Some(p) => cli.paths.deep_view().push(p@),
            Option::None => seq![spec_default_path()],
        }
    } else {
        cli.paths.deep_view()
    };
    if adjusted.len() == 0 {
        seq![spec_default_path()]
    } else {
        adjusted
    }
}

/// The output mode the flags resolve to: JSON wins over the file-list form,
/// and plain text is the default.
pub open spec fn spec_print_mode(json: bool, file_paths_only: bool) -> PrintMode {
    if json {
        PrintMode::Json
    } else if file_paths_only {
        PrintMode::Files
    } else {
        PrintMode::Text
    }
}

/// Validate and normalize the raw command line. A subcommand passes through
/// on an otherwise default configuration. A search invocation must name at
/// least one pattern — by `-e` or positionally — or it fails with
/// `ConfigurationError::MissingPattern` before anything runs; the positional
/// argument is a pattern when no `-e` pattern is given and a path otherwise,
/// and a missing path list falls back to the current directory.
pub fn process_cli_args(cli: Cli) -> (r: Result<PostProcessedCli, ConfigurationError>)
    ensures
        r is Err <==> spec_missing_pattern(cli),
        r matches Err(e) ==> e == ConfigurationError::MissingPattern,
        r matches Ok(p) ==> p.sub_command == cli.sub_command,
        r matches Ok(p) ==> cli.sub_command is Some ==> (p.patterns@.len() == 0 && p.paths@.len()
            == 0 && p.ignored_paths@.len() == 0 && p.n_threads == 1 && !p.disregard_gitignore
            && !p.multiline && p.print_mode == PrintMode::Text && !p.absolute_paths
            && p.colored_output && p.filter_filetypes@.len() == 0 && !p.disable_hyperlinks),
        r matches Ok(p) ==> cli.sub_command is None ==> (p.patterns.deep_view()
            == spec_processed_patterns(cli) && p.paths.deep_view() == spec_processed_paths(cli)
            && p.ignored_paths@ == cli.ignore_paths@ && p.n_threads == cli.n_threads
            && p.disregard_gitignore == cli.disregard_gitignore && p.multiline == cli.multiline
            && p.print_mode == spec_print_mode(cli.json, cli.file_paths_only) && p.absolute_paths
            == cli.absolute_paths && p.colored_output == !cli.disable_colored_output
            && p.filter_filetypes@ == cli.filter_filetypes@ && p.disable_hyperlinks
            == cli.disable_hyperlinks),
{
    if cli.sub_command.is_some() {
        let mut base = PostProcessedCli::default();
        base.sub_command = cli.sub_command;
        return Ok(base);
    }
    let ghost given = cli;
    let Cli {
        pattern,
        patterns,
        mut paths,
        ignore_paths,
        disregard_gitignore,
        n_threads,
        multiline,
        json,
        file_paths_only,
        absolute_paths,
        disable_colored_output,
        filter_filetypes,
        disable_hyperlinks,
        sub_command,
    } = cli;
    let resolved_patterns: Vec<String>;
    if patterns.len() == 0 {
        match pattern {
            Option::None => {
                return Err(ConfigurationError::MissingPattern);
            },
            Option::Some(p) => {
                let mut only: Vec<String> = Vec::new();
                only.push(p);
                resolved_patterns = only;
                proof {
                    assert(resolved_patterns.deep_view() =~= spec_processed_patterns(given));
                }
            },
        }
    } else {
        match pattern {
            Option::Some(p) => {
                paths.push(p);
                proof {
                    assert(paths.deep_view() =~= given.paths.deep_view().push(
                        given.pattern->Some_0@,
                    ));
                }
            },
            Option::None => {
                paths = Vec::new();
                paths.push(String::from_str("."));
                proof {
                    assert(paths.deep_view() =~= seq![spec_default_path()]);
                }
            },
        }
        resolved_patterns = patterns;
    }
    if paths.len() == 0 {
        paths.push(String::from_str("."));
        proof {
            assert(paths.deep_view() =~= seq![spec_default_path()]);
        }
    }
    Ok(
        PostProcessedCli {
            patterns: resolved_patterns,
            paths,
            ignored_paths: ignore_paths,
            n_threads,
            disregard_gitignore,
            multiline,
            print_mode: if json {
                PrintMode::Json
            } else if file_paths_only {
                PrintMode::Files
            } else {
                PrintMode::Text
            },
            absolute_paths,
            colored_output: !disable_colored_output,
            filter_filetypes,
            disable_hyperlinks,
            sub_command,
        },
    )
}

} // verus!
