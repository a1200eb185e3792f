use vstd::prelude::*;
use crate::text::str_eq;
use vstd::string::StrSliceExecFns;

verus! {

/// The parsed command line: one subcommand.
#[derive(Debug)]
pub struct Cli {
    pub command: Commands,
}

/// The three subcommands of the tool.
#[derive(Debug)]
pub enum Commands {
    /// Create a workspace for a task.
    Start { task_name: String, config: String },
    /// Browse or print the existing workspaces.
    List { config: String, print_path_only: bool },
    /// Write a configuration template.
    Init { output: String },
}

/// A rejected command line, with a short reason.
#[derive(Debug)]
pub struct CliError {
    pub message: String,
}

/// The configuration file used when none is named.
pub open spec fn default_config_file() -> Seq<char> {
    "workspace.yml"@
}

/// The views of the raw arguments.
pub open spec fn views_of(args: Seq<&str>) -> Seq<Seq<char>> {
    args.map_values(|s: &str| s@)
}

/// Grammar of the arguments after `start`: one required positional task
/// name, and `--config`/`-c` with a value (the last occurrence wins);
/// anything else is rejected.  Yields the task name and the configuration
/// path.
pub open spec fn start_grammar(
    rest: Seq<Seq<char>>,
    task: Option<Seq<char>>,
    config: Option<Seq<char>>,
) -> Option<(Seq<char>, Seq<char>)>
    decreases rest.len(),
{
    if rest.len() == 0 {
        match task {
            Some(t) => Some(
                (
                    t,
                    match config {
                        Some(c) => c,
                        None => default_config_file(),
                    },
                ),
            ),
            None => None,
        }
    } else {
        let a = rest[0];
        if a == "--config"@ || a == "-c"@ {
            if rest.len() >= 2 {
                start_grammar(rest.skip(2), task, Some(rest[1]))
            } else {
                None
            }
        } else if a.len() > 0 && a[0] == '-' {
            None
        } else {
            match task {
                Some(t) => None,
                None => start_grammar(rest.skip(1), Some(a), config),
            }
        }
    }
}

/// Grammar of the arguments after `list`: `--config`/`-c` with a value and
/// the flag `--path-only`/`-p`; anything else is rejected.  Yields the
/// configuration path and the flag.
pub open spec fn list_grammar(
    rest: Seq<Seq<char>>,
    config: Option<Seq<char>>,
    path_only: bool,
) -> Option<(Seq<char>, bool)>
    decreases rest.len(),
{
    if rest.len() == 0 {
        Some(
            (
                match config {
                    Some(c) => c,
                    None => default_config_file(),
                },
                path_only,
            ),
        )
    } else {
        let a = rest[0];
        if a == "--config"@ || a == "-c"@ {
            if rest.len() >= 2 {
                list_grammar(rest.skip(2), Some(rest[1]), path_only)
            } else {
                None
            }
        } else if a == "--path-only"@ || a == "-p"@ {
            list_grammar(rest.skip(1), config, true)
        } else {
            None
        }
    }
}

/// Grammar of the arguments after `init`: `--output`/`-o` with a value;
/// anything else is rejected.  Yields the output path.
pub open spec fn init_grammar(rest: Seq<Seq<char>>, output: Option<Seq<char>>) -> Option<Seq<char>>
    decreases rest.len(),
{
    if rest.len() == 0 {
        Some(
            match output {
                Some(o) => o,
                None => default_config_file(),
            },
        )
    } else {
        let a = rest[0];
        if a == "--output"@ || a == "-o"@ {
            if rest.len() >= 2 {
                init_grammar(rest.skip(2), Some(rest[1]))
            } else {
                None
            }
        } else {
            None
        }
    }
}

fn parse_start_rest(args: &Vec<&str>, i: usize, task: Option<String>, config: Option<String>) -> (r:
    Result<(String, String), CliError>)
    requires
        i <= args@.len(),
    ensures
        ({
            let g = start_grammar(
                views_of(args@).skip(i as int),
                match task {
                    Some(t) => Some(t@),
                    None => None,
                },
                match config {
                    Some(c) => Some(c@),
                    None => None,
                },
            );
            match r {
                Ok(p) => g matches Some(q) && q.0 == p.0@ && q.1 == p.1@,
                Err(e) => g is None,
            }
        }),
    decreases args@.len() - i,
{
    proof {
        assert(views_of(args@).skip(i as int).len() == args@.len() - i);
    }
    if i == args.len() {
        match task {
            Some(t) => {
                let c = match config {
                    Some(c) => c,
                    None => "workspace.yml".to_owned(),
                };
                Ok((t, c))
            },
            None => Err(
                CliError { message: "missing required argument: task name".to_owned() },
            ),
        }
    } else {
        let arg: &str = args[i];
        proof {
            assert(views_of(args@).skip(i as int)[0] == views_of(args@)[i as int]);
            assert(views_of(args@)[i as int] == args@[i as int]@);
            if i as int + 1 < args@.len() {
                assert(views_of(args@).skip(i as int)[1] == args@[i as int + 1]@);
            }
            assert(views_of(args@).skip(i as int).skip(1) =~= views_of(args@).skip(i as int + 1));
            if i as int + 2 <= args@.len() {
                assert(views_of(args@).skip(i as int).skip(2) =~= views_of(args@).skip(
                    i as int + 2,
                ));
            }
        }
        if str_eq(arg, "--config") || str_eq(arg, "-c") {
            if i + 1 < args.len() {
                let value: &str = args[i + 1];
                parse_start_rest(args, i + 2, task, Some(value.to_owned()))
            } else {
                Err(CliError { message: "missing value for --config".to_owned() })
            }
        } else if arg.unicode_len() > 0 && arg.get_char(0) == '-' {
            Err(CliError { message: "unrecognized option".to_owned() })
        } else {
            match task {
                Some(t) => Err(
                    CliError { message: "unexpected extra argument".to_owned() },
                ),
                None => parse_start_rest(args, i + 1, Some(arg.to_owned()), config),
            }
        }
    }
}

fn parse_list_rest(args: &Vec<&str>, i: usize, config: Option<String>, path_only: bool) -> (r:
    Result<(String, bool), CliError>)
    requires
        i <= args@.len(),
    ensures
        ({
            let g = list_grammar(
                views_of(args@).skip(i as int),
                match config {
                    Some(c) => Some(c@),
                    None => None,
                },
                path_only,
            );
            match r {
                Ok(p) => g matches Some(q) && q.0 == p.0@ && q.1 == p.1,
                Err(e) => g is None,
            }
        }),
    decreases args@.len() - i,
{
    proof {
        assert(views_of(args@).skip(i as int).len() == args@.len() - i);
    }
    if i == args.len() {
        let c = match config {
            Some(c) => c,
            None => "workspace.yml".to_owned(),
        };
        Ok((c, path_only))
    } else {
        let arg: &str = args[i];
        proof {
            assert(views_of(args@).skip(i as int)[0] == args@[i as int]@);
            if i as int + 1 < args@.len() {
                assert(views_of(args@).skip(i as int)[1] == args@[i as int + 1]@);
            }
            assert(views_of(args@).skip(i as int).skip(1) =~= views_of(args@).skip(i as int + 1));
            if i as int + 2 <= args@.len() {
                assert(views_of(args@).skip(i as int).skip(2) =~= views_of(args@).skip(
                    i as int + 2,
                ));
            }
        }
        if str_eq(arg, "--config") || str_eq(arg, "-c") {
            if i + 1 < args.len() {
                let value: &str = args[i + 1];
                parse_list_rest(args, i + 2, Some(value.to_owned()), path_only)
            } else {
                Err(CliError { message: "missing value for --config".to_owned() })
            }
        } else if str_eq(arg, "--path-only") || str_eq(arg, "-p") {
            parse_list_rest(args, i + 1, config, true)
        } else {
            Err(CliError { message: "unrecognized argument".to_owned() })
        }
    }
}

fn parse_init_rest(args: &Vec<&str>, i: usize, output: Option<String>) -> (r: Result<
    String,
    CliError,
>)
    requires
        i <= args@.len(),
    ensures
        ({
            let g = init_grammar(
                views_of(args@).skip(i as int),
                match output {
                    Some(o) => Some(o@),
                    None => None,
                },
            );
            match r {
                Ok(p) => g matches Some(q) && q == p@,
                Err(e) => g is None,
            }
        }),
    decreases args@.len() - i,
{
    proof {
        assert(views_of(args@).skip(i as int).len() == args@.len() - i);
    }
    if i == args.len() {
        let o = match output {
            Some(o) => o,
            None => "workspace.yml".to_owned(),
        };
        Ok(o)
    } else {
        let arg: &str = args[i];
        proof {
            assert(views_of(args@).skip(i as int)[0] == args@[i as int]@);
            if i as int + 1 < args@.len() {
                assert(views_of(args@).skip(i as int)[1] == args@[i as int + 1]@);
            }
            if i as int + 2 <= args@.len() {
                assert(views_of(args@).skip(i as int).skip(2) =~= views_of(args@).skip(
                    i as int + 2,
                ));
            }
        }
        if str_eq(arg, "--output") || str_eq(arg, "-o") {
            if i + 1 < args.len() {
                let value: &str = args[i + 1];
                parse_init_rest(args, i + 2, Some(value.to_owned()))
            } else {
                Err(CliError { message: "missing value for --output".to_owned() })
            }
        } else {
            Err(CliError { message: "unrecognized argument".to_owned() })
        }
    }
}

impl Cli {
    /// Parse a full argument list (the leading program name included) into
    /// a subcommand, rejecting anything outside the fixed surface.
    pub fn try_parse_from(args: Vec<&str>) -> (r: Result<Cli, CliError>)
        ensures
            ({
                let v = views_of(args@);
                if v.len() < 2 {
                    r is Err
                } else if v[1] == "start"@ {
                    match start_grammar(v.skip(2), None, None) {
                        Some(p) => r matches Ok(c) && (c.command matches Commands::Start {
                            task_name,
                            config,
                        } && task_name@ == p.0 && config@ == p.1),
                        None => r is Err,
                    }
                } else if v[1] == "list"@ {
                    match list_grammar(v.skip(2), None, false) {
                        Some(p) => r matches Ok(c) && (c.command matches Commands::List {
                            config,
                            print_path_only,
                        } && config@ == p.0 && print_path_only == p.1),
                        None => r is Err,
                    }
                } else if v[1] == "init"@ {
                    match init_grammar(v.skip(2), None) {
                        Some(p) => r matches Ok(c) && (c.command matches Commands::Init { output }
                            && output@ == p),
                        None => r is Err,
                    }
                } else {
                    r is Err
                }
            }),
    {
        proof {
            assert(views_of(args@).len() == args@.len());
        }
        if args.len() < 2 {
            return Err(CliError { message: "a subcommand is required".to_owned() });
        }
        let sub: &str = args[1];
        proof {
            assert(views_of(args@)[1] == args@[1int]@);
        }
        if str_eq(sub, "start") {
            match parse_start_rest(&args, 2, None, None) {
                Ok((task_name, config)) => Ok(
                    Cli { command: Commands::Start { task_name, config } },
                ),
                Err(e) => Err(e),
            }
        } else if str_eq(sub, "list") {
            match parse_list_rest(&args, 2, None, false) {
                Ok((config, print_path_only)) => Ok(
                    Cli { command: Commands::List { config, print_path_only } },
                ),
                Err(e) => Err(e),
            }
        } else if str_eq(sub, "init") {
            match parse_init_rest(&args, 2, None) {
                Ok(output) => Ok(Cli { command: Commands::Init { output } }),
                Err(e) => Err(e),
            }
        } else {
            Err(CliError { message: "unrecognized subcommand".to_owned() })
        }
    }
}

} // verus!
