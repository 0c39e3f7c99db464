//! The command line of the engine.

use vstd::prelude::*;
use vstd::string::StrSliceExecFns;

verus! {

/// What the command line asks for.
#[derive(Debug, Clone, PartialEq, Eq)]
pub enum CliCommand {
    /// Start the engine, with the path of the module to load when one was
    /// given.
    Run { module: Option<String> },
    /// Print the usage text and stop.
    Help,
}

/// The meaning of a `CliCommand`, with the module path as characters.
pub enum CliModel {
    Run(Option<Seq<char>>),
    Help,
}

/// The meaning of `c`.
pub open spec fn cli_view(c: CliCommand) -> CliModel {
    match c {
        CliCommand::Run { module: Some(m) } => CliModel::Run(Some(m@)),
        CliCommand::Run { module: None } => CliModel::Run(None),
        CliCommand::Help => CliModel::Help,
    }
}

/// Whether `s` begins with a dash, as options do.
pub open spec fn starts_with_dash(s: Seq<char>) -> bool {
    s.len() > 0 && s[0] == '-'
}

/// Reads the arguments from position `i` on: `-m` or `--module` takes the
/// next argument as the module path (none when there is no next one),
/// `--help` or `-h` asks for help, the first argument without a leading dash
/// is the module path, and other options are passed over.
pub open spec fn parse_from(args: Seq<Seq<char>>, i: int) -> CliModel
    decreases args.len() - i,
{
    if i >= args.len() {
        CliModel::Run(None)
    } else if args[i] == "-m"@ || args[i] == "--module"@ {
        CliModel::Run(
            if i + 1 < args.len() {
                Some(args[i + 1])
            } else {
                None
            },
        )
    } else if args[i] == "--help"@ || args[i] == "-h"@ {
        CliModel::Help
    } else if !starts_with_dash(args[i]) {
        CliModel::Run(Some(args[i]))
    } else {
        parse_from(args, i + 1)
    }
}

/// The arguments as character sequences.
pub open spec fn args_view(args: Seq<String>) -> Seq<Seq<char>> {
    args.map_values(|s: String| s@)
}

/// Whether `s` begins with a dash.
fn starts_with_dash_exec(s: &String) -> (r: bool)
    ensures
        r == starts_with_dash(s@),
{
    let text = s.as_str();
    text.unicode_len() > 0 && text.get_char(0) == '-'
}

/// Parses the command line `args`, whose first entry is the program name.
pub fn parse_args(args: &Vec<String>) -> (r: CliCommand)
    ensures
        cli_view(r) == parse_from(args_view(args@), 1),
{
    let ghost view = args_view(args@);
    let short_module = "-m".to_owned();
    let long_module = "--module".to_owned();
    let long_help = "--help".to_owned();
    let short_help = "-h".to_owned();
    let mut i: usize = 1;
    while i < args.len()
        invariant
            1 <= i,
            view == args_view(args@),
            short_module@ == "-m"@,
            long_module@ == "--module"@,
            long_help@ == "--help"@,
            short_help@ == "-h"@,
            parse_from(view, 1) == parse_from(view, i as int),
        decreases args@.len() - i,
    {
        let arg = &args[i];
        assert(view[i as int] == arg@);
        if *arg == short_module || *arg == long_module {
            if i + 1 < args.len() {
                assert(view[i + 1] == args@[i + 1]@);
                return CliCommand::Run { module: Some(args[i + 1].clone()) };
            }
            return CliCommand::Run { module: None };
        }
        if *arg == long_help || *arg == short_help {
            return CliCommand::Help;
        }
        if !starts_with_dash_exec(arg) {
            return CliCommand::Run { module: Some(arg.clone()) };
        }
        i = i + 1;
    }
    CliCommand::Run { module: None }
}

} // verus!
