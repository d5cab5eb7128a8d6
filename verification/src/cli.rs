//! Command line: what the arguments and the lines of an interactive session
//! mean. Reading and printing belong to the program around the library.

use crate::text::{
    chars_eq, chars_of, split_words, string_of, trim, trimmed, views, words,
};
use crate::types::string_views;
use vstd::prelude::*;
use vstd::string::StringExecFns;

verus! {

/// What the program was started for.
#[derive(Debug)]
pub enum Mode {
    /// An interactive session.
    Interactive,
    /// One query, optionally inside a project.
    SingleQuery {
        /// The query text.
        query: String,
        /// The project to switch to first.
        project: Option<String>,
    },
    /// Print the help text.
    Help,
    /// Print the version.
    Version,
}

/// The parsed command line.
#[derive(Debug)]
pub struct Config {
    /// What the program was started for.
    pub mode: Mode,
}

/// A command line that cannot be used.
#[derive(Clone, Copy, Debug, PartialEq, Eq, Structural)]
pub enum ArgsError {
    /// `--project` was given without a project name and a query.
    ProjectNeedsNameAndQuery,
}

/// A command of the interactive session.
#[derive(Debug)]
pub enum Command {
    /// Leave the session.
    Quit,
    /// Switch to the named project.
    Project(String),
    /// `/project` without a name: show its usage.
    ProjectUsage,
    /// Clear the conversation history.
    Clear,
    /// Show the recent history.
    History,
    /// Anything else, with the word that was not understood.
    Unknown(String),
}

/// A line of the interactive session.
#[derive(Debug)]
pub enum Input {
    /// Nothing but whitespace: skip the line.
    Empty,
    /// A line that starts with `/`.
    Command(Command),
    /// A query, without surrounding whitespace.
    Query(String),
}

/// The parts joined with single spaces.
pub open spec fn joined(parts: Seq<Seq<char>>) -> Seq<char>
    decreases parts.len(),
{
    if parts.len() == 0 {
        Seq::empty()
    } else if parts.len() == 1 {
        parts[0]
    } else {
        joined(parts.drop_last()) + " "@ + parts.last()
    }
}

/// `mode` is what the arguments ask for. The first argument is the name of
/// the program.
pub open spec fn is_mode(mode: Mode, args: Seq<Seq<char>>) -> bool {
    if args.len() <= 1 {
        mode is Interactive
    } else if args[1] == "--help"@ || args[1] == "-h"@ {
        mode is Help
    } else if args[1] == "--version"@ || args[1] == "-v"@ {
        mode is Version
    } else if args[1] == "--interactive"@ || args[1] == "-i"@ {
        mode is Interactive
    } else if args[1] == "--project"@ || args[1] == "-p"@ {
        &&& args.len() >= 4
        &&& mode matches Mode::SingleQuery { query, project }
        &&& query@ == joined(args.skip(3))
        &&& project matches Some(p)
        &&& p@ == args[2]
    } else {
        &&& mode matches Mode::SingleQuery { query, project }
        &&& query@ == joined(args.skip(1))
        &&& project is None
    }
}

/// The arguments ask for a project without naming it and a query.
pub open spec fn lacks_project_arguments(args: Seq<Seq<char>>) -> bool {
    args.len() > 1 && (args[1] == "--project"@ || args[1] == "-p"@) && args.len() < 4
}

/// `command` is what the words of a command line mean.
pub open spec fn is_command(command: Command, ws: Seq<Seq<char>>) -> bool {
    if ws.len() == 0 {
        command matches Command::Unknown(w) && w@ == Seq::<char>::empty()
    } else if ws[0] == "/quit"@ || ws[0] == "/exit"@ {
        command is Quit
    } else if ws[0] == "/project"@ {
        if ws.len() < 2 {
            command is ProjectUsage
        } else {
            command matches Command::Project(name) && name@ == ws[1]
        }
    } else if ws[0] == "/clear"@ {
        command is Clear
    } else if ws[0] == "/history"@ {
        command is History
    } else {
        command matches Command::Unknown(w) && w@ == ws[0]
    }
}

/// `input` is what a line of the session means.
pub open spec fn is_input(input: Input, line: Seq<char>) -> bool {
    let t = trimmed(line);
    if t.len() == 0 {
        input is Empty
    } else if t[0] == '/' {
        input matches Input::Command(c) && is_command(c, words(t))
    } else {
        input matches Input::Query(q) && q@ == t
    }
}

/// Joins the arguments from position `from` on with single spaces.
pub fn join(args: &Vec<String>, from: usize) -> (r: String)
    requires
        from <= args@.len(),
    ensures
        r@ == joined(string_views(args@).skip(from as int)),
{
    let ghost parts = string_views(args@).skip(from as int);
    let mut r = String::new();
    let mut i: usize = from;
    while i < args.len()
        invariant
            from <= i <= args@.len(),
            parts == string_views(args@).skip(from as int),
            r@ == joined(parts.take(i - from)),
        decreases args.len() - i,
    {
        proof {
            assert(parts.take(i - from + 1).drop_last() =~= parts.take(i - from));
            assert(parts.take(i - from + 1).last() == args@[i as int]@);
        }
        if i > from {
            r.append(" ");
        }
        r.append(args[i].as_str());
        proof {
            if i == from {
                assert(r@ =~= args@[i as int]@);
            }
        }
        i += 1;
    }
    proof {
        assert(parts.take(args@.len() - from) =~= parts);
    }
    r
}

/// The spellings of the project flag are no spellings of another flag.
proof fn lemma_flags_differ()
    ensures
        "--project"@ != "--help"@,
        "--project"@ != "-h"@,
        "--project"@ != "--version"@,
        "--project"@ != "-v"@,
        "--project"@ != "--interactive"@,
        "--project"@ != "-i"@,
        "-p"@ != "--help"@,
        "-p"@ != "-h"@,
        "-p"@ != "--version"@,
        "-p"@ != "-v"@,
        "-p"@ != "--interactive"@,
        "-p"@ != "-i"@,
{
    reveal_strlit("--project");
    reveal_strlit("-p");
    reveal_strlit("--help");
    reveal_strlit("-h");
    reveal_strlit("--version");
    reveal_strlit("-v");
    reveal_strlit("--interactive");
    reveal_strlit("-i");
    assert("--project"@[2] != "--version"@[2]);
    assert("-p"@[1] != "-h"@[1]);
    assert("-p"@[1] != "-v"@[1]);
    assert("-p"@[1] != "-i"@[1]);
}

/// Tests whether an argument is one of two spellings of a flag.
fn is_flag(arg: &Vec<char>, long: &str, short: &str) -> (b: bool)
    ensures
        b == (arg@ == long@ || arg@ == short@),
{
    chars_eq(arg, &chars_of(long)) || chars_eq(arg, &chars_of(short))
}

/// Parses the command line. The first argument is the name of the program.
pub fn parse_args(args: &Vec<String>) -> (r: Result<Config, ArgsError>)
    ensures
        lacks_project_arguments(string_views(args@)) ==> r == Err::<Config, ArgsError>(
            ArgsError::ProjectNeedsNameAndQuery,
        ),
        !lacks_project_arguments(string_views(args@)) ==> r is Ok && is_mode(
            r->Ok_0.mode,
            string_views(args@),
        ),
{
    if args.len() <= 1 {
        return Ok(Config { mode: Mode::Interactive });
    }
    let first = chars_of(args[1].as_str());
    proof {
        assert(string_views(args@)[1] == args@[1]@);
        lemma_flags_differ();
    }
    if is_flag(&first, "--help", "-h") {
        Ok(Config { mode: Mode::Help })
    } else if is_flag(&first, "--version", "-v") {
        Ok(Config { mode: Mode::Version })
    } else if is_flag(&first, "--interactive", "-i") {
        Ok(Config { mode: Mode::Interactive })
    } else if is_flag(&first, "--project", "-p") {
        if args.len() < 4 {
            return Err(ArgsError::ProjectNeedsNameAndQuery);
        }
        proof {
            assert(string_views(args@)[2] == args@[2]@);
        }
        Ok(
            Config {
                mode: Mode::SingleQuery { query: join(args, 3), project: Some(args[2].clone()) },
            },
        )
    } else {
        Ok(Config { mode: Mode::SingleQuery { query: join(args, 1), project: None } })
    }
}

/// Reads the words of a command.
fn command_of_words(ws: &Vec<Vec<char>>) -> (c: Command)
    ensures
        is_command(c, views(ws@)),
{
    if ws.len() == 0 {
        return Command::Unknown(String::new());
    }
    proof {
        assert(views(ws@)[0] == ws@[0]@);
    }
    let head = &ws[0];
    if is_flag(head, "/quit", "/exit") {
        Command::Quit
    } else if chars_eq(head, &chars_of("/project")) {
        if ws.len() < 2 {
            Command::ProjectUsage
        } else {
            proof {
                assert(views(ws@)[1] == ws@[1]@);
            }
            Command::Project(string_of(&ws[1]))
        }
    } else if chars_eq(head, &chars_of("/clear")) {
        Command::Clear
    } else if chars_eq(head, &chars_of("/history")) {
        Command::History
    } else {
        Command::Unknown(string_of(head))
    }
}

/// Parses a command of the interactive session from its words.
pub fn parse_command(cmd: &str) -> (c: Command)
    ensures
        is_command(c, words(cmd@)),
{
    let chars = chars_of(cmd);
    let ws = split_words(&chars);
    command_of_words(&ws)
}

/// Reads a line of the interactive session.
pub fn read_input(line: &str) -> (input: Input)
    ensures
        is_input(input, line@),
{
    let chars = chars_of(line);
    let t = trim(&chars);
    if t.len() == 0 {
        Input::Empty
    } else if t[0] == '/' {
        let ws = split_words(&t);
        Input::Command(command_of_words(&ws))
    } else {
        Input::Query(string_of(&t))
    }
}

} // verus!
