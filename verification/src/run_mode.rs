//! The run modes of the command line, and the rules that pick one.

use vstd::prelude::*;

verus! {

/// The run mode selected by the command-line arguments.
///
/// Exactly one mode is produced for every argument sequence; unrecognized
/// input is a mode of its own, never an error.
#[derive(Debug, PartialEq, Eq)]
pub enum Mode {
    /// Run the named operation, forwarding the remaining tokens to it.
    Run(String, Vec<String>),
    /// Run a script file: file extension, file path, forwarded tokens.
    Script(String, String, Vec<String>),
    /// Run inline command text: file extension, script text, forwarded tokens.
    Cmd(String, String, Vec<String>),
    /// Compile the named module without running it.
    Check(String),
    /// Create the configuration file.
    Init,
    /// Print version information.
    Version,
    /// Print the help text.
    Help,
    /// The arguments matched no rule.
    Unrecognized,
}

/// Mathematical model of a run mode: each text field as a sequence of
/// characters.
pub enum ModeModel {
    Run { op: Seq<char>, fwd: Seq<Seq<char>> },
    Script { ext: Seq<char>, file: Seq<char>, fwd: Seq<Seq<char>> },
    Cmd { ext: Seq<char>, text: Seq<char>, fwd: Seq<Seq<char>> },
    Check { module: Seq<char> },
    Init,
    Version,
    Help,
    Unrecognized,
}

impl View for Mode {
    type V = ModeModel;

    open spec fn view(&self) -> ModeModel {
        match self {
            Mode::Run(op, fwd) => ModeModel::Run { op: op@, fwd: fwd.deep_view() },
            Mode::Script(ext, file, fwd) => ModeModel::Script {
                ext: ext@,
                file: file@,
                fwd: fwd.deep_view(),
            },
            Mode::Cmd(ext, text, fwd) => ModeModel::Cmd {
                ext: ext@,
                text: text@,
                fwd: fwd.deep_view(),
            },
            Mode::Check(module) => ModeModel::Check { module: module@ },
            Mode::Init => ModeModel::Init,
            Mode::Version => ModeModel::Version,
            Mode::Help => ModeModel::Help,
            Mode::Unrecognized => ModeModel::Unrecognized,
        }
    }
}

/// The characters of `p` form a prefix of `s`.
pub open spec fn has_prefix(s: Seq<char>, p: Seq<char>) -> bool {
    p.len() <= s.len() && s.subrange(0, p.len() as int) == p
}

/// The classification rules, evaluated in priority order; the first rule
/// whose condition holds decides the mode.
///
/// A bare operation name is namespaced with `glas-cli-`; the `--script` and
/// `--cmd` flags carry the file extension after the flag literal, preserved
/// verbatim; `--check`, `--init`, `--help` and `--version` require an exact
/// token count. Everything else is unrecognized.
pub open spec fn classify(args: Seq<Seq<char>>) -> ModeModel {
    if args.len() >= 1 && !has_prefix(args[0], "-"@) {
        ModeModel::Run { op: "glas-cli-"@ + args[0], fwd: args.skip(1) }
    } else if args.len() >= 2 && args[0] == "--run"@ {
        ModeModel::Run { op: args[1], fwd: args.skip(2) }
    } else if args.len() >= 2 && has_prefix(args[0], "--script"@) {
        ModeModel::Script {
            ext: args[0].skip("--script"@.len() as int),
            file: args[1],
            fwd: args.skip(2),
        }
    } else if args.len() >= 2 && has_prefix(args[0], "--cmd"@) {
        ModeModel::Cmd {
            ext: args[0].skip("--cmd"@.len() as int),
            text: args[1],
            fwd: args.skip(2),
        }
    } else if args.len() == 2 && args[0] == "--check"@ {
        ModeModel::Check { module: args[1] }
    } else if args.len() == 1 && args[0] == "--init"@ {
        ModeModel::Init
    } else if args.len() == 1 && args[0] == "--help"@ {
        ModeModel::Help
    } else if args.len() == 1 && args[0] == "--version"@ {
        ModeModel::Version
    } else {
        ModeModel::Unrecognized
    }
}

/// Law: classification is total. Every finite token sequence, the empty one
/// included, yields one of the run modes; no input is an error.
pub proof fn lemma_classify_total(args: Seq<Seq<char>>)
    ensures
        classify(args) is Run || classify(args) is Script || classify(args) is Cmd || classify(
            args,
        ) is Check || classify(args) is Init || classify(args) is Version || classify(args) is Help
            || classify(args) is Unrecognized,
{
}

/// Law: classification is a pure function of the tokens. Two identical
/// inputs are classified identically, whenever and however often the
/// classifier is applied.
pub proof fn lemma_classify_pure(a: Seq<Seq<char>>, b: Seq<Seq<char>>)
    requires
        a == b,
    ensures
        classify(a) == classify(b),
{
}

} // verus!
