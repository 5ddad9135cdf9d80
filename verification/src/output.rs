//! The fixed texts of the command line, and the text a run mode prints.

use vstd::prelude::*;
use vstd::string::StringExecFns;
use crate::run_mode::Mode;
use crate::run_mode::ModeModel;

verus! {

/// The help text, as the `--help` mode prints it (without the final
/// newline that printing adds).
pub open spec fn spec_help_text() -> Seq<char> {
    "The glas command line interface (CLI) is primarily executed as:

    glas opname Arg1 Arg2 ...
        # shorthand for
    glas --run cli.opname Arg1 Arg2 ...

This will run a module depending on configuration of glas.

Other run modes include:

    glas --script.FileExt (FileName) Arg1 Arg2 ...
    glas --cmd.FileExt (ScriptText) Arg1 Arg2 ...

The --script option is intended for Linux shebang scripts:

    #!/usr/bin/glas --script.FileExt
    script text follows shebang line

The shebang line is implicitly removed, and actual file extension
is ignored. In contrast, --cmd inlines the script text.

There are also a few modes that won't attempt to run an application:

    glas --help           # print this text
    glas --version        # print version info
    glas --check Module   # try to compile module
    glas --init           # create the config file

Configuration is primarily via file instead of the command line.
The selected configuration is specified by GLAS_CONF environment
variable, falling back to a reasonable default:

    ~/.config/glas/default.conf           # Linux
    %AppData%\\glas\\default.cfg            # Windows
"@
}

/// The version string, as the `--version` mode prints it (without the
/// final newline that printing adds).
pub open spec fn spec_version_text() -> Seq<char> {
    "glas bootstrap in rust (glas-rust-pkg) version 0.0"@
}

/// Returns the usage description of the command line.
pub fn help_text() -> (r: String)
    ensures
        r@ == spec_help_text(),
{
    String::from_str(
        "The glas command line interface (CLI) is primarily executed as:

    glas opname Arg1 Arg2 ...
        # shorthand for
    glas --run cli.opname Arg1 Arg2 ...

This will run a module depending on configuration of glas.

Other run modes include:

    glas --script.FileExt (FileName) Arg1 Arg2 ...
    glas --cmd.FileExt (ScriptText) Arg1 Arg2 ...

The --script option is intended for Linux shebang scripts:

    #!/usr/bin/glas --script.FileExt
    script text follows shebang line

The shebang line is implicitly removed, and actual file extension
is ignored. In contrast, --cmd inlines the script text.

There are also a few modes that won't attempt to run an application:

    glas --help           # print this text
    glas --version        # print version info
    glas --check Module   # try to compile module
    glas --init           # create the config file

Configuration is primarily via file instead of the command line.
The selected configuration is specified by GLAS_CONF environment
variable, falling back to a reasonable default:

    ~/.config/glas/default.conf           # Linux
    %AppData%\\glas\\default.cfg            # Windows
",
    )
}

/// Returns the version string of this implementation.
pub fn version_text() -> (r: String)
    ensures
        r@ == spec_version_text(),
{
    String::from_str("glas bootstrap in rust (glas-rust-pkg) version 0.0")
}

/// Each token of `args`, in order, preceded by one space.
pub open spec fn spec_spaced(args: Seq<Seq<char>>) -> Seq<char>
    decreases args.len(),
{
    if args.len() == 0 {
        Seq::empty()
    } else {
        " "@ + args[0] + spec_spaced(args.skip(1))
    }
}

/// The text that dispatching a run mode writes to standard output,
/// newlines included.
///
/// The handlers for `Run`, `Script`, `Cmd`, `Check` and `Init` are not
/// implemented yet; their text is a single diagnostic line naming the mode
/// and its fields. Unrecognized input gets a notice line and then the same
/// text as `Help`.
pub open spec fn spec_dispatch_text(m: ModeModel) -> Seq<char> {
    match m {
        ModeModel::Run { op, fwd } => "todo: Run "@ + op + spec_spaced(fwd) + "\n"@,
        ModeModel::Script { ext, file, fwd } => "todo: Script "@ + ext + " "@ + file
            + spec_spaced(fwd) + "\n"@,
        ModeModel::Cmd { ext, text, fwd } => "todo: Cmd "@ + ext + " "@ + text + spec_spaced(fwd)
            + "\n"@,
        ModeModel::Check { module } => "todo: Check "@ + module + "\n"@,
        ModeModel::Init => "todo: Init\n"@,
        ModeModel::Version => spec_version_text() + "\n"@,
        ModeModel::Help => spec_help_text() + "\n"@,
        ModeModel::Unrecognized => "Unrecognized arguments!\n"@ + spec_help_text() + "\n"@,
    }
}

/// Law: dispatching unrecognized input produces the notice line followed
/// immediately by the full `Help` output, and nothing more.
pub proof fn lemma_unrecognized_text()
    ensures
        spec_dispatch_text(ModeModel::Unrecognized) == "Unrecognized arguments!\n"@
            + spec_dispatch_text(ModeModel::Help),
{
    assert(("Unrecognized arguments!\n"@ + spec_help_text()) + "\n"@
        =~= "Unrecognized arguments!\n"@ + (spec_help_text() + "\n"@));
}

/// Appends one space and then the token itself, for each token in order.
fn append_spaced(out: &mut String, args: &Vec<String>)
    ensures
        final(out)@ == old(out)@ + spec_spaced(args.deep_view()),
{
    let ghost all = args.deep_view();
    proof {
        assert(forall|j: int| 0 <= j < args@.len() ==> #[trigger] all[j] == args@[j]@);
        assert(all.skip(0) =~= all);
    }
    let mut i: usize = 0;
    while i < args.len()
        invariant
            i <= args@.len(),
            all == args.deep_view(),
            out@ + spec_spaced(all.skip(i as int)) == old(out)@ + spec_spaced(all),
        decreases args@.len() - i,
    {
        proof {
            lemma_spaced_step(all, i as int);
        }
        let ghost before = out@;
        out.append(" ");
        out.append(args[i].as_str());
        proof {
            assert(before + (" "@ + all[i as int]) + spec_spaced(all.skip(i as int + 1)) =~= before
                + spec_spaced(all.skip(i as int)));
        }
        i += 1;
    }
    proof {
        assert(all.skip(args@.len() as int) =~= Seq::<Seq<char>>::empty());
        assert(out@ + spec_spaced(all.skip(args@.len() as int)) =~= out@);
    }
}

/// Unfolds one step of `spec_spaced` in the middle of a token sequence.
proof fn lemma_spaced_step(args: Seq<Seq<char>>, i: int)
    requires
        0 <= i < args.len(),
    ensures
        spec_spaced(args.skip(i)) == " "@ + args[i] + spec_spaced(args.skip(i + 1)),
{
    assert(args.skip(i)[0] == args[i]);
    assert(args.skip(i).skip(1) =~= args.skip(i + 1));
}

/// Renders the text that dispatching `m` writes to standard output.
pub fn dispatch_text(m: &Mode) -> (r: String)
    ensures
        r@ == spec_dispatch_text(m@),
{
    match m {
        Mode::Run(op, fwd) => {
            let mut r = String::from_str("todo: Run ");
            r.append(op.as_str());
            append_spaced(&mut r, fwd);
            r.append("\n");
            r
        },
        Mode::Script(ext, file, fwd) => {
            let mut r = String::from_str("todo: Script ");
            r.append(ext.as_str());
            r.append(" ");
            r.append(file.as_str());
            append_spaced(&mut r, fwd);
            r.append("\n");
            r
        },
        Mode::Cmd(ext, text, fwd) => {
            let mut r = String::from_str("todo: Cmd ");
            r.append(ext.as_str());
            r.append(" ");
            r.append(text.as_str());
            append_spaced(&mut r, fwd);
            r.append("\n");
            r
        },
        Mode::Check(module) => {
            let mut r = String::from_str("todo: Check ");
            r.append(module.as_str());
            r.append("\n");
            r
        },
        Mode::Init => String::from_str("todo: Init\n"),
        Mode::Version => {
            let mut r = version_text();
            r.append("\n");
            r
        },
        Mode::Help => {
            let mut r = help_text();
            r.append("\n");
            r
        },
        Mode::Unrecognized => {
            let mut r = String::from_str("Unrecognized arguments!\n");
            let h = help_text();
            r.append(h.as_str());
            r.append("\n");
            r
        },
    }
}

} // verus!
