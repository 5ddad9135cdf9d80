//! The argument classifier: from a vector of argument tokens to a run mode.

use vstd::prelude::*;
use vstd::string::StrSliceExecFns;
use vstd::string::StringExecFns;
use crate::run_mode::Mode;
use crate::run_mode::classify;
use crate::run_mode::has_prefix;

verus! {

/// The characters of `p` form a prefix of `s`.
fn starts_with_str(s: &String, p: &str) -> (r: bool)
    ensures
        r == has_prefix(s@, p@),
{
    let n = p.unicode_len();
    if s.as_str().unicode_len() < n {
        return false;
    }
    let mut i: usize = 0;
    while i < n
        invariant
            n == p@.len(),
            n <= s@.len(),
            i <= n,
            forall|j: int| 0 <= j < i ==> s@[j] == p@[j],
        decreases n - i,
    {
        if s.as_str().get_char(i) != p.get_char(i) {
            return false;
        }
        i += 1;
    }
    proof {
        assert(s@.subrange(0, p@.len() as int) =~= p@);
    }
    true
}

/// `s` holds exactly the characters of `p`.
fn string_eq(s: &String, p: &str) -> (r: bool)
    ensures
        r == (s@ == p@),
{
    let t = String::from_str(p);
    *s == t
}

/// Clones the tokens from index `start` on, in order.
fn tail_from(args: &Vec<String>, start: usize) -> (r: Vec<String>)
    requires
        start <= args@.len(),
    ensures
        r.deep_view() == args.deep_view().skip(start as int),
{
    let mut r: Vec<String> = Vec::new();
    let mut i: usize = start;
    while i < args.len()
        invariant
            start <= i <= args@.len(),
            r@.len() == i - start,
            forall|j: int| 0 <= j < r@.len() ==> #[trigger] r@[j]@ == args@[start + j]@,
        decreases args@.len() - i,
    {
        r.push(args[i].clone());
        i += 1;
    }
    proof {
        assert(forall|j: int| 0 <= j < r@.len() ==> #[trigger] r.deep_view()[j] == r@[j]@);
        assert(forall|j: int|
            0 <= j < args@.len() ==> #[trigger] args.deep_view()[j] == args@[j]@);
        assert(r.deep_view() =~= args.deep_view().skip(start as int));
    }
    r
}

/// Maps the argument tokens to the run mode that the classification rules
/// select for them. Total: every input, the empty vector included, yields a
/// mode.
pub fn parse_args(args: Vec<String>) -> (m: Mode)
    ensures
        m@ == classify(args.deep_view()),
{
    if args.len() >= 1 && !starts_with_str(&args[0], "-") {
        let op = String::from_str("glas-cli-").concat(args[0].as_str());
        let fwd = tail_from(&args, 1);
        Mode::Run(op, fwd)
    } else if args.len() >= 2 && string_eq(&args[0], "--run") {
        let op = args[1].clone();
        let fwd = tail_from(&args, 2);
        Mode::Run(op, fwd)
    } else if args.len() >= 2 && starts_with_str(&args[0], "--script") {
        let flag_len = "--script".unicode_len();
        let token_len = args[0].as_str().unicode_len();
        let ext = String::from_str(args[0].as_str().substring_char(flag_len, token_len));
        let file = args[1].clone();
        let fwd = tail_from(&args, 2);
        Mode::Script(ext, file, fwd)
    } else if args.len() >= 2 && starts_with_str(&args[0], "--cmd") {
        let flag_len = "--cmd".unicode_len();
        let token_len = args[0].as_str().unicode_len();
        let ext = String::from_str(args[0].as_str().substring_char(flag_len, token_len));
        let text = args[1].clone();
        let fwd = tail_from(&args, 2);
        Mode::Cmd(ext, text, fwd)
    } else if args.len() == 2 && string_eq(&args[0], "--check") {
        Mode::Check(args[1].clone())
    } else if args.len() == 1 && string_eq(&args[0], "--init") {
        Mode::Init
    } else if args.len() == 1 && string_eq(&args[0], "--help") {
        Mode::Help
    } else if args.len() == 1 && string_eq(&args[0], "--version") {
        Mode::Version
    } else {
        Mode::Unrecognized
    }
}

} // verus!
