use glas::parsing::parse_args;
use glas::run_mode::Mode;

fn toks(ts: &[&str]) -> Vec<String> {
    ts.iter().map(|t| t.to_string()).collect()
}

#[test]
fn bare_name_is_namespaced_run() {
    assert_eq!(
        parse_args(toks(&["foo"])),
        Mode::Run("glas-cli-foo".to_string(), Vec::new())
    );
}

#[test]
fn bare_name_forwards_remaining_tokens() {
    assert_eq!(
        parse_args(toks(&["foo", "a", "b"])),
        Mode::Run("glas-cli-foo".to_string(), toks(&["a", "b"]))
    );
}

#[test]
fn run_flag_takes_name_verbatim() {
    assert_eq!(
        parse_args(toks(&["--run", "cli.bar", "x", "y"])),
        Mode::Run("cli.bar".to_string(), toks(&["x", "y"]))
    );
}

#[test]
fn run_flag_beats_later_rules() {
    assert_eq!(
        parse_args(toks(&["--run", "--help"])),
        Mode::Run("--help".to_string(), Vec::new())
    );
}

#[test]
fn run_flag_alone_is_unrecognized() {
    assert_eq!(parse_args(toks(&["--run"])), Mode::Unrecognized);
}

#[test]
fn script_flag_keeps_extension_verbatim() {
    assert_eq!(
        parse_args(toks(&["--script.lua", "f.lua", "a"])),
        Mode::Script(".lua".to_string(), "f.lua".to_string(), toks(&["a"]))
    );
}

#[test]
fn script_flag_with_empty_extension() {
    assert_eq!(
        parse_args(toks(&["--script", "f"])),
        Mode::Script(String::new(), "f".to_string(), Vec::new())
    );
}

#[test]
fn script_flag_without_file_is_unrecognized() {
    assert_eq!(parse_args(toks(&["--script.lua"])), Mode::Unrecognized);
}

#[test]
fn short_script_flag_falls_through() {
    assert_eq!(parse_args(toks(&["--scrip", "x"])), Mode::Unrecognized);
}

#[test]
fn cmd_flag_keeps_extension_verbatim() {
    assert_eq!(
        parse_args(toks(&["--cmd.py", "print(1)"])),
        Mode::Cmd(".py".to_string(), "print(1)".to_string(), Vec::new())
    );
}

#[test]
fn cmd_flag_forwards_remaining_tokens() {
    assert_eq!(
        parse_args(toks(&["--cmd.py", "print(1)", "a", "b"])),
        Mode::Cmd(".py".to_string(), "print(1)".to_string(), toks(&["a", "b"]))
    );
}

#[test]
fn short_cmd_flag_falls_through() {
    assert_eq!(parse_args(toks(&["--cm", "x"])), Mode::Unrecognized);
}

#[test]
fn check_takes_exactly_one_module() {
    assert_eq!(
        parse_args(toks(&["--check", "m"])),
        Mode::Check("m".to_string())
    );
}

#[test]
fn check_without_module_is_unrecognized() {
    assert_eq!(parse_args(toks(&["--check"])), Mode::Unrecognized);
}

#[test]
fn check_with_extra_token_is_unrecognized() {
    assert_eq!(parse_args(toks(&["--check", "m", "extra"])), Mode::Unrecognized);
}

#[test]
fn init_flag_is_exact() {
    assert_eq!(parse_args(toks(&["--init"])), Mode::Init);
    assert_eq!(parse_args(toks(&["--init", "x"])), Mode::Unrecognized);
}

#[test]
fn help_flag_is_exact() {
    assert_eq!(parse_args(toks(&["--help"])), Mode::Help);
    assert_eq!(parse_args(toks(&["--help", "x"])), Mode::Unrecognized);
}

#[test]
fn version_flag_is_exact() {
    assert_eq!(parse_args(toks(&["--version"])), Mode::Version);
    assert_eq!(parse_args(toks(&["--version", "x"])), Mode::Unrecognized);
}

#[test]
fn empty_input_is_unrecognized() {
    assert_eq!(parse_args(Vec::new()), Mode::Unrecognized);
}

#[test]
fn flag_match_is_case_sensitive() {
    assert_eq!(parse_args(toks(&["--Help"])), Mode::Unrecognized);
}

#[test]
fn unknown_dash_token_is_unrecognized() {
    assert_eq!(parse_args(toks(&["-x"])), Mode::Unrecognized);
    assert_eq!(parse_args(toks(&["-"])), Mode::Unrecognized);
}

#[test]
fn classification_is_repeatable() {
    let first = parse_args(toks(&["--run", "cli.bar", "x"]));
    let second = parse_args(toks(&["--run", "cli.bar", "x"]));
    assert_eq!(first, second);
}
