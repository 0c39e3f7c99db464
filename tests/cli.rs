use zu_core::cli::{parse_args, CliCommand};

fn args(list: &[&str]) -> Vec<String> {
    list.iter().map(|s| s.to_string()).collect()
}

fn run(module: Option<&str>) -> CliCommand {
    CliCommand::Run { module: module.map(|m| m.to_string()) }
}

#[test]
fn no_arguments_runs_without_module() {
    assert_eq!(parse_args(&args(&["zu_core"])), run(None));
    assert_eq!(parse_args(&Vec::new()), run(None));
}

#[test]
fn module_flag_takes_next_argument() {
    assert_eq!(parse_args(&args(&["zu_core", "-m", "game.wasm"])), run(Some("game.wasm")));
    assert_eq!(parse_args(&args(&["zu_core", "--module", "-x"])), run(Some("-x")));
    assert_eq!(parse_args(&args(&["zu_core", "-m"])), run(None));
}

#[test]
fn bare_path_is_module() {
    assert_eq!(parse_args(&args(&["zu_core", "game.wasm", "other.wasm"])), run(Some("game.wasm")));
    assert_eq!(parse_args(&args(&["zu_core", "--verbose", "game.wasm"])), run(Some("game.wasm")));
    assert_eq!(parse_args(&args(&["zu_core", ""])), run(Some("")));
}

#[test]
fn help_flags() {
    assert_eq!(parse_args(&args(&["zu_core", "--help"])), CliCommand::Help);
    assert_eq!(parse_args(&args(&["zu_core", "-x", "-h", "game.wasm"])), CliCommand::Help);
    assert_eq!(parse_args(&args(&["zu_core", "game.wasm", "-h"])), run(Some("game.wasm")));
}

#[test]
fn program_name_is_skipped() {
    assert_eq!(parse_args(&args(&["-h"])), run(None));
}
