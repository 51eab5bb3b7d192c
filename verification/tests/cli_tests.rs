use soroban_debugger::cli::args::{
    Cli, Commands, InspectArgs, InteractiveArgs, Verbosity,
};
use std::path::PathBuf;

fn cli(quiet: bool, verbose: bool) -> Cli {
    Cli {
        quiet,
        verbose,
        command: Commands::Inspect(InspectArgs {
            contract: PathBuf::from("contract.wasm"),
            functions: true,
            metadata: false,
        }),
    }
}

#[test]
fn test_log_levels() {
    assert_eq!(Verbosity::Quiet.to_log_level(), "error");
    assert_eq!(Verbosity::Normal.to_log_level(), "info");
    assert_eq!(Verbosity::Verbose.to_log_level(), "debug");
}

#[test]
fn test_verbosity_from_flags() {
    assert_eq!(cli(false, false).verbosity(), Verbosity::Normal);
    assert_eq!(cli(false, true).verbosity(), Verbosity::Verbose);
    assert_eq!(cli(true, false).verbosity(), Verbosity::Quiet);
    assert_eq!(cli(true, true).verbosity(), Verbosity::Quiet);
}

#[test]
fn test_verbosity_does_not_depend_on_the_command() {
    let interactive = Cli {
        quiet: false,
        verbose: true,
        command: Commands::Interactive(InteractiveArgs {
            contract: PathBuf::from("contract.wasm"),
            network_snapshot: None,
        }),
    };
    assert_eq!(interactive.verbosity(), Verbosity::Verbose);
}
