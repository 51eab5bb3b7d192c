//! The debugger's commands and their options, and the verbosity that the
//! global flags select.

use std::path::PathBuf;
use vstd::prelude::*;
use vstd::string::*;

verus! {

/// `std::path::PathBuf`, carried through as an opaque value: the library
/// never looks inside a path.
#[verifier::external_type_specification]
#[verifier::external_body]
pub struct ExPathBuf(PathBuf);

/// Verbosity level for output control
#[derive(Debug, Clone, Copy, PartialEq, Eq, Structural)]
pub enum Verbosity {
    Quiet,
    Normal,
    Verbose,
}

impl Verbosity {
    /// The log level that stands for each verbosity.
    pub open spec fn spec_log_level(self) -> Seq<char> {
        match self {
            Verbosity::Quiet => "error"@,
            Verbosity::Normal => "info"@,
            Verbosity::Verbose => "debug"@,
        }
    }

    /// Convert verbosity to the log level string of the logging filter.
    pub fn to_log_level(self) -> (r: String)
        ensures
            r@ == self.spec_log_level(),
    {
        match self {
            Verbosity::Quiet => "error".to_owned(),
            Verbosity::Normal => "info".to_owned(),
            Verbosity::Verbose => "debug".to_owned(),
        }
    }
}

/// The parsed command line.
pub struct Cli {
    /// Suppress non-essential output (errors and return value only)
    pub quiet: bool,
    /// Show verbose output including internal details
    pub verbose: bool,
    pub command: Commands,
}

impl Cli {
    /// `Quiet` where `quiet` is set, whatever `verbose` says; else `Verbose`
    /// where `verbose` is set; else `Normal`.
    pub open spec fn spec_verbosity(&self) -> Verbosity {
        if self.quiet {
            Verbosity::Quiet
        } else if self.verbose {
            Verbosity::Verbose
        } else {
            Verbosity::Normal
        }
    }

    /// Get the effective verbosity level
    pub fn verbosity(&self) -> (v: Verbosity)
        ensures
            v == self.spec_verbosity(),
    {
        if self.quiet {
            Verbosity::Quiet
        } else if self.verbose {
            Verbosity::Verbose
        } else {
            Verbosity::Normal
        }
    }
}

pub enum Commands {
    /// Run a contract function with the debugger
    Run(RunArgs),
    /// Start an interactive debugging session
    Interactive(InteractiveArgs),
    /// Inspect contract information without executing
    Inspect(InspectArgs),
    /// Analyze contract and generate gas optimization suggestions
    Optimize(OptimizeArgs),
    /// Check compatibility between two contract versions
    UpgradeCheck(UpgradeCheckArgs),
}

pub struct RunArgs {
    /// Path to the contract WASM file
    pub contract: PathBuf,
    /// Function name to execute
    pub function: String,
    /// Function arguments as JSON array (e.g., '["arg1", "arg2"]')
    pub args: Option<String>,
    /// Initial storage state as JSON object
    pub storage: Option<String>,
    /// Set breakpoint at function name
    pub breakpoint: Vec<String>,
    /// Network snapshot file to load before execution
    pub network_snapshot: Option<PathBuf>,
    /// Show contract events emitted during execution
    pub show_events: bool,
    /// Show authorization tree during execution
    pub show_auth: bool,
    /// Output format as JSON
    pub json: bool,
    /// Filter events by topic
    pub filter_topic: Option<String>,
    /// Execute the contract call N times for stress testing
    pub repeat: Option<u32>,
    /// Filter storage output by key pattern (repeatable). Supports:
    ///   prefix*       — match keys starting with prefix
    ///   re:<regex>    — match keys by regex
    ///   exact_key     — match key exactly
    pub storage_filter: Vec<String>,
}

pub struct InteractiveArgs {
    /// Path to the contract WASM file
    pub contract: PathBuf,
    /// Network snapshot file to load before starting interactive session
    pub network_snapshot: Option<PathBuf>,
}

pub struct InspectArgs {
    /// Path to the contract WASM file
    pub contract: PathBuf,
    /// Show exported functions
    pub functions: bool,
    /// Show contract metadata
    pub metadata: bool,
}

pub struct OptimizeArgs {
    /// Path to the contract WASM file
    pub contract: PathBuf,
    /// Function name to analyze (can be specified multiple times)
    pub function: Vec<String>,
    /// Function arguments as JSON array (e.g., '["arg1", "arg2"]')
    pub args: Option<String>,
    /// Output file for the optimization report (default: stdout)
    pub output: Option<PathBuf>,
    /// Initial storage state as JSON object
    pub storage: Option<String>,
    /// Network snapshot file to load before analysis
    pub network_snapshot: Option<PathBuf>,
}

pub struct UpgradeCheckArgs {
    /// Path to the old contract WASM file
    pub old: PathBuf,
    /// Path to the new contract WASM file
    pub new: PathBuf,
    /// Function name to test side-by-side (optional)
    pub function: Option<String>,
    /// Function arguments as JSON array for side-by-side test
    pub args: Option<String>,
    /// Output file for the compatibility report (default: stdout)
    pub output: Option<PathBuf>,
}

} // verus!
