//! The command line as plain data.

pub mod args;

pub use args::{
    Cli, Commands, InspectArgs, InteractiveArgs, OptimizeArgs, RunArgs, UpgradeCheckArgs, Verbosity,
};
