//! The command-line argument model of the project-scaffolding tool.
//!
//! These are plain data types: the shell that talks to a terminal parses
//! its arguments into them and dispatches on the command. Keeping the
//! model here lets the dispatch decision be stated over values alone.

use vstd::prelude::*;

verus! {

/// Arguments for creating a new program project.
#[derive(Clone, Debug)]
pub struct NewArgs {
    /// The name of the program.
    pub name: Option<String>,
}

/// Arguments for compiling a project and its dependencies.
#[derive(Clone, Debug)]
pub struct BuildArgs {}

/// Arguments for running a project's tests.
#[derive(Clone, Debug)]
pub struct TestArgs {}

/// Arguments for removing generated build artifacts.
#[derive(Clone, Debug)]
pub struct CleanArgs {}

/// The program-keypair subcommands.
#[derive(Clone, Copy, Debug, PartialEq, Eq, Structural)]
pub enum KeysSubcommand {
    /// List the program keypair.
    List,
    /// Replace the program keypair with a new one.
    New,
    /// Sync the declared program id to the deploy keypair.
    Sync,
}

/// Arguments for the program-keypair commands.
#[derive(Clone, Copy, Debug, PartialEq, Eq, Structural)]
pub struct ProgramKeysArgs {
    pub command: KeysSubcommand,
}

/// The commitment level requested of the RPC endpoint.
#[derive(Clone, Copy, Debug, PartialEq, Eq, Structural)]
pub enum CommitmentLevel {
    Processed,
    Confirmed,
    Finalized,
}

impl Default for CommitmentLevel {
    /// The default commitment level is `Confirmed`.
    fn default() -> (r: CommitmentLevel)
        ensures
            r == CommitmentLevel::Confirmed,
    {
        CommitmentLevel::Confirmed
    }
}

/// One invocation's command.
#[derive(Clone, Debug)]
pub enum Command {
    /// Create a new program project.
    New(NewArgs),
    /// Compile the project and its dependencies.
    Build(BuildArgs),
    /// Run all unit and integration tests.
    Test(TestArgs),
    /// Remove generated build artifacts.
    Clean(CleanArgs),
    /// Manage the program keypair.
    Keys(ProgramKeysArgs),
}

/// The tool's top-level arguments: an optional signer, an optional RPC
/// endpoint, an optional commitment level, and the command.
#[derive(Clone, Debug)]
pub struct Args {
    /// The primary signer for subcommands that sign.
    pub keypair: Option<String>,
    /// The RPC endpoint.
    pub url: Option<String>,
    /// The commitment level of RPC requests.
    pub commitment: Option<CommitmentLevel>,
    /// The command to run.
    pub command: Command,
}

} // verus!
