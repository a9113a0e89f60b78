//! The command line as plain data: what the tool was asked to do.

use vstd::prelude::*;

verus! {

/// `std::path::PathBuf`, carried through as given on the command line.
#[verifier::external_type_specification]
#[verifier::external_body]
pub struct ExPathBuf(std::path::PathBuf);

/// A parsed command line.
#[derive(Debug)]
pub struct Cli {
    pub command: Commands,
}

/// The subcommands of the tool.
#[derive(Debug)]
pub enum Commands {
    /// Create a new project skeleton with a default manifest.
    New { directory: std::path::PathBuf },
    /// Build the project: generate the Gradle files and run the build. With
    /// no directory given, the project is the directory of the executable.
    Build { directory: Option<std::path::PathBuf> },
}

impl Commands {
    /// The directory a command works on, where `fallback` is the directory
    /// of the executable.
    pub open spec fn target(self, fallback: std::path::PathBuf) -> std::path::PathBuf {
        match self {
            Commands::New { directory } => directory,
            Commands::Build { directory: Some(directory) } => directory,
            Commands::Build { directory: None } => fallback,
        }
    }

    /// The directory this command works on: the one it names, or the
    /// directory of the executable where a build names none.
    pub fn project_directory(self, executable_directory: std::path::PathBuf) -> (directory:
        std::path::PathBuf)
        ensures
            directory == self.target(executable_directory),
    {
        match self {
            Commands::New { directory } => directory,
            Commands::Build { directory: Some(directory) } => directory,
            Commands::Build { directory: None } => executable_directory,
        }
    }
}

} // verus!
