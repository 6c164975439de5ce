//! What the command line asks for.

use vstd::prelude::*;

verus! {

/// A parsed command line.
#[derive(Debug)]
pub struct Args {
    pub command: Command,
}

/// The commands of the tool.
#[derive(Clone, Copy, Debug, PartialEq, Eq, Structural)]
pub enum Command {
    /// Set up a new project in the current directory; with `minimal`, only
    /// its configuration file.
    Init { minimal: bool },
    /// Bring the remote platform in line with the local catalog.
    Sync,
}

} // verus!
