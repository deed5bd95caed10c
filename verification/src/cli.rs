//! The commands that the tool takes on its command line.

use std::path::PathBuf;
use vstd::prelude::*;

verus! {

#[verifier::external_type_specification]
#[verifier::external_body]
pub struct ExPathBuf(std::path::PathBuf);

/// One command of the tool.
#[derive(Debug, PartialEq, Eq)]
pub enum SlinkCommand {
    /// Choose the remote machine that the other commands reach.
    Use {
        /// The hostname of the remote machine.
        host: String,
    },
    /// Open a session on the remote machine.
    Go,
    /// Run a command on the remote machine.
    Run {
        /// The command to run there.
        command: String,
    },
    /// Bring a directory of this machine and one of the remote machine in
    /// line.
    Rsync { direction: RsyncDirection },
    /// Copy a file to the remote machine.
    Upload {
        /// The path of the local file.
        path: PathBuf,
    },
    /// Copy a file from the remote machine.
    Download {
        /// The path of the remote file.
        path: PathBuf,
    },
}

/// The direction in which directories are brought in line.
#[derive(Debug, Clone, Copy, PartialEq, Eq)]
pub enum RsyncDirection {
    /// From this machine up to the remote machine.
    Up,
    /// From the remote machine down to this one.
    Down,
}

} // verus!
