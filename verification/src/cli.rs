//! The commands of the command line.

use std::path::PathBuf;
use vstd::prelude::*;

verus! {

/// A path of the file system, as `std::path::PathBuf` holds it. The library
/// only carries such a value.
#[verifier::external_type_specification]
#[verifier::external_body]
pub struct ExPathBuf(PathBuf);

/// The command line: one command.
#[derive(Debug, PartialEq, Eq)]
pub struct CLI {
    pub command: Commands,
}

/// What the program can be asked to do.
#[derive(Debug, PartialEq, Eq)]
#[allow(inconsistent_fields)]
pub enum Commands {
    /// List the locally downloaded works.
    List {  },
    /// Update the metadata of the library and fetch what is missing.
    Update {
        /// Search again for folders that are linked already.
        full: bool,
        /// Report each step.
        verbose: bool,
    },
    /// Scan the local directories for missing metadata.
    Scan {  },
    /// Search for works by a keyword.
    Search {
        keyword: String,
        /// Search the local store only.
        local: bool,
    },
    /// Show what the store holds of one work.
    Info {
        /// Identifier of the work in the catalog.
        id: u32,
        /// Show the details too.
        details: bool,
    },
    /// Export all metadata to a path.
    Export { path: PathBuf },
    /// Edit the configuration.
    SetConfig {  },
    /// Add works to the list by identifier and name.
    Add { id: Vec<u32>, name: Vec<String> },
}

} // verus!
