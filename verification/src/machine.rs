//! What only the machine can say: which processes there are, and where the user's data is kept.
//!
//! Neither type can be made anywhere else, so a value of one of them is always something that the
//! machine answered.

use crate::config::texts;
use std::path::PathBuf;
use vstd::prelude::*;

verus! {

/// The names of the processes, as the machine listed them.
#[derive(Debug)]
pub struct Listing {
    names: Vec<String>,
}

impl View for Listing {
    type V = Seq<Seq<char>>;

    closed spec fn view(&self) -> Seq<Seq<char>> {
        texts(self.names@)
    }
}

impl Listing {
    /// The names, in the order in which they were listed.
    pub fn into_names(self) -> (r: Vec<String>)
        ensures
            texts(r@) == self@,
    {
        self.names
    }
}

/// The names of all processes, from `sysinfo::System::processes` after
/// `sysinfo::System::refresh_processes`. Which there are, and in which order they come, is up
/// to the machine, so nothing is claimed of them.
#[verifier::external_body]
pub(crate) fn process_names() -> Listing {
    let mut sys = sysinfo::System::new();
    sys.refresh_processes();
    Listing { names: sys.processes().values().map(|p| p.name().to_string()).collect() }
}

/// The directory for the user's local data, where the machine has one.
#[derive(Debug)]
pub struct DataDir {
    root: Option<PathBuf>,
}

impl View for DataDir {
    type V = Option<PathBuf>;

    closed spec fn view(&self) -> Option<PathBuf> {
        self.root
    }
}

impl DataDir {
    pub fn into_root(self) -> (r: Option<PathBuf>)
        ensures
            r == self@,
    {
        self.root
    }
}

/// The user's local data directory, from `dirs::data_local_dir`. It is what the environment
/// of the process says, so nothing is claimed of it.
#[verifier::external_body]
pub(crate) fn local_data_dir() -> DataDir {
    DataDir { root: dirs::data_local_dir() }
}

} // verus!
