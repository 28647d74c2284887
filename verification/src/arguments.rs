use vstd::prelude::*;
use std::path::PathBuf;

verus! {

/// A path of the file system, carried through unchanged.
#[verifier::external_type_specification]
#[verifier::external_body]
pub struct ExPathBuf(PathBuf);

/// The command line: a configuration file to use, the files to edit, and
/// whether to print the path of the configuration file.
pub struct Arguments {
    pub config: Option<PathBuf>,
    pub files: Vec<PathBuf>,
    pub show_config_path: bool,
}

} // verus!
