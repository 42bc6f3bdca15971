//! Where the configuration of the nucleus is kept.
//!
//! The files are read and written by the caller; the library says which.
use vstd::prelude::*;

verus! {

/// The configuration file that is read where none is named.
pub const CONFIG_FILE_PATH: &'static str = "config/config.yaml";

/// The file to which the configuration in effect is written.
pub const EFFECTIVE_CONFIG_FILE_PATH: &'static str = "config/effectiveConfig.yaml";

/// The configuration file to read: the named one, else `CONFIG_FILE_PATH`.
pub open spec fn init_spec(path_args: Option<String>) -> Seq<char> {
    match path_args {
        Some(path) => path@,
        None => CONFIG_FILE_PATH@,
    }
}

/// Chooses the configuration file to read at start: the one that the
/// arguments name, else the default one.
pub fn init(path_args: &Option<String>) -> (path: String)
    ensures
        path@ == init_spec(*path_args),
{
    match path_args {
        Some(path) => path.clone(),
        None => CONFIG_FILE_PATH.to_owned(),
    }
}

} // verus!
