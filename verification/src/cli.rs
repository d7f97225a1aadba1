//! The command line.
use vstd::prelude::*;

use crate::config::Config;

verus! {

/// The configuration file read when none is named.
pub const DEFAULT_CONFIG_PATH: &'static str = "sample-config.toml";

/// Examples shown after the help text.
pub const WEBSUBMIT_USAGE: &'static str = "EXAMPLES:\n  websubmit\n  websubmit -c csci2390-f19.toml";

/// The parsed command line.
#[derive(Clone, Debug)]
pub struct Args {
    pub config: Config,
}

/// The configuration file to read: the one named with `-c`/`--config`, else
/// the default.
pub fn config_path(named: Option<String>) -> (r: String)
    ensures
        r@ == match named {
            Some(p) => p@,
            None => DEFAULT_CONFIG_PATH@,
        },
{
    match named {
        Some(p) => p,
        None => DEFAULT_CONFIG_PATH.to_owned(),
    }
}

} // verus!
