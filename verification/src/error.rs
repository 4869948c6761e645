//! The ways in which a command can fail.

use vstd::prelude::*;

verus! {

/// Why a command stopped. Every error ends the command: nothing is retried.
#[derive(Clone, Copy, Debug, PartialEq, Eq, Structural)]
pub enum ConfigError {
    /// The platform names no configuration directory for this user.
    PathResolution,
    /// No configuration file exists at the resolved path.
    NotFound,
    /// The file is not JSON, is no JSON object, or lists its plugins as
    /// something other than an array of strings.
    Parse,
    /// The temporary file could not be written, or could not be renamed over
    /// the configuration file.
    Write,
}

} // verus!
