use vstd::prelude::*;

verus! {

/// Logging verbosity levels, ordered from silent to most detailed.
///
/// These mirror the levels a logging facility distinguishes; the shell
/// converts them into the logging backend's own level type when it
/// installs the plugin.
#[derive(Clone, Copy, Debug, PartialEq, Eq, Structural)]
pub enum Verbosity {
    Off,
    Error,
    Warn,
    Info,
    Debug,
    Trace,
}

/// The verbosity the logging plugin is configured with: full debug
/// detail in a debug build, informational messages in a release build.
pub fn log_verbosity(debug_build: bool) -> (v: Verbosity)
    ensures
        debug_build ==> v == Verbosity::Debug,
        !debug_build ==> v == Verbosity::Info,
{
    if debug_build {
        Verbosity::Debug
    } else {
        Verbosity::Info
    }
}

} // verus!
