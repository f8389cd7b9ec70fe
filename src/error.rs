use vstd::prelude::*;

verus! {

/// Why a run could not go on.
#[derive(Debug, Clone, Copy, PartialEq, Eq, Structural)]
pub enum BridgeError {
    /// No cargo subcommand was given.
    NoSubcommand,
    /// Neither Windows temp-directory variable could be read, or the query failed.
    HostQueryFailed,
    /// The cargo metadata query failed or the workspace root has no name.
    MetadataUnavailable,
    /// rustup ran, but its report did not have the expected shape.
    ToolchainParseFailed,
    /// The WSL distribution name is not known.
    EnvironmentNotDetected,
    /// The Windows process could not be started.
    InvocationFailed,
}

} // verus!
