use vstd::prelude::*;

verus! {

/// How a successful execution ended.
#[derive(Clone, Copy, Debug, PartialEq, Eq, Structural)]
pub enum ExitSucceed {
    /// Machine encountered an explicit stop.
    Stopped,
    /// Machine encountered an explicit return.
    Returned,
    /// Machine encountered an explicit suicide.
    Suicided,
}

/// How a failed execution ended.
#[derive(Clone, Debug, PartialEq, Eq)]
pub enum ExitError {
    StackUnderflow,
    StackOverflow,
    InvalidJump,
    InvalidRange,
    DesignatedInvalid,
    CallTooDeep,
    CreateCollision,
    CreateContractLimit,
    InvalidCode,
    OutOfOffset,
    /// The gas charged for the call exceeds what it may spend, or could not be
    /// represented at all.
    OutOfGas,
    OutOfFund,
    PCUnderflow,
    CreateEmpty,
    /// Any other failure, with a diagnostic message.
    Other(String),
}

/// An execution that reverted.
#[derive(Clone, Copy, Debug, PartialEq, Eq, Structural)]
pub enum ExitRevert {
    Reverted,
}

/// A failure after which no execution stack may go on.
#[derive(Clone, Debug, PartialEq, Eq)]
pub enum ExitFatal {
    NotSupported,
    UnhandledInterrupt,
    CallErrorAsFatal(ExitError),
    Other(String),
}

/// A log entry emitted during execution.
#[derive(Clone, Debug, PartialEq, Eq)]
pub struct Log {
    pub address: [u8; 20],
    pub topics: Vec<[u8; 32]>,
    pub data: Vec<u8>,
}

/// What a precompile hands back on success.
#[derive(Clone, Debug, PartialEq, Eq)]
pub struct PrecompileOutput {
    pub exit_status: ExitSucceed,
    /// The gas charged for the call.
    pub cost: u64,
    pub output: Vec<u8>,
    pub logs: Vec<Log>,
}

/// What a precompile hands back on failure.
#[derive(Clone, Debug, PartialEq, Eq)]
#[allow(inconsistent_fields)]
pub enum PrecompileFailure {
    /// Reverts the state changes and consumes all the gas.
    Error { exit_status: ExitError },
    /// Reverts the state changes, consumes `cost` and returns `output`.
    Revert { exit_status: ExitRevert, output: Vec<u8>, cost: u64 },
    /// Every execution stack must be exited.
    Fatal { exit_status: ExitFatal },
}

/// The outcome of one precompile call.
pub type PrecompileResult = Result<PrecompileOutput, PrecompileFailure>;

} // verus!
