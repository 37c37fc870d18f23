//! Error taxonomy of a recovery run.

use vstd::prelude::*;

verus! {

/// Every way a recovery run can fail. Variants that wrap an external
/// failure carry its rendered cause string, so a report can always name
/// the stage and the underlying cause.
#[derive(Debug, PartialEq, Eq)]
pub enum RecoveryError {
    /// A probe-level operation failed.
    ProbeError(String),
    /// Downloading the image into flash failed.
    FlashingError(String),
    /// The device identity could not be established.
    ImeiError,
    /// No probe appeared within the discovery deadline.
    TimeoutError,
    /// A raw access-port register access failed.
    ArmError(String),
    /// The debug probe itself reported an error.
    DebugProbeError(String),
    /// The unlock sequence failed; the string names the reason.
    UnlockError(String),
    /// A protection word can only reach the desired value after a mass erase.
    UicrWriteNeedsMassErase,
    /// The image file does not exist.
    FileNotFound(String),
}

/// Every way the unlock state machine can fail.
#[derive(Clone, Copy, Debug, PartialEq, Eq, Structural)]
pub enum UnlockFailure {
    /// CTRL-AP IDR read 0: the AP index is wrong.
    InvalidCtrlApIdr,
    /// DbgStatus never rose within the post-reset verification window.
    DebugPortDisabled,
    /// A register access failed; the transport knows the cause.
    Transport,
}

/// Every way the protection-word writer can fail.
#[derive(Clone, Copy, Debug, PartialEq, Eq, Structural)]
pub enum UicrFailure {
    /// The desired value would set bits that only a mass erase can restore.
    NeedsMassErase,
    /// A core memory access failed; the transport knows the cause.
    Transport,
}

impl UnlockFailure {
    /// The diagnostic text reported for this failure.
    pub fn message(self) -> (m: &'static str)
        ensures
            self is InvalidCtrlApIdr ==> m@ == "Invalid CTRL-AP IDR, check AP index"@,
            self is DebugPortDisabled ==> m@ == "Debug status = 0, access port not enabled"@,
            self is Transport ==> m@ == "Access port register access failed"@,
    {
        match self {
            UnlockFailure::InvalidCtrlApIdr => "Invalid CTRL-AP IDR, check AP index",
            UnlockFailure::DebugPortDisabled => "Debug status = 0, access port not enabled",
            UnlockFailure::Transport => "Access port register access failed",
        }
    }
}

} // verus!
