//! Register map and timing table for the nRF91 target family.
//!
//! Every family-specific magic number of the recovery protocols lives here
//! as a named constant, so the state machines themselves stay free of
//! inline literals.

use vstd::prelude::*;

verus! {

/// Access-port index of the memory AP whose CSW carries DbgStatus.
pub const MEM_AP_INDEX: u8 = 0;

/// Access-port index of the vendor CTRL-AP that offers mass erase and reset.
pub const CTRL_AP_INDEX: u8 = 4;

/// Offset of the Control/Status Word register within a memory AP.
pub const CSW_ADDR: u64 = 0x000;

/// Offset of the identification register within an AP.
pub const IDR_ADDR: u64 = 0x0FC;

/// Offset of the ERASEALL command register within the CTRL-AP.
pub const ERASEALL_ADDR: u64 = 0x004;

/// Offset of the ERASEALLSTATUS register within the CTRL-AP.
pub const ERASEALLSTATUS_ADDR: u64 = 0x008;

/// Offset of the soft-reset register within the CTRL-AP.
pub const RESET_ADDR: u64 = 0x000;

/// Memory-mapped address of NVMC.CONFIG, the flash write-enable register.
pub const NVMC_CONFIG_ADDR: u64 = 0x5003_9504;

/// Memory-mapped address of NVMC.READY, the flash busy/ready register.
pub const NVMC_READY_ADDR: u64 = 0x5003_9400;

/// UICR word holding the APPROTECT setting.
pub const UICR_APPROTECT_ADDR: u64 = 0x00FF_8000;

/// UICR word holding the SECUREAPPROTECT setting.
pub const UICR_SECUREAPPROTECT_ADDR: u64 = 0x00FF_802C;

/// Value that hardware-disables an APPROTECT-style protection word.
pub const APPROTECT_HW_DISABLE: u32 = 0x50FA_50FA;

/// Erased state of a UICR word; every write to it is possible.
pub const UICR_ERASED_WORD: u32 = 0xFFFF_FFFF;

/// Ceiling on waiting for ERASEALLSTATUS to clear.
pub const ERASE_TIMEOUT_MS: u64 = 15_000;

/// Interval between two ERASEALLSTATUS polls.
pub const ERASE_POLL_INTERVAL_MS: u64 = 500;

/// Settle delay between the erase phase and the soft reset.
pub const PRE_RESET_SETTLE_MS: u64 = 10;

/// Settle delay after the soft reset pulse.
pub const POST_RESET_SETTLE_MS: u64 = 20;

/// Interval between two CSW polls while verifying the unlock.
pub const CSW_POLL_INTERVAL_MS: u64 = 100;

/// How long DbgStatus may stay 0 after the reset before the unlock fails.
pub const UNLOCK_VERIFY_WINDOW_MS: u64 = 1_000;

/// Interval between two NVMC.READY polls.
pub const NVMC_READY_POLL_INTERVAL_MS: u64 = 1;

/// Interval between two probe-discovery attempts.
pub const PROBE_RETRY_INTERVAL_MS: u64 = 100;

/// Default deadline for probe discovery.
pub const DEFAULT_PROBE_TIMEOUT_MS: u64 = 2_000;

/// SWD clock speed requested from the probe, in kHz.
pub const PROBE_SPEED_KHZ: u32 = 12_000;

/// DbgStatus is bit 6 of the memory AP's CSW.
pub open spec fn spec_dbg_status(csw: u32) -> u32 {
    (csw >> 6) & 1
}

/// A device is debuggable exactly when DbgStatus reads 1.
pub open spec fn spec_dbg_enabled(csw: u32) -> bool {
    spec_dbg_status(csw) == 1
}

/// Extracts DbgStatus (bit 6) from a CSW value.
pub fn dbg_status(csw: u32) -> (b: u32)
    ensures
        b == spec_dbg_status(csw),
{
    (csw >> 6) & 1
}

/// Whether a CSW value reports debug access as enabled.
pub fn dbg_enabled(csw: u32) -> (b: bool)
    ensures
        b == spec_dbg_enabled(csw),
{
    dbg_status(csw) == 1
}

} // verus!
