//! What becomes of the firmware when the PCI bus cannot be set up.

use vstd::prelude::*;

verus! {

/// Why the firmware gives up and reboots.
#[derive(Debug, PartialEq, Eq, Structural, Copy, Clone)]
pub enum RebootReason {
    /// A malformed BCC was received.
    InvalidBcc,
    /// An invalid configuration was appended to the firmware.
    InvalidConfig,
    /// An unexpected internal error happened.
    InternalError,
    /// The provided FDT was invalid.
    InvalidFdt,
    /// The provided payload was invalid.
    InvalidPayload,
    /// The provided ramdisk was invalid.
    InvalidRamdisk,
}

/// The ways in which setting up the PCI bus from the device tree fails.
#[derive(Debug, PartialEq, Eq, Structural, Copy, Clone)]
pub enum PciError {
    /// Error getting the PCI node from the device tree.
    FdtErrorPci,
    /// The device tree has no PCI node.
    FdtNoPci,
    /// Error getting the `reg` property of the PCI node.
    FdtErrorReg,
    /// The PCI node has no `reg` property.
    FdtMissingReg,
    /// The `reg` property of the PCI node is empty.
    FdtRegEmpty,
    /// The `reg` property of the PCI node gives no size.
    FdtRegMissingSize,
    /// The configuration space has a size other than the expected one.
    CamWrongSize,
    /// Error getting the `ranges` property of the PCI node.
    FdtErrorRanges,
    /// The PCI node has no `ranges` property.
    FdtMissingRanges,
    /// The bus address of a range differs from its physical address.
    RangeAddressMismatch,
    /// No range of the PCI node can hold the memory of the devices.
    NoSuitableRange,
}

/// The reason to reboot for after a failure to set up the PCI bus: whatever
/// went wrong, the device tree is to blame.
pub fn handle_pci_error(e: PciError) -> (reason: RebootReason)
    ensures
        reason == RebootReason::InvalidFdt,
{
    match e {
        PciError::FdtErrorPci
        | PciError::FdtNoPci
        | PciError::FdtErrorReg
        | PciError::FdtMissingReg
        | PciError::FdtRegEmpty
        | PciError::FdtRegMissingSize
        | PciError::CamWrongSize
        | PciError::FdtErrorRanges
        | PciError::FdtMissingRanges
        | PciError::RangeAddressMismatch
        | PciError::NoSuitableRange => RebootReason::InvalidFdt,
    }
}

} // verus!
