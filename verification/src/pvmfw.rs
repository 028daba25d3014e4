//! The firmware that runs first in a protected virtual machine.

pub mod avb;
pub mod exceptions;
pub mod fdt;
pub mod memory;
pub mod pci;
