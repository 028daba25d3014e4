//! Verified parts of a virtualization framework: the firmware of a
//! protected virtual machine, with its store of verified boot descriptors and
//! its exception handling, and helpers of the tools around it.

pub mod compos;
pub mod libfdt;
pub mod pvmfw;
pub mod text;
