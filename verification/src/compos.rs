//! Helpers of the proxy that has a compilation run inside a virtual machine.

pub mod pvm_exec;
