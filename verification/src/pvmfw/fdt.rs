//! Where the device tree says the images lie in memory.

use vstd::prelude::*;
use core::ops::Range;

verus! {

/// What the `/config` node of the device tree says of the kernel.
#[derive(Debug, PartialEq, Eq, Structural, Copy, Clone)]
pub struct Config {
    /// The property `kernel-address`, if the node has it.
    pub kernel_address: Option<u32>,
    /// The property `kernel-size`, if the node has it.
    pub kernel_size: Option<u32>,
}

/// What the `/chosen` node of the device tree says of the ramdisk.
#[derive(Debug, PartialEq, Eq, Structural, Copy, Clone)]
pub struct Chosen {
    /// The property `linux,initrd-start`, if the node has it.
    pub initrd_start: Option<u32>,
    /// The property `linux,initrd-end`, if the node has it.
    pub initrd_end: Option<u32>,
}

/// The memory that the kernel takes up: from its address on, as many bytes
/// as its size says.
pub open spec fn kernel_span(config: Option<Config>) -> Option<(int, int)> {
    match config {
        Some(Config { kernel_address: Some(addr), kernel_size: Some(size) }) => Some(
            (addr as int, addr + size),
        ),
        _ => None,
    }
}

/// The memory that the ramdisk takes up: from its start up to its end.
pub open spec fn initrd_span(chosen: Option<Chosen>) -> Option<(int, int)> {
    match chosen {
        Some(Chosen { initrd_start: Some(start), initrd_end: Some(end) }) => Some(
            (start as int, end as int),
        ),
        _ => None,
    }
}

/// The range of the kernel image, where the device tree has a `/config`
/// node (`config` is `Some`) that gives both its address and its size.
pub fn kernel_range(config: Option<Config>) -> (range: Option<Range<usize>>)
    requires
        kernel_span(config) matches Some(span) ==> span.1 <= usize::MAX,
    ensures
        match range {
            Some(r) => kernel_span(config) == Some((r.start as int, r.end as int)),
            None => kernel_span(config) is None,
        },
{
    if let Some(config) = config {
        if let (Some(addr), Some(size)) = (config.kernel_address, config.kernel_size) {
            let addr = addr as usize;
            let size = size as usize;

            return Some(addr..(addr + size));
        }
    }
    None
}

/// The range of the ramdisk, where the device tree has a `/chosen` node
/// (`chosen` is `Some`) that gives both its start and its end.
pub fn initrd_range(chosen: Option<Chosen>) -> (range: Option<Range<usize>>)
    ensures
        match range {
            Some(r) => initrd_span(chosen) == Some((r.start as int, r.end as int)),
            None => initrd_span(chosen) is None,
        },
{
    if let Some(chosen) = chosen {
        if let (Some(start), Some(end)) = (chosen.initrd_start, chosen.initrd_end) {
            return Some((start as usize)..(end as usize));
        }
    }
    None
}

} // verus!
