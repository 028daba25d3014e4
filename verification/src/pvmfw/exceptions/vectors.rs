//! The eight entries of the exception vector.
//!
//! Only a synchronous exception taken from the current level can be
//! recovered from. Every other entry, and every fault that could not be
//! handled, ends in a fail-stop: a report for the console, then a reboot.

use vstd::prelude::*;
use vstd::string::StringExecFns;
use crate::pvmfw::exceptions::dispatch::{
    exception_step, handle_exception, Progress, Step, TrackerRequest,
};
use crate::pvmfw::exceptions::error::HandleExceptionError;
use crate::pvmfw::exceptions::esr::{classify, Esr};
use crate::text::{hex, hex_text};

verus! {

/// Address of the console's registers.
pub const UART_BASE_ADDRESS: usize = 0x3f8;

/// Size of a page of 4 KiB.
pub const SIZE_4KB: usize = 4096;

/// The page that holds `addr`, by its first address.
pub open spec fn page_4kb(addr: usize) -> usize {
    (addr - addr % 4096) as usize
}

/// Computes the address of the 4 KiB page that holds `addr`.
pub fn page_4kb_of(addr: usize) -> (page: usize)
    ensures
        page == page_4kb(addr),
{
    assert(addr & !0xfffusize == addr - addr % 4096) by (bit_vector);
    addr & !(SIZE_4KB - 1)
}

/// Whether a fault is one that printing to the console could raise again: an
/// external abort on the page of the console's own registers.
pub open spec fn on_uart_page(esr: Esr, far: usize) -> bool {
    esr == Esr::DataAbortSyncExternalAbort && page_4kb(far) == page_4kb(UART_BASE_ADDRESS)
}

/// Tells whether printing a report on this fault could raise the fault
/// again.
#[inline]
pub fn handling_uart_exception(esr: Esr, far: usize) -> (on_uart: bool)
    ensures
        on_uart == on_uart_page(esr, far),
{
    esr == Esr::DataAbortSyncExternalAbort && page_4kb_of(far) == page_4kb_of(UART_BASE_ADDRESS)
}

/// The one answer to what is not handled: the lines of the report are
/// printed to the console, then the machine is rebooted. There is no report
/// without a reboot.
#[derive(Debug, PartialEq, Eq)]
pub struct FailStop {
    pub report: Vec<String>,
}

impl FailStop {
    /// The lines of the report.
    pub open spec fn lines(&self) -> Seq<Seq<char>> {
        Seq::new(self.report@.len(), |i: int| self.report@[i]@)
    }
}

/// What the handler of a synchronous exception from the current level asks
/// for, or how it ends.
#[derive(Debug, PartialEq, Eq)]
pub enum Action {
    /// Try to take the global memory state without waiting.
    Acquire,
    /// Put the request to the memory tracker.
    Service(TrackerRequest),
    /// The fault is handled: return, and the instruction runs again.
    Resume,
    /// The fault is not handled.
    Reboot(FailStop),
}

/// The report on a synchronous exception that was not handled; it is empty
/// where printing it could raise the exception again.
pub open spec fn sync_report(e: HandleExceptionError, esr: Esr, far: usize, elr: u64) -> Seq<
    Seq<char>,
> {
    if on_uart_page(esr, far) {
        Seq::empty()
    } else {
        seq![
            "sync_exception_current"@,
            e.text(),
            esr.text() + ", far="@ + hex_text(far as nat) + ", elr="@ + hex_text(elr as nat),
        ]
    }
}

/// The report of an entry that knows its name only.
pub open spec fn plain_report(name: Seq<char>) -> Seq<Seq<char>> {
    seq![name]
}

/// The report of an entry that knows its name and the raw syndrome.
pub open spec fn syndrome_report(name: Seq<char>, esr: usize) -> Seq<Seq<char>> {
    seq![name, "esr="@ + hex_text(esr as nat)]
}

/// The fail-stop of the entry called `name`.
fn fail_stop(name: &str) -> (stop: FailStop)
    ensures
        stop.lines() == plain_report(name@),
{
    let mut report: Vec<String> = Vec::new();
    report.push(String::from_str(name));
    FailStop { report }
}

/// The fail-stop of the entry called `name`, which has read the syndrome.
fn fail_stop_with_syndrome(name: &str, esr: usize) -> (stop: FailStop)
    ensures
        stop.lines() == syndrome_report(name@, esr),
{
    let mut report: Vec<String> = Vec::new();
    report.push(String::from_str(name));
    report.push(String::from_str("esr=").concat(hex(esr as u64).as_str()));
    FailStop { report }
}

/// Synchronous exception from the current level, with the raw syndrome
/// `esr`, the fault address `far` and the return address `elr`.
///
/// The syndrome is classified and the fault handled step by step. A fault
/// that was handled lets the program resume. One that was not ends in a
/// fail-stop, whose report names this entry, the error, the class of the
/// fault and the two addresses.
pub fn sync_exception_current(elr: u64, esr: usize, far: usize, progress: Progress) -> (action:
    Action)
    ensures
        match exception_step(classify(esr), far, progress) {
            Step::Acquire => action == Action::Acquire,
            Step::Service(request) => action == Action::Service(request),
            Step::Done(Ok(_)) => action == Action::Resume,
            Step::Done(Err(e)) => action matches Action::Reboot(stop) && stop.lines()
                == sync_report(e, classify(esr), far, elr),
        },
{
    let class = Esr::from(esr);
    match handle_exception(class, far, progress) {
        Step::Acquire => Action::Acquire,
        Step::Service(request) => Action::Service(request),
        Step::Done(Ok(_)) => Action::Resume,
        Step::Done(Err(e)) => {
            let mut report: Vec<String> = Vec::new();
            // Don't print to the UART if we are handling an exception it could raise.
            if !handling_uart_exception(class, far) {
                report.push(String::from_str("sync_exception_current"));
                report.push(e.to_string());
                let mut line = class.to_string();
                line.append(", far=");
                line.append(hex(far as u64).as_str());
                line.append(", elr=");
                line.append(hex(elr).as_str());
                report.push(line);
            }
            Action::Reboot(FailStop { report })
        },
    }
}

/// Interrupt from the current level.
pub fn irq_current() -> (stop: FailStop)
    ensures
        stop.lines() == plain_report("irq_current"@),
{
    fail_stop("irq_current")
}

/// Fast interrupt from the current level.
pub fn fiq_current() -> (stop: FailStop)
    ensures
        stop.lines() == plain_report("fiq_current"@),
{
    fail_stop("fiq_current")
}

/// System error from the current level, with the raw syndrome.
pub fn serr_current(esr: usize) -> (stop: FailStop)
    ensures
        stop.lines() == syndrome_report("serr_current"@, esr),
{
    fail_stop_with_syndrome("serr_current", esr)
}

/// Synchronous exception from a lower level, with the raw syndrome.
pub fn sync_lower(esr: usize) -> (stop: FailStop)
    ensures
        stop.lines() == syndrome_report("sync_lower"@, esr),
{
    fail_stop_with_syndrome("sync_lower", esr)
}

/// Interrupt from a lower level.
pub fn irq_lower() -> (stop: FailStop)
    ensures
        stop.lines() == plain_report("irq_lower"@),
{
    fail_stop("irq_lower")
}

/// Fast interrupt from a lower level.
pub fn fiq_lower() -> (stop: FailStop)
    ensures
        stop.lines() == plain_report("fiq_lower"@),
{
    fail_stop("fiq_lower")
}

/// System error from a lower level, with the raw syndrome.
pub fn serr_lower(esr: usize) -> (stop: FailStop)
    ensures
        stop.lines() == syndrome_report("serr_lower"@, esr),
{
    fail_stop_with_syndrome("serr_lower", esr)
}

} // verus!
