//! Routing of a classified fault to the memory tracker, or to an error.
//!
//! The memory tracker and the lock that guards it live outside of this
//! library. Handling a fault therefore goes in steps: each step says what
//! is to be done outside, and the next one is told what came of it.

use vstd::prelude::*;
use crate::pvmfw::exceptions::error::{HandleExceptionError, MemoryTrackerError};
use crate::pvmfw::exceptions::esr::Esr;
use crate::pvmfw::memory::MemoryAccess;

verus! {

/// A service of the memory tracker.
#[derive(Debug, PartialEq, Eq, Structural, Copy, Clone)]
pub enum TrackerRequest {
    /// Map the page of this address, provided that it may be mapped on demand.
    MmioFault(usize),
    /// Record the mapped page of this address as written.
    PermissionFault(usize),
}

/// What has come back from outside while a fault is being handled.
#[derive(Debug, PartialEq, Eq)]
pub enum Progress {
    /// Nothing yet: the fault has just been taken.
    Entered,
    /// The global memory state has been tried.
    Acquired(MemoryAccess),
    /// The memory tracker has answered the request.
    Serviced(Result<(), MemoryTrackerError>),
}

/// What handling a fault asks for next.
#[derive(Debug, PartialEq, Eq)]
pub enum Step {
    /// Try to take the global memory state without waiting, and tell what
    /// was found.
    Acquire,
    /// Put the request to the memory tracker that was found, and tell what
    /// it answered.
    Service(TrackerRequest),
    /// Handling is over, with this result.
    Done(Result<(), HandleExceptionError>),
}

/// The service that a fault of this class at this address needs, if it is
/// of a class that is serviced at all.
pub open spec fn request_for(esr: Esr, far: usize) -> Option<TrackerRequest> {
    match esr {
        Esr::DataAbortTranslationFault => Some(TrackerRequest::MmioFault(far)),
        Esr::DataAbortPermissionFault => Some(TrackerRequest::PermissionFault(far)),
        _ => None,
    }
}

/// The next step for a fault that needs `request`.
pub open spec fn service_step(request: TrackerRequest, progress: Progress) -> Step {
    match progress {
        Progress::Entered => Step::Acquire,
        Progress::Acquired(MemoryAccess::Unavailable) => Step::Done(
            Err(HandleExceptionError::PageTableUnavailable),
        ),
        Progress::Acquired(MemoryAccess::NotInitialized) => Step::Done(
            Err(HandleExceptionError::PageTableNotInitialized),
        ),
        Progress::Acquired(MemoryAccess::Ready) => Step::Service(request),
        Progress::Serviced(Ok(_)) => Step::Done(Ok(())),
        Progress::Serviced(Err(e)) => Step::Done(Err(HandleExceptionError::InternalError(e))),
    }
}

/// The next step for a fault of class `esr` at address `far`.
pub open spec fn exception_step(esr: Esr, far: usize, progress: Progress) -> Step {
    match request_for(esr, far) {
        Some(request) => service_step(request, progress),
        None => Step::Done(Err(HandleExceptionError::UnknownException)),
    }
}

/// The result of handling a fault when the global memory state is found as
/// `access` says and the memory tracker, should it be asked, answers
/// `verdict`.
pub open spec fn outcome(
    esr: Esr,
    access: MemoryAccess,
    verdict: Result<(), MemoryTrackerError>,
) -> Result<(), HandleExceptionError> {
    match esr {
        Esr::DataAbortTranslationFault | Esr::DataAbortPermissionFault => match access {
            MemoryAccess::Unavailable => Err(HandleExceptionError::PageTableUnavailable),
            MemoryAccess::NotInitialized => Err(HandleExceptionError::PageTableNotInitialized),
            MemoryAccess::Ready => match verdict {
                Ok(_) => Ok(()),
                Err(e) => Err(HandleExceptionError::InternalError(e)),
            },
        },
        _ => Err(HandleExceptionError::UnknownException),
    }
}

/// Takes the next step for a fault that needs `request`.
fn service(request: TrackerRequest, progress: Progress) -> (step: Step)
    ensures
        step == service_step(request, progress),
{
    match progress {
        Progress::Entered => Step::Acquire,
        Progress::Acquired(access) => match access {
            MemoryAccess::Unavailable => Step::Done(Err(HandleExceptionError::PageTableUnavailable)),
            MemoryAccess::NotInitialized => Step::Done(
                Err(HandleExceptionError::PageTableNotInitialized),
            ),
            MemoryAccess::Ready => Step::Service(request),
        },
        Progress::Serviced(verdict) => match verdict {
            Ok(_) => Step::Done(Ok(())),
            Err(e) => Step::Done(Err(HandleExceptionError::from(e))),
        },
    }
}

/// Handles a translation fault at `far`: the memory tracker is asked to map
/// the page, if the global memory state can be taken and holds a tracker.
#[inline]
pub fn handle_translation_fault(far: usize, progress: Progress) -> (step: Step)
    ensures
        step == service_step(TrackerRequest::MmioFault(far), progress),
{
    service(TrackerRequest::MmioFault(far), progress)
}

/// Handles a permission fault at `far`: the memory tracker is asked to
/// record the write, if the global memory state can be taken and holds a
/// tracker.
#[inline]
pub fn handle_permission_fault(far: usize, progress: Progress) -> (step: Step)
    ensures
        step == service_step(TrackerRequest::PermissionFault(far), progress),
{
    service(TrackerRequest::PermissionFault(far), progress)
}

/// Handles a fault of class `esr` at address `far`.
///
/// Translation faults, on reads and on writes, have the page mapped that
/// caused them. Permission faults have the page recorded as written. A fault
/// of any other class is not handled, only reported.
pub fn handle_exception(esr: Esr, far: usize, progress: Progress) -> (step: Step)
    ensures
        step == exception_step(esr, far, progress),
{
    match esr {
        Esr::DataAbortTranslationFault => handle_translation_fault(far, progress),
        Esr::DataAbortPermissionFault => handle_permission_fault(far, progress),
        _ => Step::Done(Err(HandleExceptionError::UnknownException)),
    }
}

/// Handling a fault is over after three steps at most, outside work is asked
/// for in the order lock, then tracker, the tracker is asked only once the
/// global memory state was found ready, and the result is the one that
/// `outcome` gives.
pub proof fn lemma_steps_reach_outcome(
    esr: Esr,
    far: usize,
    access: MemoryAccess,
    verdict: Result<(), MemoryTrackerError>,
)
    ensures
        match exception_step(esr, far, Progress::Entered) {
            Step::Done(result) => result == outcome(esr, access, verdict),
            Step::Service(_) => false,
            Step::Acquire => match exception_step(esr, far, Progress::Acquired(access)) {
                Step::Done(result) => access != MemoryAccess::Ready && result == outcome(
                    esr,
                    access,
                    verdict,
                ),
                Step::Acquire => false,
                Step::Service(request) => access == MemoryAccess::Ready && Some(request)
                    == request_for(esr, far) && exception_step(
                    esr,
                    far,
                    Progress::Serviced(verdict),
                ) == Step::Done(outcome(esr, access, verdict)),
            },
        },
{
}

/// A translation fault that finds the global memory state without a memory
/// tracker ends in `PageTableNotInitialized`, wherever it was raised and
/// whatever a tracker would have answered.
pub proof fn lemma_translation_fault_before_setup(
    far: usize,
    verdict: Result<(), MemoryTrackerError>,
)
    ensures
        exception_step(
            Esr::DataAbortTranslationFault,
            far,
            Progress::Acquired(MemoryAccess::NotInitialized),
        ) == Step::Done(Err(HandleExceptionError::PageTableNotInitialized)),
        outcome(Esr::DataAbortTranslationFault, MemoryAccess::NotInitialized, verdict) == Err::<
            (),
            _,
        >(HandleExceptionError::PageTableNotInitialized),
{
}

/// A synchronous external abort and a fault of unknown class end in
/// `UnknownException` at once, whatever the address and whatever has come
/// back from outside: neither the lock nor the memory tracker is touched.
pub proof fn lemma_unserviced_classes(esr: Esr, far: usize, progress: Progress)
    requires
        esr is Unknown || esr == Esr::DataAbortSyncExternalAbort,
    ensures
        exception_step(esr, far, progress) == Step::Done(
            Err(HandleExceptionError::UnknownException),
        ),
{
}

} // verus!
