//! Why a fault could not be handled.

use vstd::prelude::*;
use vstd::string::StringExecFns;

verus! {

/// A failure of the memory tracker, in the tracker's own words.
#[derive(Debug, Clone, PartialEq, Eq)]
pub struct MemoryTrackerError {
    pub description: String,
}

/// Why a synchronous exception was not handled.
#[derive(Debug, Clone, PartialEq, Eq)]
pub enum HandleExceptionError {
    /// The lock of the global memory state is held elsewhere.
    PageTableUnavailable,
    /// No memory tracker has been set up yet.
    PageTableNotInitialized,
    /// The memory tracker could not service the fault.
    InternalError(MemoryTrackerError),
    /// The fault is of a class that is not serviced.
    UnknownException,
}

impl From<MemoryTrackerError> for HandleExceptionError {
    fn from(other: MemoryTrackerError) -> (error: Self) {
        HandleExceptionError::InternalError(other)
    }
}

impl vstd::std_specs::convert::FromSpecImpl<MemoryTrackerError> for HandleExceptionError {
    open spec fn obeys_from_spec() -> bool {
        true
    }

    open spec fn from_spec(other: MemoryTrackerError) -> Self {
        HandleExceptionError::InternalError(other)
    }
}

impl HandleExceptionError {
    /// The error in words.
    pub open spec fn text(self) -> Seq<char> {
        match self {
            HandleExceptionError::PageTableUnavailable => "Page table is not available."@,
            HandleExceptionError::PageTableNotInitialized => "Page table is not initialized."@,
            HandleExceptionError::InternalError(e) => "Error while updating page table: "@
                + e.description@,
            HandleExceptionError::UnknownException => "An unknown exception occurred, not handled."@,
        }
    }

    /// Words the error for a diagnostic line.
    pub fn to_string(&self) -> (text: String)
        ensures
            text@ == self.text(),
    {
        match self {
            HandleExceptionError::PageTableUnavailable => String::from_str(
                "Page table is not available.",
            ),
            HandleExceptionError::PageTableNotInitialized => String::from_str(
                "Page table is not initialized.",
            ),
            HandleExceptionError::InternalError(e) => String::from_str(
                "Error while updating page table: ",
            ).concat(e.description.as_str()),
            HandleExceptionError::UnknownException => String::from_str(
                "An unknown exception occurred, not handled.",
            ),
        }
    }
}

} // verus!
