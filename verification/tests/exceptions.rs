use avf::pvmfw::exceptions::dispatch::{
    handle_exception, handle_permission_fault, handle_translation_fault, Progress, Step,
    TrackerRequest,
};
use avf::pvmfw::exceptions::error::{HandleExceptionError, MemoryTrackerError};
use avf::pvmfw::exceptions::esr::Esr;
use avf::pvmfw::memory::{MemoryAccess, MemoryState};
use avf::pvmfw::exceptions::vectors::{
    fiq_current, fiq_lower, handling_uart_exception, irq_current, irq_lower, page_4kb_of,
    serr_current, serr_lower, sync_exception_current, sync_lower, Action, FailStop,
    UART_BASE_ADDRESS,
};

/// What stands for the machine around the handler in these tests.
struct Machine {
    access: MemoryAccess,
    verdict: Result<(), MemoryTrackerError>,
    acquired: usize,
    requests: Vec<TrackerRequest>,
    printed: Vec<String>,
    reboots: usize,
    resumed: usize,
}

impl Machine {
    fn new(access: MemoryAccess, verdict: Result<(), MemoryTrackerError>) -> Self {
        Machine {
            access,
            verdict,
            acquired: 0,
            requests: Vec::new(),
            printed: Vec::new(),
            reboots: 0,
            resumed: 0,
        }
    }

    fn fail_stop(&mut self, stop: FailStop) {
        self.printed.extend(stop.report);
        self.reboots += 1;
    }

    /// Takes a synchronous exception from the current level.
    fn sync_exception(&mut self, elr: u64, esr: usize, far: usize) {
        let mut progress = Progress::Entered;
        for _ in 0..3 {
            match sync_exception_current(elr, esr, far, progress) {
                Action::Acquire => {
                    self.acquired += 1;
                    progress = Progress::Acquired(self.access);
                }
                Action::Service(request) => {
                    assert_eq!(self.access, MemoryAccess::Ready);
                    self.requests.push(request);
                    progress = Progress::Serviced(self.verdict.clone());
                }
                Action::Resume => {
                    self.resumed += 1;
                    return;
                }
                Action::Reboot(stop) => {
                    self.fail_stop(stop);
                    return;
                }
            }
        }
        panic!("the handler did not come to an end");
    }
}

fn tracker_error(description: &str) -> MemoryTrackerError {
    MemoryTrackerError { description: description.to_string() }
}

#[test]
fn classify_known_syndromes() {
    assert_eq!(Esr::from(0x96000010), Esr::DataAbortSyncExternalAbort);
    assert_eq!(Esr::from(0x96000004), Esr::DataAbortTranslationFault);
    assert_eq!(Esr::from(0x9600004C), Esr::DataAbortPermissionFault);
    assert_eq!(Esr::from(0), Esr::Unknown(0));
}

#[test]
fn classify_agrees_with_itself() {
    for esr in [0usize, 0x96000010, 0x96000004, 0x9600004C, 0x96000147, 0xffffffff, 12345] {
        assert_eq!(Esr::from(esr), Esr::from(esr));
    }
}

#[test]
fn classify_ignores_the_free_bits_only() {
    for level in 0..4usize {
        for wnr in [0usize, 0x40] {
            for cm in [0usize, 0x100] {
                assert_eq!(
                    Esr::from(0x96000004 | level | wnr | cm),
                    Esr::DataAbortTranslationFault
                );
            }
        }
        for cm in [0usize, 0x100] {
            assert_eq!(Esr::from(0x9600004C | level | cm), Esr::DataAbortPermissionFault);
        }
        // A permission fault on a read is not serviced.
        assert_eq!(Esr::from(0x9600000C | level), Esr::Unknown(0x9600000C | level));
    }
    assert_eq!(Esr::from(0x96000084), Esr::Unknown(0x96000084));
    assert_eq!(Esr::from(0x92000004), Esr::Unknown(0x92000004));
    assert_eq!(Esr::from(0x96000011), Esr::Unknown(0x96000011));
    assert_eq!(Esr::from(0x96000000), Esr::Unknown(0x96000000));
}

#[test]
fn esr_in_words() {
    assert_eq!(Esr::DataAbortSyncExternalAbort.to_string(), "Synchronous external abort");
    assert_eq!(Esr::DataAbortTranslationFault.to_string(), "Translation fault");
    assert_eq!(Esr::DataAbortPermissionFault.to_string(), "Permission fault");
    assert_eq!(Esr::Unknown(0).to_string(), "Unknown exception esr=0x000000");
    assert_eq!(Esr::Unknown(0x92000004).to_string(), "Unknown exception esr=0x92000004");
}

#[test]
fn errors_in_words() {
    assert_eq!(
        HandleExceptionError::PageTableUnavailable.to_string(),
        "Page table is not available."
    );
    assert_eq!(
        HandleExceptionError::PageTableNotInitialized.to_string(),
        "Page table is not initialized."
    );
    assert_eq!(
        HandleExceptionError::InternalError(tracker_error("Region is out of range")).to_string(),
        "Error while updating page table: Region is out of range"
    );
    assert_eq!(
        HandleExceptionError::UnknownException.to_string(),
        "An unknown exception occurred, not handled."
    );
}

#[test]
fn tracker_error_becomes_internal_error() {
    assert_eq!(
        HandleExceptionError::from(tracker_error("full")),
        HandleExceptionError::InternalError(tracker_error("full"))
    );
}

#[test]
fn translation_fault_before_setup() {
    for far in [0usize, 0x1000, 0x3f8, usize::MAX] {
        assert_eq!(
            handle_exception(Esr::DataAbortTranslationFault, far, Progress::Entered),
            Step::Acquire
        );
        assert_eq!(
            handle_exception(
                Esr::DataAbortTranslationFault,
                far,
                Progress::Acquired(MemoryAccess::NotInitialized)
            ),
            Step::Done(Err(HandleExceptionError::PageTableNotInitialized))
        );
    }
}

#[test]
fn unserviced_classes_end_at_once() {
    for esr in [Esr::DataAbortSyncExternalAbort, Esr::Unknown(0), Esr::Unknown(0x96000011)] {
        for far in [0usize, 0x3f8, 0x8000_0000, usize::MAX] {
            let all = [
                Progress::Entered,
                Progress::Acquired(MemoryAccess::Unavailable),
                Progress::Acquired(MemoryAccess::NotInitialized),
                Progress::Acquired(MemoryAccess::Ready),
                Progress::Serviced(Ok(())),
                Progress::Serviced(Err(tracker_error("x"))),
            ];
            for progress in all {
                assert_eq!(
                    handle_exception(esr, far, progress),
                    Step::Done(Err(HandleExceptionError::UnknownException))
                );
            }
        }
    }
}

#[test]
fn lock_that_is_held_elsewhere() {
    assert_eq!(
        handle_translation_fault(0x2000, Progress::Acquired(MemoryAccess::Unavailable)),
        Step::Done(Err(HandleExceptionError::PageTableUnavailable))
    );
    assert_eq!(
        handle_permission_fault(0x2000, Progress::Acquired(MemoryAccess::Unavailable)),
        Step::Done(Err(HandleExceptionError::PageTableUnavailable))
    );
    assert_eq!(
        handle_permission_fault(0x2000, Progress::Acquired(MemoryAccess::NotInitialized)),
        Step::Done(Err(HandleExceptionError::PageTableNotInitialized))
    );
}

#[test]
fn requests_name_the_fault_address() {
    assert_eq!(handle_translation_fault(0x7000, Progress::Entered), Step::Acquire);
    assert_eq!(handle_permission_fault(0x7000, Progress::Entered), Step::Acquire);
    assert_eq!(
        handle_translation_fault(0x7004, Progress::Acquired(MemoryAccess::Ready)),
        Step::Service(TrackerRequest::MmioFault(0x7004))
    );
    assert_eq!(
        handle_permission_fault(0x7008, Progress::Acquired(MemoryAccess::Ready)),
        Step::Service(TrackerRequest::PermissionFault(0x7008))
    );
    assert_eq!(
        handle_exception(
            Esr::DataAbortPermissionFault,
            0x9000,
            Progress::Acquired(MemoryAccess::Ready)
        ),
        Step::Service(TrackerRequest::PermissionFault(0x9000))
    );
}

#[test]
fn tracker_verdict_is_the_result() {
    assert_eq!(handle_translation_fault(0x7000, Progress::Serviced(Ok(()))), Step::Done(Ok(())));
    assert_eq!(handle_permission_fault(0x7000, Progress::Serviced(Ok(()))), Step::Done(Ok(())));
    assert_eq!(
        handle_translation_fault(0x7000, Progress::Serviced(Err(tracker_error("not mapped")))),
        Step::Done(Err(HandleExceptionError::InternalError(tracker_error("not mapped"))))
    );
    assert_eq!(
        handle_permission_fault(0x7000, Progress::Serviced(Err(tracker_error("no pte")))),
        Step::Done(Err(HandleExceptionError::InternalError(tracker_error("no pte"))))
    );
}

#[test]
fn handled_translation_fault_resumes() {
    let mut machine = Machine::new(MemoryAccess::Ready, Ok(()));
    machine.sync_exception(0x8020_0000, 0x96000004, 0x9000_0040);
    assert_eq!(machine.resumed, 1);
    assert_eq!(machine.reboots, 0);
    assert_eq!(machine.acquired, 1);
    assert_eq!(machine.requests, vec![TrackerRequest::MmioFault(0x9000_0040)]);
    assert!(machine.printed.is_empty());
}

#[test]
fn handled_permission_fault_resumes() {
    let mut machine = Machine::new(MemoryAccess::Ready, Ok(()));
    machine.sync_exception(0x8020_0000, 0x9600004F, 0x8100_0008);
    assert_eq!(machine.resumed, 1);
    assert_eq!(machine.reboots, 0);
    assert_eq!(machine.requests, vec![TrackerRequest::PermissionFault(0x8100_0008)]);
}

#[test]
fn failed_translation_fault_reports_and_reboots_once() {
    let mut machine = Machine::new(MemoryAccess::Ready, Err(tracker_error("Region is out of range")));
    machine.sync_exception(0x8020_0000, 0x96000004, 0x9000_0040);
    assert_eq!(machine.resumed, 0);
    assert_eq!(machine.reboots, 1);
    assert_eq!(machine.requests, vec![TrackerRequest::MmioFault(0x9000_0040)]);
    assert_eq!(
        machine.printed,
        vec![
            "sync_exception_current".to_string(),
            "Error while updating page table: Region is out of range".to_string(),
            "Translation fault, far=0x90000040, elr=0x80200000".to_string(),
        ]
    );
}

#[test]
fn fault_without_the_lock_reboots_without_the_tracker() {
    let mut machine = Machine::new(MemoryAccess::Unavailable, Ok(()));
    machine.sync_exception(0x10, 0x9600004C, 0x20);
    assert_eq!(machine.reboots, 1);
    assert_eq!(machine.acquired, 1);
    assert!(machine.requests.is_empty());
    assert_eq!(
        machine.printed,
        vec![
            "sync_exception_current".to_string(),
            "Page table is not available.".to_string(),
            "Permission fault, far=0x000020, elr=0x000010".to_string(),
        ]
    );

    let mut machine = Machine::new(MemoryAccess::NotInitialized, Ok(()));
    machine.sync_exception(0x10, 0x96000004, 0x20);
    assert_eq!(machine.reboots, 1);
    assert!(machine.requests.is_empty());
    assert_eq!(machine.printed[1], "Page table is not initialized.");
}

#[test]
fn unknown_exception_reboots_without_the_lock() {
    let mut machine = Machine::new(MemoryAccess::Ready, Ok(()));
    machine.sync_exception(0xffff_0000_0000_1234, 0x5600_0000, 0);
    assert_eq!(machine.reboots, 1);
    assert_eq!(machine.resumed, 0);
    assert_eq!(machine.acquired, 0);
    assert!(machine.requests.is_empty());
    assert_eq!(
        machine.printed,
        vec![
            "sync_exception_current".to_string(),
            "An unknown exception occurred, not handled.".to_string(),
            "Unknown exception esr=0x56000000, far=0x000000, elr=0xffff000000001234".to_string(),
        ]
    );
}

#[test]
fn external_abort_on_the_console_is_not_printed() {
    for far in [0usize, UART_BASE_ADDRESS, 0xfff] {
        let mut machine = Machine::new(MemoryAccess::Ready, Ok(()));
        machine.sync_exception(0x8020_0000, 0x96000010, far);
        assert_eq!(machine.reboots, 1);
        assert!(machine.printed.is_empty());
    }
}

#[test]
fn external_abort_elsewhere_is_printed() {
    let mut machine = Machine::new(MemoryAccess::Ready, Ok(()));
    machine.sync_exception(0x8020_0000, 0x96000010, 0x1000);
    assert_eq!(machine.reboots, 1);
    assert_eq!(
        machine.printed,
        vec![
            "sync_exception_current".to_string(),
            "An unknown exception occurred, not handled.".to_string(),
            "Synchronous external abort, far=0x001000, elr=0x80200000".to_string(),
        ]
    );
}

#[test]
fn uart_exception_needs_both_the_class_and_the_page() {
    assert!(handling_uart_exception(Esr::DataAbortSyncExternalAbort, 0x3f8));
    assert!(handling_uart_exception(Esr::DataAbortSyncExternalAbort, 0));
    assert!(!handling_uart_exception(Esr::DataAbortSyncExternalAbort, 0x1000));
    assert!(!handling_uart_exception(Esr::DataAbortTranslationFault, 0x3f8));
    assert!(!handling_uart_exception(Esr::Unknown(0x96000010), 0x3f8));
}

#[test]
fn page_of_an_address() {
    assert_eq!(page_4kb_of(0), 0);
    assert_eq!(page_4kb_of(0xfff), 0);
    assert_eq!(page_4kb_of(0x1000), 0x1000);
    assert_eq!(page_4kb_of(0x8020_0abc), 0x8020_0000);
    assert_eq!(page_4kb_of(usize::MAX), usize::MAX - 0xfff);
}

#[test]
fn other_vectors_always_fail_stop() {
    assert_eq!(irq_current().report, vec!["irq_current".to_string()]);
    assert_eq!(fiq_current().report, vec!["fiq_current".to_string()]);
    assert_eq!(irq_lower().report, vec!["irq_lower".to_string()]);
    assert_eq!(fiq_lower().report, vec!["fiq_lower".to_string()]);
    assert_eq!(
        serr_current(0xbe000011).report,
        vec!["serr_current".to_string(), "esr=0xbe000011".to_string()]
    );
    assert_eq!(
        sync_lower(0x5a000000).report,
        vec!["sync_lower".to_string(), "esr=0x5a000000".to_string()]
    );
    assert_eq!(serr_lower(0x2f).report, vec!["serr_lower".to_string(), "esr=0x00002f".to_string()]);
}

#[test]
fn memory_state_is_set_up_once() {
    let mut state: MemoryState<u32> = MemoryState::new();
    assert_eq!(MemoryAccess::of(Some(&state)), MemoryAccess::NotInitialized);
    assert_eq!(state.initialize(7), Ok(()));
    assert_eq!(MemoryAccess::of(Some(&state)), MemoryAccess::Ready);
    assert_eq!(state.initialize(8), Err(8));
    assert!(matches!(state, MemoryState::Initialized(7)));
    assert_eq!(MemoryAccess::of(Some(&state)), MemoryAccess::Ready);
}

#[test]
fn lock_held_elsewhere_is_no_access() {
    assert_eq!(MemoryAccess::of::<u32>(None), MemoryAccess::Unavailable);
}

#[test]
fn fault_against_a_state_without_tracker() {
    let state: MemoryState<u32> = MemoryState::new();
    assert_eq!(
        handle_exception(
            Esr::DataAbortTranslationFault,
            0x4000,
            Progress::Acquired(MemoryAccess::of(Some(&state)))
        ),
        Step::Done(Err(HandleExceptionError::PageTableNotInitialized))
    );
}
