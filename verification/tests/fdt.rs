use avf::libfdt::{
    fdt_err, fdt_err_expect_zero, fdt_err_or_option, get_slice_at_ptr, get_slice_ptr_offset,
    next_node_found, FdtError, Phandle, PHANDLE_MAX, PHANDLE_MIN,
};
use avf::pvmfw::pci::{handle_pci_error, PciError, RebootReason};
use avf::pvmfw::fdt::{initrd_range, kernel_range, Chosen, Config};

#[test]
fn kernel_range_needs_both_properties() {
    assert_eq!(kernel_range(None), None);
    assert_eq!(kernel_range(Some(Config { kernel_address: None, kernel_size: None })), None);
    assert_eq!(
        kernel_range(Some(Config { kernel_address: Some(0x8000_0000), kernel_size: None })),
        None
    );
    assert_eq!(
        kernel_range(Some(Config { kernel_address: None, kernel_size: Some(0x1000) })),
        None
    );
}

#[test]
fn kernel_range_is_address_and_size() {
    assert_eq!(
        kernel_range(Some(Config { kernel_address: Some(0x8020_0000), kernel_size: Some(0x1234) })),
        Some(0x8020_0000..0x8020_1234)
    );
    assert_eq!(
        kernel_range(Some(Config { kernel_address: Some(0), kernel_size: Some(0) })),
        Some(0..0)
    );
    if usize::BITS >= 64 {
        assert_eq!(
            kernel_range(Some(Config {
                kernel_address: Some(u32::MAX),
                kernel_size: Some(u32::MAX)
            })),
            Some(0xffff_ffff..0x1_ffff_fffe)
        );
    }
}

#[test]
fn initrd_range_is_start_and_end() {
    assert_eq!(initrd_range(None), None);
    assert_eq!(initrd_range(Some(Chosen { initrd_start: Some(5), initrd_end: None })), None);
    assert_eq!(initrd_range(Some(Chosen { initrd_start: None, initrd_end: Some(5) })), None);
    assert_eq!(
        initrd_range(Some(Chosen { initrd_start: Some(0x8800_0000), initrd_end: Some(0x8810_0000) })),
        Some(0x8800_0000..0x8810_0000)
    );
    // Start and end are taken as they are, also where the end comes first.
    assert_eq!(
        initrd_range(Some(Chosen { initrd_start: Some(9), initrd_end: Some(3) })),
        Some(9..3)
    );
}

#[test]
fn slice_at_an_address_inside() {
    let s = [10u8, 11, 12, 13, 14, 15];
    let start = s.as_ptr() as usize;
    assert_eq!(get_slice_at_ptr(&s, start, start, 6), Some(&s[..]));
    assert_eq!(get_slice_at_ptr(&s, start, start + 2, 3), Some(&s[2..5]));
    assert_eq!(get_slice_at_ptr(&s, start, start + 5, 1), Some(&s[5..]));
    assert_eq!(get_slice_at_ptr(&s, start, start + 5, 0), Some(&s[5..5]));
    assert_eq!(get_slice_ptr_offset(&s, start, start + 4), Some(4));
}

#[test]
fn slice_at_an_address_outside_or_too_long() {
    let s = [10u8, 11, 12, 13, 14, 15];
    let start = s.as_ptr() as usize;
    assert_eq!(get_slice_at_ptr(&s, start, start + 6, 0), None);
    assert_eq!(get_slice_at_ptr(&s, start, start - 1, 1), None);
    assert_eq!(get_slice_at_ptr(&s, start, start + 2, 5), None);
    assert_eq!(get_slice_at_ptr(&s, start, start + 2, usize::MAX), None);
    assert_eq!(get_slice_ptr_offset(&s, start, start + 6), None);
    assert_eq!(get_slice_ptr_offset(&s, start, start - 1), None);
    let empty: [u8; 0] = [];
    assert_eq!(get_slice_at_ptr(&empty, 0x1000, 0x1000, 0), None);
}

#[test]
fn return_values_that_are_results() {
    assert_eq!(fdt_err(0), Ok(0));
    assert_eq!(fdt_err(72), Ok(72));
    assert_eq!(fdt_err(i32::MAX), Ok(i32::MAX));
    assert_eq!(fdt_err_expect_zero(0), Ok(()));
    assert_eq!(fdt_err_or_option(0), Ok(Some(0)));
    assert_eq!(fdt_err_or_option(1024), Ok(Some(1024)));
}

#[test]
fn return_values_that_are_errors() {
    let named = [
        FdtError::NotFound,
        FdtError::Exists,
        FdtError::NoSpace,
        FdtError::BadOffset,
        FdtError::BadPath,
        FdtError::BadPhandle,
        FdtError::BadState,
        FdtError::Truncated,
        FdtError::BadMagic,
        FdtError::BadVersion,
        FdtError::BadStructure,
        FdtError::BadLayout,
        FdtError::Internal,
        FdtError::BadNCells,
        FdtError::BadValue,
        FdtError::BadOverlay,
        FdtError::NoPhandles,
        FdtError::BadFlags,
        FdtError::AlignmentError,
    ];
    for (i, error) in named.iter().enumerate() {
        let val = -(i as i32) - 1;
        assert_eq!(fdt_err(val), Err(*error));
        assert_eq!(fdt_err_expect_zero(val), Err(*error));
        if *error != FdtError::NotFound {
            assert_eq!(fdt_err_or_option(val), Err(*error));
        }
    }
    assert_eq!(fdt_err(-20), Err(FdtError::Unknown(-20)));
    assert_eq!(fdt_err(i32::MIN), Err(FdtError::Unknown(i32::MIN)));
    assert_eq!(fdt_err_or_option(-20), Err(FdtError::Unknown(-20)));
}

#[test]
fn nothing_found_is_no_error_of_a_search() {
    assert_eq!(fdt_err_or_option(-1), Ok(None));
}

#[test]
fn positive_value_where_zero_is_expected() {
    assert_eq!(fdt_err_expect_zero(1), Err(FdtError::Unknown(1)));
    assert_eq!(fdt_err_expect_zero(i32::MAX), Err(FdtError::Unknown(i32::MAX)));
}

#[test]
fn phandles_have_a_least_and_a_greatest_number() {
    assert_eq!(Phandle::new(0), None);
    assert_eq!(Phandle::new(u32::MAX), None);
    assert_eq!(Phandle::new(PHANDLE_MIN).map(|p| p.value()), Some(1));
    assert_eq!(Phandle::new(PHANDLE_MAX).map(|p| p.value()), Some(0xfffffffe));
    assert_eq!(Phandle::try_new(0), Err(FdtError::BadPhandle));
    assert_eq!(Phandle::try_new(u32::MAX), Err(FdtError::BadPhandle));
    assert_eq!(Phandle::try_new(77).map(|p| p.value()), Ok(77));
}

#[test]
fn next_node_ends_above_the_first_node() {
    assert_eq!(next_node_found(48, 0), Ok(Some((48, 0))));
    assert_eq!(next_node_found(96, 3), Ok(Some((96, 3))));
    assert_eq!(next_node_found(96, -1), Ok(None));
    assert_eq!(next_node_found(-1, 2), Ok(None));
    assert_eq!(next_node_found(-1, -1), Ok(None));
    assert_eq!(next_node_found(-4, 2), Err(FdtError::BadOffset));
    assert_eq!(next_node_found(-11, -1), Err(FdtError::BadStructure));
}

#[test]
fn pci_errors_blame_the_device_tree() {
    let all = [
        PciError::FdtErrorPci,
        PciError::FdtNoPci,
        PciError::FdtErrorReg,
        PciError::FdtMissingReg,
        PciError::FdtRegEmpty,
        PciError::FdtRegMissingSize,
        PciError::CamWrongSize,
        PciError::FdtErrorRanges,
        PciError::FdtMissingRanges,
        PciError::RangeAddressMismatch,
        PciError::NoSuitableRange,
    ];
    for e in all {
        assert_eq!(handle_pci_error(e), RebootReason::InvalidFdt);
    }
}
