//! Decoding of the exception syndrome register.

use vstd::prelude::*;
use vstd::string::StringExecFns;
use crate::text::{hex, hex_text};

verus! {

/// Syndrome of a synchronous external abort on a data access.
pub const EXT_DABT_32BIT: usize = 0x96000010;

/// Syndrome of a translation fault in its plainest form.
pub const TRANSL_FAULT_BASE_32BIT: usize = 0x96000004;

/// The bits of a syndrome that a translation fault fixes.
pub const TRANSL_FAULT_ISS_MASK_32BIT: usize = !0x143;

/// Syndrome of a permission fault in its plainest form.
pub const PERM_FAULT_BASE_32BIT: usize = 0x9600004C;

/// The bits of a syndrome that a permission fault fixes.
pub const PERM_FAULT_ISS_MASK_32BIT: usize = !0x103;

/// The classes of fault that a raw syndrome is sorted into.
#[derive(Debug, PartialEq, Eq, Structural, Copy, Clone)]
pub enum Esr {
    DataAbortTranslationFault,
    DataAbortPermissionFault,
    DataAbortSyncExternalAbort,
    Unknown(usize),
}

/// Whether `esr` has the fixed bits of a translation fault.
pub open spec fn is_translation_fault(esr: usize) -> bool {
    esr & TRANSL_FAULT_ISS_MASK_32BIT == TRANSL_FAULT_BASE_32BIT
}

/// Whether `esr` has the fixed bits of a permission fault.
pub open spec fn is_permission_fault(esr: usize) -> bool {
    esr & PERM_FAULT_ISS_MASK_32BIT == PERM_FAULT_BASE_32BIT
}

/// The class of a raw syndrome. The exact value is tested before the masked
/// ones, and the first test that succeeds decides.
pub open spec fn classify(esr: usize) -> Esr {
    if esr == EXT_DABT_32BIT {
        Esr::DataAbortSyncExternalAbort
    } else if is_translation_fault(esr) {
        Esr::DataAbortTranslationFault
    } else if is_permission_fault(esr) {
        Esr::DataAbortPermissionFault
    } else {
        Esr::Unknown(esr)
    }
}

impl From<usize> for Esr {
    fn from(esr: usize) -> (class: Self) {
        if esr == EXT_DABT_32BIT {
            Esr::DataAbortSyncExternalAbort
        } else if esr & TRANSL_FAULT_ISS_MASK_32BIT == TRANSL_FAULT_BASE_32BIT {
            Esr::DataAbortTranslationFault
        } else if esr & PERM_FAULT_ISS_MASK_32BIT == PERM_FAULT_BASE_32BIT {
            Esr::DataAbortPermissionFault
        } else {
            Esr::Unknown(esr)
        }
    }
}

impl vstd::std_specs::convert::FromSpecImpl<usize> for Esr {
    open spec fn obeys_from_spec() -> bool {
        true
    }

    open spec fn from_spec(esr: usize) -> Self {
        classify(esr)
    }
}

impl Esr {
    /// The class in words.
    pub open spec fn text(self) -> Seq<char> {
        match self {
            Esr::DataAbortSyncExternalAbort => "Synchronous external abort"@,
            Esr::DataAbortTranslationFault => "Translation fault"@,
            Esr::DataAbortPermissionFault => "Permission fault"@,
            Esr::Unknown(v) => "Unknown exception esr="@ + hex_text(v as nat),
        }
    }

    /// Names the class for a diagnostic line.
    pub fn to_string(&self) -> (text: String)
        ensures
            text@ == self.text(),
    {
        match self {
            Esr::DataAbortSyncExternalAbort => String::from_str("Synchronous external abort"),
            Esr::DataAbortTranslationFault => String::from_str("Translation fault"),
            Esr::DataAbortPermissionFault => String::from_str("Permission fault"),
            Esr::Unknown(v) => {
                let number = hex(*v as u64);
                String::from_str("Unknown exception esr=").concat(number.as_str())
            },
        }
    }
}

/// No syndrome passes more than one of the three tests, so the class of a
/// syndrome does not depend on the order in which they are made.
pub proof fn lemma_tests_exclude_each_other(esr: usize)
    ensures
        !(esr == EXT_DABT_32BIT && is_translation_fault(esr)),
        !(esr == EXT_DABT_32BIT && is_permission_fault(esr)),
        !(is_translation_fault(esr) && is_permission_fault(esr)),
{
    assert(!(esr == 0x96000010usize && esr & !0x143usize == 0x96000004usize)) by (bit_vector);
    assert(!(esr == 0x96000010usize && esr & !0x103usize == 0x9600004Cusize)) by (bit_vector);
    assert(!(esr & !0x143usize == 0x96000004usize && esr & !0x103usize == 0x9600004Cusize))
        by (bit_vector);
}

/// A syndrome is a translation fault exactly if it differs from the plainest
/// one in no bit other than the two of the level, the one that tells a write
/// from a read and the one of a cache maintenance instruction; a permission
/// fault likewise, where the fault must be on a write.
pub proof fn lemma_free_bits(esr: usize)
    ensures
        is_translation_fault(esr) <==> esr | 0x143 == 0x96000147,
        is_permission_fault(esr) <==> esr | 0x103 == 0x9600014F,
{
    assert(esr & !0x143usize == 0x96000004usize <==> esr | 0x143usize == 0x96000147usize)
        by (bit_vector);
    assert(esr & !0x103usize == 0x9600004Cusize <==> esr | 0x103usize == 0x9600014Fusize)
        by (bit_vector);
}

/// A syndrome is taken for unknown exactly if it passes none of the three
/// tests, and the class then carries the syndrome itself.
pub proof fn lemma_unknown_keeps_syndrome(esr: usize)
    ensures
        classify(esr) is Unknown <==> esr != EXT_DABT_32BIT && !is_translation_fault(esr)
            && !is_permission_fault(esr),
        classify(esr) is Unknown ==> classify(esr) == Esr::Unknown(esr),
{
}

} // verus!
