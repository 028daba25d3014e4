//! What stands between the device tree library and its users: the errors that
//! it reports as numbers, phandles, and slices that it hands out as
//! addresses.

use vstd::prelude::*;
use vstd::slice::slice_subrange;

verus! {

/// Error type corresponding to the error codes of the device tree library.
#[derive(Debug, PartialEq, Eq, Structural, Copy, Clone)]
pub enum FdtError {
    NotFound,
    Exists,
    NoSpace,
    BadOffset,
    BadPath,
    BadPhandle,
    BadState,
    Truncated,
    BadMagic,
    BadVersion,
    BadStructure,
    BadLayout,
    Internal,
    BadNCells,
    BadValue,
    BadOverlay,
    NoPhandles,
    BadFlags,
    AlignmentError,
    /// A negative return value that is not the negation of a known code.
    Unknown(i32),
}

/// The error that a negative return value stands for: the library returns
/// the negation of its error code.
pub open spec fn error_of(val: i32) -> FdtError {
    if val == -1 {
        FdtError::NotFound
    } else if val == -2 {
        FdtError::Exists
    } else if val == -3 {
        FdtError::NoSpace
    } else if val == -4 {
        FdtError::BadOffset
    } else if val == -5 {
        FdtError::BadPath
    } else if val == -6 {
        FdtError::BadPhandle
    } else if val == -7 {
        FdtError::BadState
    } else if val == -8 {
        FdtError::Truncated
    } else if val == -9 {
        FdtError::BadMagic
    } else if val == -10 {
        FdtError::BadVersion
    } else if val == -11 {
        FdtError::BadStructure
    } else if val == -12 {
        FdtError::BadLayout
    } else if val == -13 {
        FdtError::Internal
    } else if val == -14 {
        FdtError::BadNCells
    } else if val == -15 {
        FdtError::BadValue
    } else if val == -16 {
        FdtError::BadOverlay
    } else if val == -17 {
        FdtError::NoPhandles
    } else if val == -18 {
        FdtError::BadFlags
    } else if val == -19 {
        FdtError::AlignmentError
    } else {
        FdtError::Unknown(val)
    }
}

/// Reads a return value of the library: a value that is not negative is a
/// result, a negative one an error.
pub fn fdt_err(val: i32) -> (result: Result<i32, FdtError>)
    ensures
        result == if val >= 0 {
            Ok::<i32, FdtError>(val)
        } else {
            Err::<i32, FdtError>(error_of(val))
        },
{
    if val >= 0 {
        Ok(val)
    } else {
        Err(
            match val {
                -1 => FdtError::NotFound,
                -2 => FdtError::Exists,
                -3 => FdtError::NoSpace,
                -4 => FdtError::BadOffset,
                -5 => FdtError::BadPath,
                -6 => FdtError::BadPhandle,
                -7 => FdtError::BadState,
                -8 => FdtError::Truncated,
                -9 => FdtError::BadMagic,
                -10 => FdtError::BadVersion,
                -11 => FdtError::BadStructure,
                -12 => FdtError::BadLayout,
                -13 => FdtError::Internal,
                -14 => FdtError::BadNCells,
                -15 => FdtError::BadValue,
                -16 => FdtError::BadOverlay,
                -17 => FdtError::NoPhandles,
                -18 => FdtError::BadFlags,
                -19 => FdtError::AlignmentError,
                _ => FdtError::Unknown(val),
            },
        )
    }
}

/// Reads the return value of a function that returns zero when it succeeds:
/// any other value that is not negative is an error that has no name.
pub fn fdt_err_expect_zero(val: i32) -> (result: Result<(), FdtError>)
    ensures
        match result {
            Ok(_) => val == 0,
            Err(e) => val != 0 && e == if val > 0 {
                FdtError::Unknown(val)
            } else {
                error_of(val)
            },
        },
{
    match fdt_err(val) {
        Ok(0) => Ok(()),
        Ok(_) => Err(FdtError::Unknown(val)),
        Err(e) => Err(e),
    }
}

/// Reads the return value of a search: that nothing was found is no error.
pub fn fdt_err_or_option(val: i32) -> (result: Result<Option<i32>, FdtError>)
    ensures
        result == if val >= 0 {
            Ok::<Option<i32>, FdtError>(Some(val))
        } else if val == -1 {
            Ok::<Option<i32>, FdtError>(None)
        } else {
            Err::<Option<i32>, FdtError>(error_of(val))
        },
{
    match fdt_err(val) {
        Ok(val) => Ok(Some(val)),
        Err(FdtError::NotFound) => Ok(None),
        Err(e) => Err(e),
    }
}

/// Reads what a step to the next node has returned: the offset of the node
/// and its depth. The walk is over when there is no next node, and also when
/// the depth has fallen below that of the node where the walk began.
pub fn next_node_found(ret: i32, depth: i32) -> (next: Result<Option<(i32, usize)>, FdtError>)
    ensures
        next == if ret >= 0 && depth >= 0 {
            Ok::<Option<(i32, usize)>, FdtError>(Some((ret, depth as usize)))
        } else if ret >= 0 || ret == -1 {
            Ok::<Option<(i32, usize)>, FdtError>(None)
        } else {
            Err::<Option<(i32, usize)>, FdtError>(error_of(ret))
        },
{
    match fdt_err_or_option(ret) {
        Ok(Some(offset)) => if depth >= 0 {
            Ok(Some((offset, depth as usize)))
        } else {
            Ok(None)
        },
        Ok(None) => Ok(None),
        Err(e) => Err(e),
    }
}

/// The least value that is a phandle.
pub const PHANDLE_MIN: u32 = 1;

/// The greatest value that is a phandle.
pub const PHANDLE_MAX: u32 = 0xfffffffe;

/// The number by which a node of the device tree is referred to.
#[derive(Debug, PartialEq, Eq, Copy, Clone)]
pub struct Phandle {
    value: u32,
}

impl Phandle {
    #[verifier::type_invariant]
    spec fn valid(self) -> bool {
        PHANDLE_MIN <= self.value <= PHANDLE_MAX
    }

    /// The number of the phandle.
    pub closed spec fn view(self) -> u32 {
        self.value
    }

    /// The phandle with the number `value`, unless the number is none of a
    /// phandle.
    pub fn new(value: u32) -> (phandle: Option<Phandle>)
        ensures
            match phandle {
                Some(p) => p@ == value && PHANDLE_MIN <= value <= PHANDLE_MAX,
                None => !(PHANDLE_MIN <= value <= PHANDLE_MAX),
            },
    {
        if PHANDLE_MIN <= value && value <= PHANDLE_MAX {
            Some(Phandle { value })
        } else {
            None
        }
    }

    /// The phandle with the number `value`, or `BadPhandle`.
    pub fn try_new(value: u32) -> (phandle: Result<Phandle, FdtError>)
        ensures
            match phandle {
                Ok(p) => p@ == value && PHANDLE_MIN <= value <= PHANDLE_MAX,
                Err(e) => e == FdtError::BadPhandle && !(PHANDLE_MIN <= value <= PHANDLE_MAX),
            },
    {
        match Phandle::new(value) {
            Some(p) => Ok(p),
            None => Err(FdtError::BadPhandle),
        }
    }

    /// The number of the phandle, which lies between the least and the
    /// greatest.
    pub fn value(&self) -> (value: u32)
        ensures
            value == self@,
            PHANDLE_MIN <= value <= PHANDLE_MAX,
    {
        proof {
            use_type_invariant(self);
        }
        self.value
    }
}

/// The offset in a slice of `len` bytes that starts at the address `start`
/// of the byte at the address `p`, if that byte belongs to the slice.
pub open spec fn offset_of(start: usize, len: nat, p: usize) -> Option<int> {
    if start <= p < start + len {
        Some(p - start)
    } else {
        None
    }
}

/// The `len` bytes of `s` from the byte at the address `p` on, where `start`
/// is the address of the first byte of `s`. There are none if `p` is not
/// the address of a byte of `s`, or if fewer than `len` bytes follow from
/// there.
pub open spec fn part_at(s: Seq<u8>, start: usize, p: usize, len: usize) -> Option<Seq<u8>> {
    match offset_of(start, s.len(), p) {
        Some(offset) => if offset + len <= s.len() {
            Some(s.subrange(offset, offset + len))
        } else {
            None
        },
        None => None,
    }
}

/// The part of `s` that begins with the byte at the address `p` and is
/// `len` bytes long, where `start` is the address of the first byte of `s`.
pub fn get_slice_at_ptr<'a>(s: &'a [u8], start: usize, p: usize, len: usize) -> (part: Option<
    &'a [u8],
>)
    requires
        start + s@.len() <= usize::MAX,
    ensures
        match part {
            Some(part) => part_at(s@, start, p, len) == Some(part@),
            None => part_at(s@, start, p, len) is None,
        },
{
    let offset = match get_slice_ptr_offset(s, start, p) {
        Some(offset) => offset,
        None => {
            return None;
        },
    };
    match offset.checked_add(len) {
        Some(end) => if end <= s.len() {
            Some(slice_subrange(s, offset, end))
        } else {
            None
        },
        None => None,
    }
}

/// The offset in `s` of the byte at the address `p`, where `start` is the
/// address of the first byte of `s`.
pub fn get_slice_ptr_offset(s: &[u8], start: usize, p: usize) -> (offset: Option<usize>)
    requires
        start + s@.len() <= usize::MAX,
    ensures
        match offset {
            Some(offset) => offset_of(start, s@.len(), p) == Some(offset as int),
            None => offset_of(start, s@.len(), p) is None,
        },
{
    if start <= p && p < start + s.len() {
        Some(p - start)
    } else {
        None
    }
}

} // verus!
