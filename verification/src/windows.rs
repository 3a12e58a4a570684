//! Decision logic of the Windows platform adapter.
//!
//! Windows exposes only the keyboard layout of the thread that owns the
//! foreground window: a read masks the raw layout handle to its low half,
//! and a switch posts an input-language change request whose parameter is
//! the layout widened to the pointer-sized message parameter. Both
//! operations degrade to a harmless no-op or sentinel when there is no
//! foreground window or the value is not representable; the window and
//! message calls themselves stay outside the library.

use vstd::prelude::*;

use crate::typedef::{is_layout, method_of, Layout, NVIQ_IME_LAYOUT_NONE, NVIQ_IME_METHOD_NONE};

verus! {

/// Decide the layout that a read of the keyboard layout yields: the `NONE`
/// sentinel when there is no foreground window, else the low half of the
/// raw layout handle of the window's thread (Windows exposes no separate
/// method concept here).
pub fn get_input_method(foreground_layout: Option<usize>) -> (layout: Layout)
    ensures
        foreground_layout matches Some(raw) ==> layout == (raw & 0x0000FFFF) as u32,
        foreground_layout is None ==> layout == NVIQ_IME_LAYOUT_NONE,
        is_layout(layout),
        method_of(layout) == NVIQ_IME_METHOD_NONE,
{
    match foreground_layout {
        Some(raw) => {
            let masked: usize = raw & 0x0000FFFF;
            proof {
                assert(((raw & 0x0000FFFFusize) as u32) & 0x0000FFFFu32 == (raw
                    & 0x0000FFFFusize) as u32 && ((raw & 0x0000FFFFusize) as u32) & 0xFFFF0000u32
                    == 0u32) by (bit_vector);
            }
            masked as u32
        },
        None => {
            proof {
                assert(0u32 & 0x0000FFFFu32 == 0u32 && 0u32 & 0xFFFF0000u32 == 0u32)
                    by (bit_vector);
            }
            NVIQ_IME_LAYOUT_NONE
        },
    }
}

/// Decide the message parameter of an input-language change request: the
/// layout widened to the pointer-sized signed parameter, or nothing when the
/// value is out of the representable range — the request is then silently
/// dropped, since switching is fire-and-forget.
pub fn set_input_method_param(layout: Layout) -> (param: Option<isize>)
    ensures
        layout as int <= isize::MAX as int ==> param == Some(layout as isize),
        layout as int > isize::MAX as int ==> param is None,
{
    if (layout as u64) <= (isize::MAX as u64) {
        Some(layout as isize)
    } else {
        None
    }
}

} // verus!
