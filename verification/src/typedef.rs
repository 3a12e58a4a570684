//! The bit-packed encoding of an input configuration.
//!
//! A packed `Source` value combines a keyboard `Layout` (low half) and an
//! input-`Method` sub-selector (high half) through disjoint bit masks. The
//! layout codes mirror Windows locale identifiers; the method codes are the
//! macOS sub-selectors. `0` is the `NONE` sentinel in either half.

use vstd::prelude::*;

verus! {

/// Keyboard layout code (low half of a packed value).
pub type Layout = u32;

/// Input method sub-selector code (high half of a packed value).
pub type Method = u32;

/// Packed configuration value: layout and method combined by bitwise OR.
pub type Source = u32;

/// Bits reserved for the layout half of a packed value.
pub const NVIQ_IME_MASK_LAYOUT: u32 = 0x0000FFFF;

/// Bits reserved for the method half of a packed value.
pub const NVIQ_IME_MASK_METHOD: u32 = 0xFFFF0000;

pub const NVIQ_IME_LAYOUT_NONE: Layout = 0x00000000;
pub const NVIQ_IME_LAYOUT_US: Layout = 0x00000409;
pub const NVIQ_IME_LAYOUT_CHINESE_SIMPLIFIED: Layout = 0x00000804;
pub const NVIQ_IME_LAYOUT_CHINESE_TRADITIONAL: Layout = 0x00000404;
pub const NVIQ_IME_LAYOUT_JAPANESE: Layout = 0x00000411;
pub const NVIQ_IME_LAYOUT_KOREAN: Layout = 0x00000412;

pub const NVIQ_IME_METHOD_NONE: Method = 0x00000000;
pub const NVIQ_IME_METHOD_PINYIN: Method = 0x00000000;
pub const NVIQ_IME_METHOD_WUBI: Method = 0x00010000;

/// The layout half of a packed value.
pub open spec fn layout_of(value: Source) -> Layout {
    value & NVIQ_IME_MASK_LAYOUT
}

/// The method half of a packed value.
pub open spec fn method_of(value: Source) -> Method {
    value & NVIQ_IME_MASK_METHOD
}

/// A layout operand sets no bits outside the layout mask.
pub open spec fn is_layout(layout: Layout) -> bool {
    layout & NVIQ_IME_MASK_LAYOUT == layout
}

/// A method operand sets no bits outside the method mask.
pub open spec fn is_method(method: Method) -> bool {
    method & NVIQ_IME_MASK_METHOD == method
}

/// What `pack` computes: the two halves combined by bitwise OR.
pub open spec fn pack_of(layout: Layout, method: Method) -> Source {
    layout | method
}

/// Combine a layout and a method into one packed value.
///
/// The caller must keep each operand within its reserved mask; combinations
/// with stray bits are left undefined by the encoding.
pub fn pack(layout: Layout, method: Method) -> (value: Source)
    requires
        is_layout(layout),
        is_method(method),
    ensures
        value == pack_of(layout, method),
        layout_of(value) == layout,
        method_of(value) == method,
{
    proof {
        lemma_pack_round_trip(layout, method);
    }
    layout | method
}

/// Extract the layout half of a packed value.
pub fn unpack_layout(value: Source) -> (layout: Layout)
    ensures
        layout == layout_of(value),
        is_layout(layout),
{
    proof {
        assert((value & 0x0000FFFFu32) & 0x0000FFFFu32 == value & 0x0000FFFFu32)
            by (bit_vector);
    }
    value & NVIQ_IME_MASK_LAYOUT
}

/// Extract the method half of a packed value.
pub fn unpack_method(value: Source) -> (method: Method)
    ensures
        method == method_of(value),
        is_method(method),
{
    proof {
        assert((value & 0xFFFF0000u32) & 0xFFFF0000u32 == value & 0xFFFF0000u32)
            by (bit_vector);
    }
    value & NVIQ_IME_MASK_METHOD
}

/// Round trip of the bit packing: for every layout and method that stay
/// within their reserved masks, packing them and unpacking either half gives
/// the operands back, and the two halves never overlap.
pub proof fn lemma_pack_round_trip(layout: Layout, method: Method)
    requires
        is_layout(layout),
        is_method(method),
    ensures
        layout_of(pack_of(layout, method)) == layout,
        method_of(pack_of(layout, method)) == method,
        layout & method == 0,
{
    assert((layout | method) & 0x0000FFFFu32 == layout && (layout | method) & 0xFFFF0000u32
        == method && layout & method == 0) by (bit_vector)
        requires
            layout & 0x0000FFFFu32 == layout,
            method & 0xFFFF0000u32 == method,
    ;
}

} // verus!
