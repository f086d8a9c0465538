//! The layout of the slot handle, and the check that both sides of the
//! boundary agree on it.
//!
//! The engine writes its handle of a record into a buffer that the bridge
//! provides. The bridge never looks inside: all it declares of the handle
//! is a size and an alignment, and before anything else happens both are
//! held against what the engine reports for its own handle type.

use vstd::arithmetic::power2::is_pow2;
use vstd::prelude::*;

verus! {

/// The size in bytes that the bridge declares for the slot handle.
pub const SLOT_HANDLE_SIZE: usize = 24;

/// The alignment in bytes that the bridge declares for the slot handle.
pub const SLOT_HANDLE_ALIGN: usize = 8;

/// A size and an alignment can be the layout of a type: the alignment is a
/// power of two, and the size, rounded up to a multiple of the alignment,
/// is at most `isize::MAX`.
pub open spec fn valid_layout(size: int, align: int) -> bool {
    is_pow2(align) && 0 <= size && size + (align - 1) <= isize::MAX
}

/// Size and alignment of a type, in bytes.
#[derive(Clone, Copy, Debug, PartialEq, Eq, Structural, Hash)]
pub struct LayoutDescriptor {
    pub size: usize,
    pub align: usize,
}

/// Why the layout check failed.
#[derive(Clone, Copy, Debug, PartialEq, Eq, Structural, Hash)]
pub enum LayoutError {
    /// What the engine reported is the layout of no type at all.
    Invalid { size: usize, align: usize },
    /// The two sides disagree. Both layouts are reported.
    Mismatch { rust: LayoutDescriptor, cpp: LayoutDescriptor },
}

/// For a 64-bit number, to be a power of two is to be non-zero and to share
/// no bit with its predecessor.
proof fn lemma_single_bit_is_pow2(n: u64)
    requires
        n != 0,
    ensures
        (n & ((n - 1) as u64) == 0) <==> is_pow2(n as int),
    decreases n,
{
    reveal(is_pow2);
    if n == 1 {
        assert(1u64 & ((1u64 - 1) as u64) == 0) by (bit_vector);
    } else if n % 2 == 0 {
        let half: u64 = n / 2;
        lemma_single_bit_is_pow2(half);
        assert((n & ((n - 1) as u64) == 0) <==> (half & ((half - 1) as u64) == 0)) by (bit_vector)
            requires
                n > 1,
                n % 2 == 0,
                half == n / 2,
        ;
    } else {
        assert(n & ((n - 1) as u64) != 0) by (bit_vector)
            requires
                n > 1,
                n % 2 == 1,
        ;
    }
}

/// A number with a single bit is at most half the range it lives in, so
/// its predecessor is a signed number of the same width.
proof fn lemma_single_bit_has_room(n: u64)
    requires
        n != 0,
        n & ((n - 1) as u64) == 0,
    ensures
        n <= 0xffff_ffff ==> n - 1 <= 0x7fff_ffff,
        n - 1 <= 0x7fff_ffff_ffff_ffff,
{
    assert(n <= 0xffff_ffff ==> n - 1 <= 0x7fff_ffff) by (bit_vector)
        requires
            n != 0,
            n & ((n - 1) as u64) == 0,
    ;
    assert(n - 1 <= 0x7fff_ffff_ffff_ffff) by (bit_vector)
        requires
            n != 0,
            n & ((n - 1) as u64) == 0,
    ;
}

impl LayoutDescriptor {
    /// The layout with the given size and alignment, if there is one.
    pub fn from_size_align(size: usize, align: usize) -> (layout: Option<LayoutDescriptor>)
        ensures
            layout is Some <==> valid_layout(size as int, align as int),
            layout matches Some(l) ==> l.size == size && l.align == align,
    {
        let wide: u64 = align as u64;
        if wide == 0 {
            proof {
                reveal(is_pow2);
            }
            return None;
        }
        proof {
            lemma_single_bit_is_pow2(wide);
        }
        if wide & (wide - 1) != 0 {
            return None;
        }
        proof {
            lemma_single_bit_has_room(wide);
        }
        if size > isize::MAX as usize - (align - 1) {
            return None;
        }
        Some(LayoutDescriptor { size, align })
    }

    /// The size in bytes.
    pub fn size(&self) -> (size: usize)
        ensures
            size == self.size,
    {
        self.size
    }

    /// The alignment in bytes.
    pub fn align(&self) -> (align: usize)
        ensures
            align == self.align,
    {
        self.align
    }
}

/// The slot handle as the bridge declares it: an opaque buffer of
/// [`SLOT_HANDLE_SIZE`] bytes, aligned to [`SLOT_HANDLE_ALIGN`] bytes.
pub struct SlotHandlePtr {
    _private: [u8; SLOT_HANDLE_SIZE],
}

impl SlotHandlePtr {
    /// The layout that the bridge declares.
    pub open spec fn spec_layout_rust() -> (int, int) {
        (24, 8)
    }

    /// The layout that the bridge declares.
    pub fn layout_rust() -> (layout: LayoutDescriptor)
        ensures
            (layout.size as int, layout.align as int) == Self::spec_layout_rust(),
            valid_layout(layout.size as int, layout.align as int),
    {
        proof {
            lemma_declared_layout_is_valid();
        }
        LayoutDescriptor { size: SLOT_HANDLE_SIZE, align: SLOT_HANDLE_ALIGN }
    }

    /// The layout that the engine uses, from the size and the alignment
    /// that it reported.
    pub fn layout_cpp(size: usize, align: usize) -> (layout: Result<LayoutDescriptor, LayoutError>)
        ensures
            layout is Ok <==> valid_layout(size as int, align as int),
            layout matches Ok(l) ==> l.size == size && l.align == align,
            layout matches Err(e) ==> e == (LayoutError::Invalid { size, align }),
    {
        match LayoutDescriptor::from_size_align(size, align) {
            Some(layout) => Ok(layout),
            None => Err(LayoutError::Invalid { size, align }),
        }
    }
}

/// What the layout check says of a reported size and alignment: nothing
/// if both are what the bridge declares, and else what is wrong, with the
/// values of both sides.
pub open spec fn layout_verdict(size: usize, align: usize) -> Result<(), LayoutError> {
    if (size as int, align as int) == SlotHandlePtr::spec_layout_rust() {
        Ok(())
    } else if !valid_layout(size as int, align as int) {
        Err(LayoutError::Invalid { size, align })
    } else {
        Err(
            LayoutError::Mismatch {
                rust: LayoutDescriptor { size: 24, align: 8 },
                cpp: LayoutDescriptor { size, align },
            },
        )
    }
}

/// Holds the size and the alignment that the engine reported for its slot
/// handle against the declared ones.
///
/// The check passes for the declared size and alignment and for nothing
/// else. It makes no slot, no stream and no logger: it is what has to pass
/// before any of them is made.
pub fn layout_check(size: usize, align: usize) -> (verdict: Result<(), LayoutError>)
    ensures
        verdict == layout_verdict(size, align),
        verdict is Ok <==> size == SLOT_HANDLE_SIZE && align == SLOT_HANDLE_ALIGN,
{
    let slot_layout_rust = SlotHandlePtr::layout_rust();
    let slot_layout_cpp = match SlotHandlePtr::layout_cpp(size, align) {
        Ok(layout) => layout,
        Err(invalid) => {
            return Err(invalid);
        },
    };
    if slot_layout_rust.size() != slot_layout_cpp.size() || slot_layout_rust.align()
        != slot_layout_cpp.align() {
        return Err(LayoutError::Mismatch { rust: slot_layout_rust, cpp: slot_layout_cpp });
    }
    Ok(())
}

/// The declared layout is the layout of a type.
pub proof fn lemma_declared_layout_is_valid()
    ensures
        valid_layout(SLOT_HANDLE_SIZE as int, SLOT_HANDLE_ALIGN as int),
{
    reveal_with_fuel(is_pow2, 5);
}

/// A reported size or alignment that differs from the declared one never
/// passes the check, and the error holds what was reported.
pub proof fn lemma_mismatch_never_passes(size: usize, align: usize)
    requires
        size != SLOT_HANDLE_SIZE || align != SLOT_HANDLE_ALIGN,
    ensures
        layout_verdict(size, align) is Err,
        layout_verdict(size, align) matches Err(LayoutError::Invalid { size: s, align: a }) ==> s
            == size && a == align,
        layout_verdict(size, align) matches Err(LayoutError::Mismatch { rust, cpp }) ==> {
            &&& rust.size == SLOT_HANDLE_SIZE
            &&& rust.align == SLOT_HANDLE_ALIGN
            &&& cpp.size == size
            &&& cpp.align == align
        },
{
}

} // verus!
