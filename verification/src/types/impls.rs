//! Encode/Decode implementations for primitive and composite wire types.

pub mod ident;
pub mod other;
pub mod primitives;
pub mod raw;
pub mod sequence;
pub mod strings;

use vstd::prelude::*;

verus! {

/// The most bytes a sequence decode will preallocate, whatever length the
/// stream declares.
pub const MAX_PREALLOC_BYTES: usize = 1048576;

/// Caps a preallocation so a malicious or invalid declared sequence
/// length cannot exhaust memory before any element has been read.
pub fn cautious_capacity<Element>(size_hint: usize) -> (r: usize)
    ensures
        r <= size_hint,
        vstd::layout::size_of::<Element>() == 0 ==> r == 0,
        vstd::layout::size_of::<Element>() > 0 ==> r * vstd::layout::size_of::<Element>()
            <= MAX_PREALLOC_BYTES,
{
    let elem_size = core::mem::size_of::<Element>();
    if elem_size == 0 {
        0
    } else {
        let cap = MAX_PREALLOC_BYTES / elem_size;
        let r = if size_hint < cap {
            size_hint
        } else {
            cap
        };
        proof {
            vstd::arithmetic::div_mod::lemma_fundamental_div_mod(
                MAX_PREALLOC_BYTES as int,
                elem_size as int,
            );
            assert(r * elem_size <= cap * elem_size) by (nonlinear_arith)
                requires
                    r <= cap,
                    elem_size >= 0,
            ;
            assert(cap * elem_size <= MAX_PREALLOC_BYTES) by (nonlinear_arith)
                requires
                    elem_size > 0,
                    cap == MAX_PREALLOC_BYTES as int / elem_size as int,
            ;
        }
        r
    }
}

} // verus!
