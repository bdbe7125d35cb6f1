//! Layout-independent frame arithmetic and the contract that every
//! architecture's register layout meets.
use vstd::prelude::*;

pub mod arm;
pub mod mips;
pub mod win64;
pub mod x86;
pub mod x86_64;

verus! {

/// Alignment, in bytes, that every frame's top is rounded down to.
pub const STACK_ALIGN: usize = 16;

/// `sp` rounded down to a multiple of the stack alignment.
pub open spec fn aligned_down(sp: usize) -> usize {
    (sp - sp % 16) as usize
}

/// Rounds a stack address down to the stack alignment boundary.
pub fn align_down(sp: usize) -> (r: usize)
    ensures
        r == aligned_down(sp),
        r % 16 == 0,
        r <= sp,
        sp - r < 16,
{
    sp - sp % STACK_ALIGN
}

/// The address `count` words of `word` bytes away from `p`.
pub open spec fn word_offset(p: usize, count: int, word: nat) -> int {
    p + count * word
}

/// Moves an address by `count` words of `word` bytes each.
pub fn mut_offset(p: usize, count: isize, word: usize) -> (r: usize)
    requires
        0 <= word_offset(p, count as int, word as nat) <= usize::MAX,
    ensures
        r == word_offset(p, count as int, word as nat),
{
    if count >= 0 {
        let c = count as usize;
        proof {
            assert(0 <= c * word <= p + c * word) by (nonlinear_arith)
                requires
                    c >= 0,
                    word >= 0,
            ;
        }
        p + c * word
    } else {
        let c = (-(count + 1)) as usize + 1;
        proof {
            assert(count * word == -(c * word)) by (nonlinear_arith)
                requires
                    c == -count,
            ;
            assert(0 <= c * word <= p) by (nonlinear_arith)
                requires
                    c > 0,
                    word >= 0,
                    0 <= p - c * word,
            ;
        }
        p - c * word
    }
}

/// True when the lowest address written by `ws` only ever receives zero.
pub open spec fn lowest_write_is_zero(ws: Seq<(usize, usize)>) -> bool {
    &&& ws.len() > 0
    &&& forall|i: int|
        0 <= i < ws.len() && (forall|j: int| 0 <= j < ws.len() ==> ws[i].0 <= #[trigger] ws[j].0)
            ==> #[trigger] ws[i].1 == 0
}

/// A register layout together with its frame initializer.
///
/// `init_frame` builds the image that, once transferred into, starts running
/// an entry function on a fresh stack whose top is `top`. The stack words
/// that the image relies on are returned as `(address, value)` pairs, to be
/// stored by whoever owns the stack memory.
pub trait Frame: Sized + Copy {
    /// The stack-pointer alignment that the calling convention demands.
    spec fn required_align() -> nat;

    /// Bytes between the aligned top and the stack pointer of a fresh image.
    spec fn sp_below_top() -> nat;

    /// The inputs that fit the architecture's address width and leave room
    /// for the frame above address zero.
    spec fn frame_fits(fptr: usize, arg: usize, arg2: usize, top: usize, bootstrap: usize) -> bool;

    /// Every register of the image is zero.
    spec fn is_zeroed(&self) -> bool;

    /// The stack pointer held by the image.
    spec fn stack_pointer(&self) -> int;

    /// `self` is `prev` primed to start `fptr(arg, arg2)` on a stack whose top is `top`.
    spec fn framed_from(
        self,
        prev: Self,
        fptr: usize,
        arg: usize,
        arg2: usize,
        top: usize,
        bootstrap: usize,
    ) -> bool;

    /// The stack words a fresh frame stores, in the order they are stored.
    spec fn frame_writes(
        fptr: usize,
        arg: usize,
        arg2: usize,
        top: usize,
        bootstrap: usize,
    ) -> Seq<(usize, usize)>;

    /// An image with every register zero.
    fn empty() -> (r: Self)
        ensures
            r.is_zeroed(),
    ;

    /// Primes the image to start `fptr(arg, arg2)` on the stack below `top`;
    /// `bootstrap` is the address of the architecture's trampoline, where it
    /// has one.
    fn init_frame(
        &mut self,
        fptr: usize,
        arg: usize,
        arg2: usize,
        top: usize,
        bootstrap: usize,
    ) -> (w: Vec<(usize, usize)>)
        requires
            Self::frame_fits(fptr, arg, arg2, top, bootstrap),
        ensures
            final(self).framed_from(*old(self), fptr, arg, arg2, top, bootstrap),
            w@ == Self::frame_writes(fptr, arg, arg2, top, bootstrap),
    ;

    /// Two zeroed images are the same image.
    proof fn lemma_zeroed_unique(a: Self, b: Self)
        requires
            a.is_zeroed(),
            b.is_zeroed(),
        ensures
            a == b,
    ;

    /// A fresh image's stack pointer is the aligned top, moved down by the
    /// architecture's fixed offset, and the aligned top meets the required
    /// alignment.
    proof fn lemma_frame_alignment(
        new: Self,
        prev: Self,
        fptr: usize,
        arg: usize,
        arg2: usize,
        top: usize,
        bootstrap: usize,
    )
        requires
            Self::frame_fits(fptr, arg, arg2, top, bootstrap),
            new.framed_from(prev, fptr, arg, arg2, top, bootstrap),
        ensures
            (aligned_down(top) as int) % (Self::required_align() as int) == 0,
            new.stack_pointer() == aligned_down(top) - Self::sp_below_top(),
    ;

    /// The deepest word a fresh frame stores is zero.
    proof fn lemma_bottom_sentinel(
        fptr: usize,
        arg: usize,
        arg2: usize,
        top: usize,
        bootstrap: usize,
    )
        requires
            Self::frame_fits(fptr, arg, arg2, top, bootstrap),
        ensures
            lowest_write_is_zero(Self::frame_writes(fptr, arg, arg2, top, bootstrap)),
    ;
}

} // verus!
