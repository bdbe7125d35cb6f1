//! The 32-bit MIPS (o32) register layout: a flat block of 32 word slots.
use vstd::prelude::*;

use crate::detail::{aligned_down, align_down, mut_offset, Frame};

verus! {

/// Register slots, indexed by register number where one exists.
#[derive(Clone, Copy, Debug)]
pub struct Registers(pub [usize; 32]);

impl Registers {
    /// An image with every register zero.
    pub fn new() -> (r: Registers)
        ensures
            r.is_zeroed(),
    {
        Registers([0usize; 32])
    }

    pub open spec fn is_zeroed(&self) -> bool {
        forall|i: int| 0 <= i < 32 ==> #[trigger] self.0@[i] == 0
    }

    /// What a transfer into this image calls: the function at ra, with a0
    /// and a1 as its arguments. No trampoline is needed.
    pub open spec fn entry_call(&self) -> (usize, usize, usize) {
        (self.0@[31], self.0@[4], self.0@[5])
    }

    pub open spec fn framed_from(
        self,
        prev: Registers,
        fptr: usize,
        arg: usize,
        arg2: usize,
        top: usize,
        bootstrap: usize,
    ) -> bool {
        self.0@ == prev.0@.update(4, arg).update(5, arg2).update(
            29,
            (aligned_down(top) - 8) as usize,
        ).update(25, fptr).update(31, fptr)
    }
}

/// The one stack word of a fresh frame: the zero return address.
pub open spec fn frame_writes(top: usize) -> Seq<(usize, usize)> {
    seq![((aligned_down(top) - 8) as usize, 0usize)]
}

/// Primes `regs` so that a transfer into it calls `fptr(arg, arg2)` on the
/// stack below `sp`; `bootstrap` is not used on this architecture.
pub fn initialize_call_frame(
    regs: &mut Registers,
    fptr: usize,
    arg: usize,
    arg2: usize,
    sp: usize,
    bootstrap: usize,
) -> (w: Vec<(usize, usize)>)
    requires
        16 <= sp < 0x1_0000_0000,
    ensures
        final(regs).framed_from(*old(regs), fptr, arg, arg2, sp, bootstrap),
        w@ == frame_writes(sp),
{
    let top = sp;
    let sp = align_down(sp);
    // The o32 stack pointer is 8-byte aligned.
    let sp = mut_offset(sp, -2, 4);
    let mut w: Vec<(usize, usize)> = Vec::new();
    // The final return address: zero marks the bottom of the stack.
    w.push((sp, 0));

    regs.0[4] = arg;
    regs.0[5] = arg2;
    regs.0[29] = sp;
    regs.0[25] = fptr;
    regs.0[31] = fptr;
    proof {
        assert(w@ =~= frame_writes(top));
    }
    w
}

/// A fresh image resumes in the entry function itself, with both arguments as
/// they were given.
pub proof fn lemma_fresh_entry(
    new: Registers,
    prev: Registers,
    fptr: usize,
    arg: usize,
    arg2: usize,
    top: usize,
    bootstrap: usize,
)
    requires
        new.framed_from(prev, fptr, arg, arg2, top, bootstrap),
    ensures
        new.0@[25] == fptr,
        new.entry_call() == (fptr, arg, arg2),
{
}

impl Frame for Registers {
    open spec fn required_align() -> nat {
        8
    }

    open spec fn sp_below_top() -> nat {
        8
    }

    open spec fn frame_fits(
        fptr: usize,
        arg: usize,
        arg2: usize,
        top: usize,
        bootstrap: usize,
    ) -> bool {
        16 <= top < 0x1_0000_0000
    }

    open spec fn is_zeroed(&self) -> bool {
        Registers::is_zeroed(self)
    }

    open spec fn stack_pointer(&self) -> int {
        self.0@[29] as int
    }

    open spec fn framed_from(
        self,
        prev: Registers,
        fptr: usize,
        arg: usize,
        arg2: usize,
        top: usize,
        bootstrap: usize,
    ) -> bool {
        Registers::framed_from(self, prev, fptr, arg, arg2, top, bootstrap)
    }

    open spec fn frame_writes(
        fptr: usize,
        arg: usize,
        arg2: usize,
        top: usize,
        bootstrap: usize,
    ) -> Seq<(usize, usize)> {
        frame_writes(top)
    }

    fn empty() -> (r: Registers) {
        Registers::new()
    }

    fn init_frame(
        &mut self,
        fptr: usize,
        arg: usize,
        arg2: usize,
        top: usize,
        bootstrap: usize,
    ) -> (w: Vec<(usize, usize)>) {
        initialize_call_frame(self, fptr, arg, arg2, top, bootstrap)
    }

    proof fn lemma_zeroed_unique(a: Registers, b: Registers) {
        assert(a.0 =~= b.0);
    }

    proof fn lemma_frame_alignment(
        new: Registers,
        prev: Registers,
        fptr: usize,
        arg: usize,
        arg2: usize,
        top: usize,
        bootstrap: usize,
    ) {
    }

    proof fn lemma_bottom_sentinel(
        fptr: usize,
        arg: usize,
        arg2: usize,
        top: usize,
        bootstrap: usize,
    ) {
    }
}

} // verus!
