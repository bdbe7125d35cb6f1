//! The 64-bit x86 register layout of the System V convention.
use vstd::prelude::*;

use crate::detail::{aligned_down, align_down, mut_offset, Frame};

verus! {

/// Slot of the stack pointer.
pub const RUSTRT_RSP: usize = 1;
/// Slot of the frame pointer.
pub const RUSTRT_RBP: usize = 2;
/// Slot of r12, which carries the first argument into the trampoline.
pub const RUSTRT_R12: usize = 4;
/// Slot of r13, which carries the second argument into the trampoline.
pub const RUSTRT_R13: usize = 5;
/// Slot of r14, which carries the entry function into the trampoline.
pub const RUSTRT_R14: usize = 6;
/// Slot of the resume address.
pub const RUSTRT_IP: usize = 8;

/// Callee-saved general registers and the vector registers carried across
/// a switch.
#[derive(Clone, Copy, Debug)]
pub struct Registers {
    pub gpr: [usize; 10],
    pub xmm: [[u32; 4]; 6],
}

impl Registers {
    /// An image with every register zero.
    pub fn new() -> (r: Registers)
        ensures
            r.is_zeroed(),
    {
        Registers { gpr: [0usize; 10], xmm: [[0u32; 4]; 6] }
    }

    pub open spec fn is_zeroed(&self) -> bool {
        &&& forall|i: int| 0 <= i < 10 ==> #[trigger] self.gpr@[i] == 0
        &&& forall|i: int, j: int| 0 <= i < 6 && 0 <= j < 4 ==> #[trigger] self.xmm@[i]@[j] == 0
    }

    /// What the trampoline calls when this image is resumed: the entry
    /// function and its two arguments, taken from r14, r12 and r13.
    pub open spec fn trampoline_call(&self) -> (usize, usize, usize) {
        (self.gpr@[RUSTRT_R14 as int], self.gpr@[RUSTRT_R12 as int], self.gpr@[RUSTRT_R13 as int])
    }

    pub open spec fn framed_from(
        self,
        prev: Registers,
        fptr: usize,
        arg: usize,
        arg2: usize,
        top: usize,
        bootstrap: usize,
    ) -> bool {
        &&& self.xmm == prev.xmm
        &&& self.gpr@ == prev.gpr@.update(RUSTRT_R12 as int, arg).update(
            RUSTRT_R13 as int,
            arg2,
        ).update(RUSTRT_R14 as int, fptr).update(
            RUSTRT_RSP as int,
            (aligned_down(top) - 24) as usize,
        ).update(RUSTRT_IP as int, bootstrap).update(RUSTRT_RBP as int, 0)
    }
}

/// The stack words of a fresh frame: the zero return address just under the
/// aligned top, then a zero saved frame pointer and the trampoline address
/// where the stack pointer starts.
pub open spec fn frame_writes(top: usize, bootstrap: usize) -> Seq<(usize, usize)> {
    let a = aligned_down(top);
    seq![((a - 8) as usize, 0usize), ((a - 24) as usize, 0usize), ((a - 16) as usize, bootstrap)]
}

/// Primes `regs` so that a transfer into it runs the trampoline, which calls
/// `fptr(arg, arg2)` on the stack below `sp`.
pub fn initialize_call_frame(
    regs: &mut Registers,
    fptr: usize,
    arg: usize,
    arg2: usize,
    sp: usize,
    bootstrap: usize,
) -> (w: Vec<(usize, usize)>)
    requires
        sp >= 32,
    ensures
        final(regs).framed_from(*old(regs), fptr, arg, arg2, sp, bootstrap),
        w@ == frame_writes(sp, bootstrap),
{
    let sp = align_down(sp);
    let sp = mut_offset(sp, -1, 8);
    let mut w: Vec<(usize, usize)> = Vec::new();
    // The final return address: zero marks the bottom of the stack.
    w.push((sp, 0));

    regs.gpr[RUSTRT_R12] = arg;
    regs.gpr[RUSTRT_R13] = arg2;
    regs.gpr[RUSTRT_R14] = fptr;

    regs.gpr[RUSTRT_RSP] = mut_offset(sp, -2, 8);
    regs.gpr[RUSTRT_IP] = bootstrap;

    w.push((mut_offset(sp, -2, 8), 0));
    w.push((mut_offset(sp, -1, 8), bootstrap));

    // The last frame pointer on the stack is zero.
    regs.gpr[RUSTRT_RBP] = 0;
    proof {
        assert(w@ =~= frame_writes((sp + 8) as usize, bootstrap));
    }
    w
}

/// A fresh image resumes at the trampoline, which then calls the entry
/// function with both arguments as they were given.
pub proof fn lemma_fresh_entry(
    new: Registers,
    prev: Registers,
    fptr: usize,
    arg: usize,
    arg2: usize,
    top: usize,
    bootstrap: usize,
)
    requires
        new.framed_from(prev, fptr, arg, arg2, top, bootstrap),
    ensures
        new.gpr@[RUSTRT_IP as int] == bootstrap,
        new.trampoline_call() == (fptr, arg, arg2),
{
}

impl Frame for Registers {
    open spec fn required_align() -> nat {
        16
    }

    open spec fn sp_below_top() -> nat {
        24
    }

    open spec fn frame_fits(
        fptr: usize,
        arg: usize,
        arg2: usize,
        top: usize,
        bootstrap: usize,
    ) -> bool {
        top >= 32
    }

    open spec fn is_zeroed(&self) -> bool {
        Registers::is_zeroed(self)
    }

    open spec fn stack_pointer(&self) -> int {
        self.gpr@[RUSTRT_RSP as int] as int
    }

    open spec fn framed_from(
        self,
        prev: Registers,
        fptr: usize,
        arg: usize,
        arg2: usize,
        top: usize,
        bootstrap: usize,
    ) -> bool {
        Registers::framed_from(self, prev, fptr, arg, arg2, top, bootstrap)
    }

    open spec fn frame_writes(
        fptr: usize,
        arg: usize,
        arg2: usize,
        top: usize,
        bootstrap: usize,
    ) -> Seq<(usize, usize)> {
        frame_writes(top, bootstrap)
    }

    fn empty() -> (r: Registers) {
        Registers::new()
    }

    fn init_frame(
        &mut self,
        fptr: usize,
        arg: usize,
        arg2: usize,
        top: usize,
        bootstrap: usize,
    ) -> (w: Vec<(usize, usize)>) {
        initialize_call_frame(self, fptr, arg, arg2, top, bootstrap)
    }

    proof fn lemma_zeroed_unique(a: Registers, b: Registers) {
        assert forall|i: int| 0 <= i < 6 implies a.xmm[i] == b.xmm[i] by {
            assert(a.xmm[i] =~= b.xmm[i]);
        }
        assert(a.gpr =~= b.gpr);
        assert(a.xmm =~= b.xmm);
    }

    proof fn lemma_frame_alignment(
        new: Registers,
        prev: Registers,
        fptr: usize,
        arg: usize,
        arg2: usize,
        top: usize,
        bootstrap: usize,
    ) {
    }

    proof fn lemma_bottom_sentinel(
        fptr: usize,
        arg: usize,
        arg2: usize,
        top: usize,
        bootstrap: usize,
    ) {
        let ws = frame_writes(top, bootstrap);
        assert(ws[1].0 <= ws[0].0 && ws[1].0 < ws[2].0);
    }
}

} // verus!
