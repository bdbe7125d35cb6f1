//! The 32-bit x86 register layout: one named field per register.
use vstd::prelude::*;

use crate::detail::{aligned_down, align_down, mut_offset, Frame};

verus! {

#[derive(Clone, Copy, Debug)]
pub struct Registers {
    pub eax: u32,
    pub ebx: u32,
    pub ecx: u32,
    pub edx: u32,
    pub ebp: u32,
    pub esi: u32,
    pub edi: u32,
    pub esp: u32,
    pub cs: u16,
    pub ds: u16,
    pub ss: u16,
    pub es: u16,
    pub fs: u16,
    pub gs: u16,
    pub eflags: u32,
    pub eip: u32,
}

impl Registers {
    /// An image with every register zero.
    pub fn new() -> (r: Registers)
        ensures
            r.is_zeroed(),
    {
        Registers {
            eax: 0,
            ebx: 0,
            ecx: 0,
            edx: 0,
            ebp: 0,
            esi: 0,
            edi: 0,
            esp: 0,
            cs: 0,
            ds: 0,
            ss: 0,
            es: 0,
            fs: 0,
            gs: 0,
            eflags: 0,
            eip: 0,
        }
    }

    pub open spec fn is_zeroed(&self) -> bool {
        &&& self.eax == 0 && self.ebx == 0 && self.ecx == 0 && self.edx == 0
        &&& self.ebp == 0 && self.esi == 0 && self.edi == 0 && self.esp == 0
        &&& self.cs == 0 && self.ds == 0 && self.ss == 0 && self.es == 0
        &&& self.fs == 0 && self.gs == 0 && self.eflags == 0 && self.eip == 0
    }

    pub open spec fn framed_from(
        self,
        prev: Registers,
        fptr: usize,
        arg: usize,
        arg2: usize,
        top: usize,
        bootstrap: usize,
    ) -> bool {
        self == (Registers {
            esp: (aligned_down(top) - 16) as u32,
            eip: fptr as u32,
            ebp: 0,
            ..prev
        })
    }
}

/// The stack words of a fresh frame, four words under the aligned top: the
/// zero return address at the stack pointer, then the two arguments above it.
pub open spec fn frame_writes(arg: usize, arg2: usize, top: usize) -> Seq<(usize, usize)> {
    let sp = aligned_down(top) - 16;
    seq![((sp + 8) as usize, arg2), ((sp + 4) as usize, arg), (sp as usize, 0usize)]
}

/// Primes `regs` so that a transfer into it calls `fptr(arg1, arg2)` on the
/// stack below `sp`, the arguments passed on the stack; `bootstrap` is not
/// used on this architecture.
pub fn initialize_call_frame(
    regs: &mut Registers,
    fptr: usize,
    arg1: usize,
    arg2: usize,
    sp: usize,
    bootstrap: usize,
) -> (w: Vec<(usize, usize)>)
    requires
        16 <= sp < 0x1_0000_0000,
        fptr < 0x1_0000_0000,
    ensures
        final(regs).framed_from(*old(regs), fptr, arg1, arg2, sp, bootstrap),
        w@ == frame_writes(arg1, arg2, sp),
{
    let top = sp;
    // Align, then leave room for the return address and the two arguments.
    let sp = align_down(sp);
    let sp = mut_offset(sp, -4, 4);
    let mut w: Vec<(usize, usize)> = Vec::new();
    w.push((mut_offset(sp, 2, 4), arg2));
    w.push((mut_offset(sp, 1, 4), arg1));
    // The final return address: zero, as the entry function never returns.
    w.push((sp, 0));

    regs.esp = sp as u32;
    regs.eip = fptr as u32;

    // The last frame pointer on the stack is zero.
    regs.ebp = 0;
    proof {
        assert(w@ =~= frame_writes(arg1, arg2, top));
    }
    w
}

/// A fresh image resumes in the entry function itself, whose stack holds the
/// zero return address and, above it, both arguments as they were given.
pub proof fn lemma_fresh_entry(
    new: Registers,
    prev: Registers,
    fptr: usize,
    arg: usize,
    arg2: usize,
    top: usize,
    bootstrap: usize,
)
    requires
        16 <= top < 0x1_0000_0000,
        fptr < 0x1_0000_0000,
        new.framed_from(prev, fptr, arg, arg2, top, bootstrap),
    ensures
        new.eip == fptr,
        frame_writes(arg, arg2, top).contains((new.esp as usize, 0usize)),
        frame_writes(arg, arg2, top).contains(((new.esp + 4) as usize, arg)),
        frame_writes(arg, arg2, top).contains(((new.esp + 8) as usize, arg2)),
{
    let ws = frame_writes(arg, arg2, top);
    assert(ws[2] == (new.esp as usize, 0usize));
    assert(ws[1] == ((new.esp + 4) as usize, arg));
    assert(ws[0] == ((new.esp + 8) as usize, arg2));
}

impl Frame for Registers {
    open spec fn required_align() -> nat {
        16
    }

    open spec fn sp_below_top() -> nat {
        16
    }

    open spec fn frame_fits(
        fptr: usize,
        arg: usize,
        arg2: usize,
        top: usize,
        bootstrap: usize,
    ) -> bool {
        16 <= top < 0x1_0000_0000 && fptr < 0x1_0000_0000
    }

    open spec fn is_zeroed(&self) -> bool {
        Registers::is_zeroed(self)
    }

    open spec fn stack_pointer(&self) -> int {
        self.esp as int
    }

    open spec fn framed_from(
        self,
        prev: Registers,
        fptr: usize,
        arg: usize,
        arg2: usize,
        top: usize,
        bootstrap: usize,
    ) -> bool {
        Registers::framed_from(self, prev, fptr, arg, arg2, top, bootstrap)
    }

    open spec fn frame_writes(
        fptr: usize,
        arg: usize,
        arg2: usize,
        top: usize,
        bootstrap: usize,
    ) -> Seq<(usize, usize)> {
        frame_writes(arg, arg2, top)
    }

    fn empty() -> (r: Registers) {
        Registers::new()
    }

    fn init_frame(
        &mut self,
        fptr: usize,
        arg: usize,
        arg2: usize,
        top: usize,
        bootstrap: usize,
    ) -> (w: Vec<(usize, usize)>) {
        initialize_call_frame(self, fptr, arg, arg2, top, bootstrap)
    }

    proof fn lemma_zeroed_unique(a: Registers, b: Registers) {
    }

    proof fn lemma_frame_alignment(
        new: Registers,
        prev: Registers,
        fptr: usize,
        arg: usize,
        arg2: usize,
        top: usize,
        bootstrap: usize,
    ) {
    }

    proof fn lemma_bottom_sentinel(
        fptr: usize,
        arg: usize,
        arg2: usize,
        top: usize,
        bootstrap: usize,
    ) {
        let ws = frame_writes(arg, arg2, top);
        assert(ws[2].0 < ws[1].0 && ws[1].0 < ws[0].0);
    }
}

} // verus!
