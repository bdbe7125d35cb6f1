use context::context::record_range;
use context::detail::{align_down, arm, mips, mut_offset, win64, x86, x86_64};
use context::{Context, Stack};

const MIN_STACK: usize = 2 * 1024 * 1024;

const STACK_BASE: usize = 0x7f00_0000_0000;
const INIT_FN: usize = 0x5555_0000_1000;
const CALLBACK: usize = 0x5555_0000_2000;
const BOOTSTRAP: usize = 0x5555_0000_3000;

fn live_image(seed: usize) -> x86_64::Registers {
    let mut regs = x86_64::Registers::new();
    for i in 0..10 {
        regs.gpr[i] = seed + i;
    }
    regs.xmm[3] = [1, 2, 3, seed as u32];
    regs
}

#[test]
fn test_swap_context() {
    let mut cur: Context<x86_64::Registers> = Context::empty();
    let cur_addr: usize = 0x7ffc_0000_0040;
    let stk = Stack::new(STACK_BASE, STACK_BASE + MIN_STACK);
    let (ctx, writes) = Context::<x86_64::Registers>::new(INIT_FN, cur_addr, CALLBACK, &stk, BOOTSTRAP);
    assert_eq!(writes.len(), 3);

    let live = live_image(100);
    let t = Context::swap(&mut cur, &ctx, live);
    assert_eq!(t.bounds, (STACK_BASE, STACK_BASE + MIN_STACK));
    assert_eq!(t.regs.gpr, ctx.regs().gpr);
    assert_eq!(t.regs.gpr[x86_64::RUSTRT_IP], BOOTSTRAP);
    assert_eq!(cur.regs().gpr, live.gpr);
    assert_eq!(cur.stack_bounds(), None);
}

#[test]
fn test_load_save_context() {
    let mut cur: Context<x86_64::Registers> = Context::empty();
    let cur_addr: usize = 0x7ffc_0000_0040;
    let stk = Stack::new(STACK_BASE, STACK_BASE + MIN_STACK);
    let (ctx, _writes) = Context::<x86_64::Registers>::new(INIT_FN, cur_addr, CALLBACK, &stk, BOOTSTRAP);

    let no_use = true;
    let live = live_image(7);
    Context::save(&mut cur, live);
    assert_eq!(cur.regs().gpr, live.gpr);
    if no_use {
        let t = Context::load(&ctx);
        assert_eq!(t.regs.gpr[x86_64::RUSTRT_RSP], STACK_BASE + MIN_STACK - 24);
        assert_eq!(t.bounds, (STACK_BASE, STACK_BASE + MIN_STACK));
    }
}

#[test]
fn empty_contexts_are_identical() {
    let a: Context<x86_64::Registers> = Context::empty();
    let b: Context<x86_64::Registers> = Context::empty();
    assert_eq!(a.regs().gpr, [0usize; 10]);
    assert_eq!(a.regs().xmm, [[0u32; 4]; 6]);
    assert_eq!(a.regs().gpr, b.regs().gpr);
    assert_eq!(a.regs().xmm, b.regs().xmm);
    assert_eq!(a.stack_bounds(), None);
    assert_eq!(b.stack_bounds(), None);
    let w: Context<win64::Registers> = Context::empty();
    assert_eq!(w.regs().gpr, [0usize; 14]);
    assert_eq!(w.regs().xmm, [[0u32; 4]; 10]);
    let m: Context<mips::Registers> = Context::empty();
    assert_eq!(m.regs().0, [0usize; 32]);
    let r: Context<arm::Registers> = Context::empty();
    assert_eq!(r.regs().0, [0usize; 32]);
    let x: Context<x86::Registers> = Context::empty();
    assert_eq!(x.regs().esp, 0);
    assert_eq!(x.regs().eip, 0);
    assert_eq!(x.regs().gs, 0);
}

#[test]
fn bounds_cover_a_dedicated_stack() {
    let stk = Stack::new(0x1000, 0x9000);
    let (ctx, _w) = Context::<x86_64::Registers>::new(INIT_FN, 1, 2, &stk, BOOTSTRAP);
    assert_eq!(ctx.stack_bounds(), Some((0x1000, 0x9000)));
    assert_eq!(ctx.bounds_to_record(), (0x1000, 0x9000));
}

#[test]
fn zero_length_stack_has_no_bounds() {
    let stk = Stack::new(0x9000, 0x9000);
    let (ctx, _w) = Context::<x86_64::Registers>::new(INIT_FN, 1, 2, &stk, BOOTSTRAP);
    assert_eq!(ctx.stack_bounds(), None);
    assert_eq!(ctx.bounds_to_record(), (0, usize::MAX));
}

#[test]
fn recorded_range_without_bounds_is_everything() {
    assert_eq!(record_range(None), (0, usize::MAX));
    assert_eq!(record_range(Some((16, 32))), (16, 32));
}

#[test]
fn align_down_rounds_to_sixteen() {
    assert_eq!(align_down(0x1000), 0x1000);
    assert_eq!(align_down(0x100f), 0x1000);
    assert_eq!(align_down(0x1010), 0x1010);
    assert_eq!(align_down(15), 0);
    assert_eq!(align_down(usize::MAX), usize::MAX - 15);
}

#[test]
fn mut_offset_moves_by_words() {
    assert_eq!(mut_offset(0x1000, -1, 8), 0xff8);
    assert_eq!(mut_offset(0x1000, -4, 4), 0xff0);
    assert_eq!(mut_offset(0x1000, 2, 4), 0x1008);
    assert_eq!(mut_offset(0x1000, 0, 8), 0x1000);
}

#[test]
fn x86_64_frame_layout() {
    let mut regs = x86_64::Registers::new();
    regs.gpr[0] = 0xaa;
    regs.gpr[7] = 0xbb;
    let w = x86_64::initialize_call_frame(&mut regs, INIT_FN, 11, 22, 0x1000_0013, BOOTSTRAP);
    assert_eq!(w, vec![(0x1000_0008, 0), (0x0fff_fff8, 0), (0x1000_0000, BOOTSTRAP)]);
    assert_eq!(regs.gpr[x86_64::RUSTRT_R12], 11);
    assert_eq!(regs.gpr[x86_64::RUSTRT_R13], 22);
    assert_eq!(regs.gpr[x86_64::RUSTRT_R14], INIT_FN);
    assert_eq!(regs.gpr[x86_64::RUSTRT_RSP], 0x0fff_fff8);
    assert_eq!(regs.gpr[x86_64::RUSTRT_IP], BOOTSTRAP);
    assert_eq!(regs.gpr[x86_64::RUSTRT_RBP], 0);
    assert_eq!(regs.gpr[0], 0xaa);
    assert_eq!(regs.gpr[7], 0xbb);
    assert_eq!(regs.gpr[x86_64::RUSTRT_RSP] % 16, 8);
}

#[test]
fn win64_frame_layout() {
    let mut regs = win64::Registers::new();
    regs.gpr[9] = 0x99;
    let w = win64::initialize_call_frame(&mut regs, INIT_FN, 11, 22, 0x2000, BOOTSTRAP);
    assert_eq!(w, vec![(0x1ff8, 0), (0x1fe8, 0), (0x1ff0, BOOTSTRAP)]);
    assert_eq!(regs.gpr[4], 11);
    assert_eq!(regs.gpr[5], 22);
    assert_eq!(regs.gpr[6], INIT_FN);
    assert_eq!(regs.gpr[1], 0x1fe8);
    assert_eq!(regs.gpr[8], BOOTSTRAP);
    assert_eq!(regs.gpr[2], 0);
    assert_eq!(regs.gpr[9], 0x99);
}

#[test]
fn arm_frame_layout() {
    let mut regs = arm::Registers::new();
    let w = arm::initialize_call_frame(&mut regs, 0x8000, 11, 22, 0x2003, 0x9000);
    assert_eq!(w, vec![(0x1ff8, 0)]);
    assert_eq!(regs.0[0], 11);
    assert_eq!(regs.0[3], 22);
    assert_eq!(regs.0[5], 0x8000);
    assert_eq!(regs.0[13], 0x1ff8);
    assert_eq!(regs.0[14], 0x9000);
    assert_eq!(regs.0[13] % 8, 0);
    assert_eq!(regs.0[1], 0);
}

#[test]
fn mips_frame_layout() {
    let mut regs = mips::Registers::new();
    let w = mips::initialize_call_frame(&mut regs, 0x8000, 11, 22, 0x2003, 0x9000);
    assert_eq!(w, vec![(0x1ff8, 0)]);
    assert_eq!(regs.0[4], 11);
    assert_eq!(regs.0[5], 22);
    assert_eq!(regs.0[29], 0x1ff8);
    assert_eq!(regs.0[25], 0x8000);
    assert_eq!(regs.0[31], 0x8000);
    assert_eq!(regs.0[14], 0);
}

#[test]
fn x86_frame_layout() {
    let mut regs = x86::Registers::new();
    regs.eax = 5;
    let w = x86::initialize_call_frame(&mut regs, 0x8000, 11, 22, 0x3007, 0x9000);
    assert_eq!(w, vec![(0x2ff8, 22), (0x2ff4, 11), (0x2ff0, 0)]);
    assert_eq!(regs.esp, 0x2ff0);
    assert_eq!(regs.eip, 0x8000);
    assert_eq!(regs.ebp, 0);
    assert_eq!(regs.eax, 5);
}

#[test]
fn init_with_reprimes_an_existing_context() {
    let mut ctx: Context<mips::Registers> = Context::empty();
    let first = Stack::new(0x1000, 0x2000);
    let _ = ctx.init_with(0x100, 1, 2, &first, 0);
    assert_eq!(ctx.stack_bounds(), Some((0x1000, 0x2000)));
    let second = Stack::new(0x4000, 0x6000);
    let w = ctx.init_with(0x200, 3, 4, &second, 0);
    assert_eq!(w, vec![(0x5ff8, 0)]);
    assert_eq!(ctx.stack_bounds(), Some((0x4000, 0x6000)));
    assert_eq!(ctx.regs().0[25], 0x200);
    assert_eq!(ctx.regs().0[4], 3);
}

#[test]
fn save_then_load_resumes_saved_registers() {
    let stk = Stack::new(0x10_0000, 0x30_0000);
    let (mut ctx, _w) = Context::<arm::Registers>::new(0x100, 1, 2, &stk, 0x300);
    let mut live = arm::Registers::new();
    live.0[13] = 0x12_3450;
    live.0[14] = 0x777;
    Context::save(&mut ctx, live);
    let t = Context::load(&ctx);
    assert_eq!(t.regs.0, live.0);
    assert_eq!(t.bounds, (0x10_0000, 0x30_0000));
}

#[test]
fn swap_back_returns_to_first_flow() {
    let mut a: Context<x86_64::Registers> = Context::empty();
    let stk = Stack::new(STACK_BASE, STACK_BASE + MIN_STACK);
    let (mut b, _w) = Context::<x86_64::Registers>::new(INIT_FN, 1, 2, &stk, BOOTSTRAP);
    let live_a = live_image(1000);
    let t1 = Context::swap(&mut a, &b, live_a);
    assert_eq!(t1.regs.gpr[x86_64::RUSTRT_IP], BOOTSTRAP);
    let live_b = live_image(2000);
    let t2 = Context::swap(&mut b, &a, live_b);
    assert_eq!(t2.regs.gpr, live_a.gpr);
    assert_eq!(t2.regs.xmm, live_a.xmm);
    assert_eq!(t2.bounds, (0, usize::MAX));
    let t3 = Context::load(&b);
    assert_eq!(t3.regs.gpr, live_b.gpr);
    assert_eq!(t3.bounds, (STACK_BASE, STACK_BASE + MIN_STACK));
}

#[test]
fn trampoline_flag_scenario() {
    // A 2MB stack; X runs the entry through the trampoline with a flag
    // pointer as its argument and a routine pointer as its thunk.
    let flag_addr: usize = 0x7ffc_0000_1000;
    let routine: usize = 0x5555_0000_4000;
    let stk = Stack::new(STACK_BASE, STACK_BASE + MIN_STACK);
    let (x, writes) = Context::<x86_64::Registers>::new(INIT_FN, flag_addr, routine, &stk, BOOTSTRAP);
    let top = STACK_BASE + MIN_STACK;
    assert_eq!(writes, vec![(top - 8, 0), (top - 24, 0), (top - 16, BOOTSTRAP)]);

    let mut main_ctx: Context<x86_64::Registers> = Context::empty();
    Context::save(&mut main_ctx, live_image(1));
    let main_live = live_image(2);
    let into_x = Context::swap(&mut main_ctx, &x, main_live);
    assert_eq!(into_x.regs.gpr[x86_64::RUSTRT_IP], BOOTSTRAP);
    assert_eq!(into_x.regs.gpr[x86_64::RUSTRT_R14], INIT_FN);
    assert_eq!(into_x.regs.gpr[x86_64::RUSTRT_R12], flag_addr);
    assert_eq!(into_x.regs.gpr[x86_64::RUSTRT_R13], routine);
    assert_eq!(into_x.bounds, (STACK_BASE, top));

    // The routine loads main's saved context: main resumes where it swapped.
    let back = Context::load(&main_ctx);
    assert_eq!(back.regs.gpr, main_live.gpr);
    assert_eq!(back.bounds, (0, usize::MAX));
}
