//! Execution contexts: a register image together with the bounds of the
//! stack it runs on.
use vstd::prelude::*;

use crate::detail::Frame;

verus! {

/// A stack region given by its base (lowest) and top (highest) address.
#[derive(Clone, Copy, Debug)]
pub struct Stack {
    pub start: usize,
    pub end: usize,
}

impl Stack {
    /// The region from `start` up to `end`.
    pub fn new(start: usize, end: usize) -> (r: Stack)
        requires
            start <= end,
        ensures
            r.start == start,
            r.end == end,
    {
        Stack { start, end }
    }

    /// The lowest address of the region.
    pub fn start(&self) -> (r: usize)
        ensures
            r == self.start,
    {
        self.start
    }

    /// The highest address of the region.
    pub fn end(&self) -> (r: usize)
        ensures
            r == self.end,
    {
        self.end
    }
}

/// What the machine-level transfer does next: publish `bounds` to the
/// stack-bounds recorder, then install `regs`.
#[derive(Debug)]
pub struct Transfer<R> {
    pub bounds: (usize, usize),
    pub regs: R,
}

/// The bounds of a stack whose base is `base` and whose top is `top`: none
/// for a zero-length stack, which marks a flow on a stack of its own
/// (a thread's native stack).
pub open spec fn bounds_for(base: usize, top: usize) -> Option<(usize, usize)> {
    if top == base {
        None
    } else {
        Some((base, top))
    }
}

/// The range handed to the bounds recorder: the bounds themselves, or the
/// whole address space when there are none, so that no overflow check fires.
pub open spec fn recorded_bounds(bounds: Option<(usize, usize)>) -> (usize, usize) {
    match bounds {
        Some(b) => b,
        None => (0, usize::MAX),
    }
}

/// The range to publish to the bounds recorder for a flow with `bounds`.
pub fn record_range(bounds: Option<(usize, usize)>) -> (r: (usize, usize))
    ensures
        r == recorded_bounds(bounds),
{
    match bounds {
        Some((lo, hi)) => (lo, hi),
        None => (0, usize::MAX),
    }
}

#[derive(Debug)]
pub struct Context<R: Frame> {
    /// The registers, held while the flow is suspended.
    pub regs: R,
    /// Lower and upper bound of the stack.
    pub stack_bounds: Option<(usize, usize)>,
}

impl<R: Frame> Context<R> {
    /// A zeroed image with no stack bounds.
    pub open spec fn is_empty(&self) -> bool {
        self.regs.is_zeroed() && self.stack_bounds is None
    }

    /// This context after the live registers `live` were saved into it.
    pub open spec fn saved(self, live: R) -> Context<R> {
        Context { regs: live, stack_bounds: self.stack_bounds }
    }

    /// The transfer that resumes this context.
    pub open spec fn resumption(self) -> Transfer<R> {
        Transfer { bounds: recorded_bounds(self.stack_bounds), regs: self.regs }
    }

    /// A placeholder context: zeroed registers and no stack bounds. It is not
    /// resumable until something is saved into it or a frame is built in it.
    pub fn empty() -> (r: Context<R>)
        ensures
            r.is_empty(),
    {
        Context { regs: R::empty(), stack_bounds: None }
    }

    /// A context that, once transferred into, runs `init(arg, start)` on
    /// `stack`. The stack words the frame needs come back with it, to be
    /// stored before the first transfer.
    pub fn new(init: usize, arg: usize, start: usize, stack: &Stack, bootstrap: usize) -> (r: (
        Context<R>,
        Vec<(usize, usize)>,
    ))
        requires
            R::frame_fits(init, arg, start, stack.end, bootstrap),
        ensures
            exists|z: R|
                z.is_zeroed() && #[trigger] r.0.regs.framed_from(
                    z,
                    init,
                    arg,
                    start,
                    stack.end,
                    bootstrap,
                ),
            r.0.stack_bounds == bounds_for(stack.start, stack.end),
            r.1@ == R::frame_writes(init, arg, start, stack.end, bootstrap),
    {
        let mut ctx: Context<R> = Context::empty();
        let ghost z: R = ctx.regs;
        let w = ctx.init_with(init, arg, start, stack, bootstrap);
        assert(ctx.regs.framed_from(z, init, arg, start, stack.end, bootstrap));
        (ctx, w)
    }

    /// Builds a fresh frame in this context, so that a transfer into it runs
    /// `init(arg, start)` on `stack`, and returns the stack words to store.
    pub fn init_with(
        &mut self,
        init: usize,
        arg: usize,
        start: usize,
        stack: &Stack,
        bootstrap: usize,
    ) -> (w: Vec<(usize, usize)>)
        requires
            R::frame_fits(init, arg, start, stack.end, bootstrap),
        ensures
            final(self).regs.framed_from(old(self).regs, init, arg, start, stack.end, bootstrap),
            final(self).stack_bounds == bounds_for(stack.start, stack.end),
            w@ == R::frame_writes(init, arg, start, stack.end, bootstrap),
    {
        let sp = stack.end();
        let w = self.regs.init_frame(init, arg, start, sp, bootstrap);
        // A flow on its own native stack is listed with a zero-length stack.
        let stack_base = stack.start();
        self.stack_bounds = if sp == stack_base {
            None
        } else {
            Some((stack_base, sp))
        };
        w
    }

    /// The range to publish to the bounds recorder before transferring into
    /// this context.
    pub fn bounds_to_record(&self) -> (r: (usize, usize))
        ensures
            r == recorded_bounds(self.stack_bounds),
    {
        record_range(self.stack_bounds)
    }

    /// A switch from the running flow, whose live registers are `live`, to
    /// `in_context`: `live` goes into `out_context`, and the returned transfer
    /// publishes `in_context`'s bounds and installs its registers. Carrying
    /// out the transfer is the machine-level routine's part.
    pub fn swap(out_context: &mut Context<R>, in_context: &Context<R>, live: R) -> (t: Transfer<R>)
        ensures
            *final(out_context) == old(out_context).saved(live),
            t == in_context.resumption(),
    {
        let bounds = in_context.bounds_to_record();
        out_context.regs = live;
        Transfer { bounds, regs: in_context.regs }
    }

    /// Saves the live registers `live` into `context`; the flow goes on.
    pub fn save(context: &mut Context<R>, live: R)
        ensures
            *final(context) == old(context).saved(live),
    {
        context.regs = live;
    }

    /// The transfer that resumes `to_context`; the flow that carries it out
    /// never continues.
    pub fn load(to_context: &Context<R>) -> (t: Transfer<R>)
        ensures
            t == to_context.resumption(),
    {
        Transfer { bounds: to_context.bounds_to_record(), regs: to_context.regs }
    }

    /// The saved register image.
    pub fn regs(&self) -> (r: &R)
        ensures
            *r == self.regs,
    {
        &self.regs
    }

    /// The stack bounds, if the context runs on a stack of its own.
    pub fn stack_bounds(&self) -> (r: Option<(usize, usize)>)
        ensures
            r == self.stack_bounds,
    {
        self.stack_bounds
    }
}

/// Saving live registers into a context and later loading that context
/// installs exactly the registers that were saved, under the context's own
/// bounds.
pub proof fn lemma_save_then_load<R: Frame>(ctx: Context<R>, live: R)
    ensures
        ctx.saved(live).resumption().regs == live,
        ctx.saved(live).resumption().bounds == recorded_bounds(ctx.stack_bounds),
{
}

/// `swap(a, b)` with live registers `live_a`, then, from the flow it
/// entered, `swap(b, a)` with live registers `live_b`: the first enters `b`,
/// the second installs `live_a` again under `a`'s bounds, so control comes
/// back to the first swap with `a`'s state intact, and `b` keeps its bounds
/// for a later return.
pub proof fn lemma_swap_symmetry<R: Frame>(a: Context<R>, b: Context<R>, live_a: R, live_b: R)
    ensures
        ({
            let a1 = a.saved(live_a);
            let b1 = b.saved(live_b);
            &&& b.resumption() == Transfer { bounds: recorded_bounds(b.stack_bounds), regs: b.regs }
            &&& a1.resumption() == Transfer { bounds: recorded_bounds(a.stack_bounds), regs: live_a }
            &&& b1.resumption() == Transfer { bounds: recorded_bounds(b.stack_bounds), regs: live_b }
        }),
{
}

/// A context built over a stack has bounds from the stack's base to its top,
/// unless the two coincide, and then none.
pub proof fn lemma_bounds<R: Frame>(ctx: Context<R>, stack: Stack)
    requires
        ctx.stack_bounds == bounds_for(stack.start, stack.end),
    ensures
        stack.end != stack.start ==> ctx.stack_bounds == Some((stack.start, stack.end)),
        stack.end == stack.start ==> ctx.stack_bounds is None,
{
}

/// Any two empty contexts are the same value.
pub proof fn lemma_empty_deterministic<R: Frame>(a: Context<R>, b: Context<R>)
    requires
        a.is_empty(),
        b.is_empty(),
    ensures
        a == b,
{
    R::lemma_zeroed_unique(a.regs, b.regs);
}

} // verus!
