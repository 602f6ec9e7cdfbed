//! What holds of the contexts of basic blocks whatever code is compiled.

use vstd::prelude::*;
use crate::bbctx::{lemma_filter_subset, BBView, LinkMode, WriteBackView};
use crate::ids::SlotId;

verus! {

/// Soundness of a context: a slot that is linked to a register is listed
/// under that register, and a slot that is listed under a register is
/// linked to it; no slot is listed twice.
///
/// Every operation on a context, every compilation rule and the driver keep
/// contexts well formed; this is what well-formedness means.
pub proof fn lemma_context_sound(ctx: BBView, s: SlotId, f: u16)
    requires
        ctx.wf(),
    ensures
        s.0 < ctx.slots.len() && ctx.mode(s).xmm() == Some(f) ==> f < 14 && ctx.xmm[f as int].contains(s),
        f < 14 && ctx.xmm[f as int].contains(s) ==> s.0 < ctx.slots.len() && ctx.mode(s).xmm() == Some(f),
        f < 14 ==> ctx.xmm[f as int].no_duplicates(),
{
    if s.0 < ctx.slots.len() && ctx.mode(s).xmm() == Some(f) {
        assert(ctx.slots[s.0 as int].xmm() is Some);
    }
    if f < 14 && ctx.xmm[f as int].contains(s) {
        let k = choose|k: int| 0 <= k < ctx.xmm[f as int].len() && ctx.xmm[f as int][k] == s;
        assert(ctx.xmm[f as int][k] == s);
    }
}

/// The stack after one word was stored to each slot of a list.
pub open spec fn store_all(stack: Seq<u64>, v: Seq<SlotId>, w: u64) -> Seq<u64>
    decreases v.len(),
{
    if v.len() == 0 {
        stack
    } else {
        store_all(stack, v.drop_last(), w).update(v.last().0 as int, w)
    }
}

/// The stack after a write-back: for each step, the double of the step's
/// register is boxed and stored to each of the step's slots.
pub open spec fn written_back(
    stack: Seq<u64>,
    xmm: Seq<u64>,
    boxed: spec_fn(u64) -> u64,
    wb: WriteBackView,
) -> Seq<u64>
    decreases wb.len(),
{
    if wb.len() == 0 {
        stack
    } else {
        store_all(written_back(stack, xmm, boxed, wb.drop_last()), wb.last().1, boxed(xmm[wb.last().0 as int]))
    }
}

/// The word that a slot holds by the context: the boxed double of its
/// register where the slot is stale, else the word on the stack.
pub open spec fn current(ctx: BBView, stack: Seq<u64>, xmm: Seq<u64>, boxed: spec_fn(u64) -> u64, s: int) -> u64 {
    match ctx.slots[s] {
        LinkMode::XmmRW(f) => boxed(xmm[f as int]),
        _ => stack[s],
    }
}

proof fn lemma_store_all(stack: Seq<u64>, v: Seq<SlotId>, w: u64, s: int)
    requires
        0 <= s < stack.len(),
        forall|i: int| 0 <= i < v.len() ==> (#[trigger] v[i]).0 < stack.len(),
    ensures
        store_all(stack, v, w).len() == stack.len(),
        store_all(stack, v, w)[s] == if exists|i: int| 0 <= i < v.len() && v[i].0 == s {
            w
        } else {
            stack[s]
        },
    decreases v.len(),
{
    if v.len() > 0 {
        let rest = v.drop_last();
        lemma_store_all(stack, rest, w, s);
        if v.last().0 == s {
            assert(v[v.len() - 1].0 == s);
        } else if exists|i: int| 0 <= i < v.len() && v[i].0 == s {
            let i = choose|i: int| 0 <= i < v.len() && v[i].0 == s;
            assert(rest[i].0 == s);
        } else {
            assert forall|i: int| 0 <= i < rest.len() implies rest[i].0 != s by {
                assert(v[i].0 != s);
            }
        }
    }
}

proof fn lemma_written_back_upto(
    ctx: BBView,
    stack: Seq<u64>,
    xmm: Seq<u64>,
    boxed: spec_fn(u64) -> u64,
    n: int,
    s: int,
)
    requires
        ctx.wf(),
        stack.len() == ctx.slots.len(),
        xmm.len() == 14,
        0 <= n <= 14,
        0 <= s < stack.len(),
    ensures
        written_back(stack, xmm, boxed, ctx.write_back_upto(n)).len() == stack.len(),
        written_back(stack, xmm, boxed, ctx.write_back_upto(n))[s] == match ctx.slots[s] {
            LinkMode::XmmRW(f) => if f < n {
                boxed(xmm[f as int])
            } else {
                stack[s]
            },
            _ => stack[s],
        },
    decreases n,
{
    if n > 0 {
        lemma_written_back_upto(ctx, stack, xmm, boxed, n - 1, s);
        let f = n - 1;
        let v = ctx.stale_of(f);
        let pred = ctx.stale_pred();
        let prev = written_back(stack, xmm, boxed, ctx.write_back_upto(n - 1));
        assert forall|i: int| 0 <= i < v.len() implies (#[trigger] v[i]).0 < stack.len() && ctx.slots[v[i].0 as int]
            == LinkMode::XmmRW(f as u16) by {
            lemma_filter_subset(ctx.xmm[f], pred, i);
            let k = choose|k: int| 0 <= k < ctx.xmm[f].len() && ctx.xmm[f][k] == v[i];
            assert(ctx.xmm[f][k] == v[i]);
        }
        if v.len() > 0 {
            let wb = ctx.write_back_upto(n);
            assert(wb.drop_last() =~= ctx.write_back_upto(n - 1));
            assert(wb.last() == (f as u16, v));
            lemma_store_all(prev, v, boxed(xmm[f]), s);
            if ctx.slots[s] == LinkMode::XmmRW(f as u16) {
                assert(ctx.slots[s].xmm() is Some);
                let k = choose|k: int| 0 <= k < ctx.xmm[f].len() && ctx.xmm[f][k] == SlotId(s as u16);
                ctx.xmm[f].lemma_filter_contains(pred, k);
                let i = choose|i: int| 0 <= i < v.len() && v[i] == ctx.xmm[f][k];
                assert(v[i].0 == s);
            } else if exists|i: int| 0 <= i < v.len() && v[i].0 == s {
                let i = choose|i: int| 0 <= i < v.len() && v[i].0 == s;
                assert(ctx.slots[v[i].0 as int] == LinkMode::XmmRW(f as u16));
            }
        } else {
            if ctx.slots[s] == LinkMode::XmmRW(f as u16) {
                assert(ctx.slots[s].xmm() is Some);
                let k = choose|k: int| 0 <= k < ctx.xmm[f].len() && ctx.xmm[f][k] == SlotId(s as u16);
                ctx.xmm[f].lemma_filter_contains(pred, k);
            }
        }
    }
}

/// A side exit reifies the state of the interpreter: after the write-back
/// of a well-formed context, every stack slot holds the word that the slot
/// holds by the context, whatever the registers hold and however a double
/// is boxed.  No slot is left stale.
pub proof fn lemma_write_back_reifies(ctx: BBView, stack: Seq<u64>, xmm: Seq<u64>, boxed: spec_fn(u64) -> u64)
    requires
        ctx.wf(),
        stack.len() == ctx.slots.len(),
        xmm.len() == 14,
    ensures
        written_back(stack, xmm, boxed, ctx.write_back()).len() == stack.len(),
        forall|s: int|
            0 <= s < stack.len() ==> #[trigger] written_back(stack, xmm, boxed, ctx.write_back())[s]
                == current(ctx, stack, xmm, boxed, s),
{
    assert forall|s: int| 0 <= s < stack.len() implies #[trigger] written_back(
        stack,
        xmm,
        boxed,
        ctx.write_back(),
    )[s] == current(ctx, stack, xmm, boxed, s) by {
        lemma_written_back_upto(ctx, stack, xmm, boxed, 14, s);
        if ctx.slots[s] is XmmRW {
            assert(ctx.slots[s].xmm() is Some);
        }
    }
    if stack.len() > 0 {
        lemma_written_back_upto(ctx, stack, xmm, boxed, 14, 0);
    } else {
        lemma_written_back_len(ctx, stack, xmm, boxed, 14);
    }
}

proof fn lemma_written_back_len(ctx: BBView, stack: Seq<u64>, xmm: Seq<u64>, boxed: spec_fn(u64) -> u64, n: int)
    requires
        ctx.wf(),
        stack.len() == 0,
        ctx.slots.len() == 0,
        0 <= n <= 14,
    ensures
        written_back(stack, xmm, boxed, ctx.write_back_upto(n)).len() == 0,
    decreases n,
{
    if n > 0 {
        lemma_written_back_len(ctx, stack, xmm, boxed, n - 1);
        let f = n - 1;
        let v = ctx.stale_of(f);
        if v.len() > 0 {
            lemma_filter_subset(ctx.xmm[f], ctx.stale_pred(), 0);
            let k = choose|k: int| 0 <= k < ctx.xmm[f].len() && ctx.xmm[f][k] == v[0];
            assert(ctx.xmm[f][k] == v[0]);
        }
    }
}

} // verus!
