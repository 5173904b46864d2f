use vstd::prelude::*;

use crate::bar::{scaled, BarView};
use crate::text::repeat;

verus! {

/// The sum of the increments `amounts`.
pub open spec fn total(amounts: Seq<nat>) -> nat
    decreases amounts.len(),
{
    if amounts.len() == 0 {
        0
    } else {
        total(amounts.drop_last()) + amounts.last()
    }
}

/// The bar after the increments `amounts`, in order.
pub open spec fn after_incs(bar: BarView, amounts: Seq<nat>) -> BarView
    decreases amounts.len(),
{
    if amounts.len() == 0 {
        bar
    } else {
        after_incs(bar, amounts.drop_last()).after_inc(amounts.last())
    }
}

/// Everything that the increments `amounts` emit, in order.
pub open spec fn incs_text(bar: BarView, amounts: Seq<nat>) -> Seq<char>
    decreases amounts.len(),
{
    if amounts.len() == 0 {
        seq![]
    } else {
        incs_text(bar, amounts.drop_last()) + after_incs(bar, amounts.drop_last()).inc_text(
            amounts.last(),
        )
    }
}

/// A bar that has just been made.
pub open spec fn fresh(bar: BarView) -> bool {
    bar.count == 0 && bar.progress == 0 && !bar.finished
}

proof fn lemma_repeat_concat(c: char, a: nat, b: nat)
    ensures
        repeat(c, a) + repeat(c, b) == repeat(c, a + b),
{
    assert(repeat(c, a) + repeat(c, b) =~= repeat(c, a + b));
}

/// A run of increments moves the count by their sum, clamped at the
/// maximum, and emits one glyph for each unit of visual progress gained.
proof fn lemma_incs(bar: BarView, amounts: Seq<nat>)
    requires
        bar.inv(),
    ensures
        after_incs(bar, amounts).inv(),
        after_incs(bar, amounts).count == if bar.count + total(amounts) <= bar.max_progress {
            bar.count + total(amounts)
        } else {
            bar.max_progress
        },
        after_incs(bar, amounts).progress >= bar.progress,
        after_incs(bar, amounts).max_progress == bar.max_progress,
        after_incs(bar, amounts).style == bar.style,
        incs_text(bar, amounts) == repeat(
            bar.style.indicator,
            (after_incs(bar, amounts).progress - bar.progress) as nat,
        ),
    decreases amounts.len(),
{
    if amounts.len() > 0 {
        let prefix = amounts.drop_last();
        lemma_incs(bar, prefix);
        let mid = after_incs(bar, prefix);
        let end = mid.after_inc(amounts.last());
        crate::bar::lemma_scaled_bounds(
            mid.count,
            end.count,
            bar.max_progress,
            bar.style.width as nat,
        );
        lemma_repeat_concat(
            bar.style.indicator,
            (mid.progress - bar.progress) as nat,
            (end.progress - mid.progress) as nat,
        );
    }
}

/// Increments are path independent: from a new bar, whatever the split of
/// the increments, they emit in total the glyphs that their sum, clamped at
/// the maximum, stands for.
pub proof fn lemma_path_independence(bar: BarView, amounts: Seq<nat>)
    requires
        bar.inv(),
        fresh(bar),
    ensures
        incs_text(bar, amounts) == repeat(
            bar.style.indicator,
            scaled(
                if total(amounts) <= bar.max_progress {
                    total(amounts)
                } else {
                    bar.max_progress
                },
                bar.max_progress,
                bar.style.width as nat,
            ),
        ),
{
    lemma_incs(bar, amounts);
}

/// A bar whose maximum is zero never emits an indicator glyph: no run of
/// increments emits anything, and finishing emits at most the newline.
pub proof fn lemma_zero_max_silent(bar: BarView, amounts: Seq<nat>)
    requires
        bar.inv(),
        bar.max_progress == 0,
    ensures
        incs_text(bar, amounts) == Seq::<char>::empty(),
        after_incs(bar, amounts).finish_text() == if after_incs(bar, amounts).finished {
            seq![]
        } else {
            seq!['\n']
        },
{
    lemma_incs(bar, amounts);
    assert(incs_text(bar, amounts) =~= Seq::<char>::empty());
    let end = after_incs(bar, amounts);
    assert(end.inc_text(0) =~= Seq::<char>::empty());
    assert(end.finish_text() =~= if end.finished {
        seq![]
    } else {
        seq!['\n']
    });
}

/// Finishing twice emits one newline in all, at the end: the second call
/// emits nothing.
pub proof fn lemma_finish_twice(bar: BarView)
    requires
        bar.inv(),
        !bar.finished,
    ensures
        bar.after_finish().inv(),
        bar.after_finish().finish_text() == Seq::<char>::empty(),
        bar.finish_text() + bar.after_finish().finish_text() == bar.inc_text(bar.max_progress)
            + seq!['\n'],
{
    let done = bar.after_finish();
    crate::bar::lemma_scaled_bounds(
        bar.count,
        bar.max_progress,
        bar.max_progress,
        bar.style.width as nat,
    );
    assert(done.inc_text(done.max_progress) =~= Seq::<char>::empty());
    assert(done.finish_text() =~= Seq::<char>::empty());
    assert(bar.finish_text() + done.finish_text() =~= bar.inc_text(bar.max_progress) + seq!['\n']);
}

/// An aborted bar is complete: it counts as full and closed, and no later
/// increment or finish emits anything.
pub proof fn lemma_abort_completes(bar: BarView, amount: nat)
    requires
        bar.inv(),
    ensures
        bar.after_abort().inv(),
        bar.after_abort().count == bar.max_progress,
        bar.after_abort().finished,
        bar.after_abort().inc_text(amount) == Seq::<char>::empty(),
        bar.after_abort().finish_text() == Seq::<char>::empty(),
{
    let done = bar.after_abort();
    assert(done.inc_text(amount) =~= Seq::<char>::empty());
    assert(done.inc_text(done.max_progress) =~= Seq::<char>::empty());
    assert(done.finish_text() =~= Seq::<char>::empty());
}

/// Increments that sum to the maximum fill the bar exactly: from a new bar
/// they emit `width` glyphs in all, each once, in whatever order the calls
/// were serialised.
pub proof fn lemma_full_sum_fills_width(bar: BarView, amounts: Seq<nat>)
    requires
        bar.inv(),
        fresh(bar),
        bar.max_progress > 0,
        total(amounts) == bar.max_progress,
    ensures
        incs_text(bar, amounts) == repeat(bar.style.indicator, bar.style.width as nat),
{
    lemma_incs(bar, amounts);
    vstd::arithmetic::div_mod::lemma_div_by_multiple(
        bar.style.width as int,
        bar.max_progress as int,
    );
    assert(bar.max_progress * bar.style.width == bar.style.width * bar.max_progress)
        by (nonlinear_arith);
}

} // verus!
