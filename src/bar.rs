use vstd::prelude::*;
use vstd::arithmetic::div_mod::{lemma_div_by_multiple, lemma_div_is_ordered};
use vstd::arithmetic::mul::lemma_mul_inequality;

use crate::scale::{draw_bar, scale_text};
use crate::style::Style;
use crate::text::{push_char, push_repeat, repeat};

verus! {

/// The number of indicator glyphs that stand for `count` out of
/// `max_progress` on a bar `width` characters wide; a bar whose maximum is
/// zero shows none.
pub open spec fn scaled(count: nat, max_progress: nat, width: nat) -> nat {
    if max_progress > 0 {
        count * width / max_progress
    } else {
        0
    }
}

/// A progress bar as a mathematical value.
pub struct BarView {
    /// Progress counted so far, at most `max_progress`.
    pub count: nat,
    /// Indicator glyphs emitted so far.
    pub progress: nat,
    /// Whether the closing newline has been emitted (or the bar aborted).
    pub finished: bool,
    /// The progress at which the bar is full.
    pub max_progress: nat,
    /// How the bar looks.
    pub style: Style,
}

impl BarView {
    /// The count never passes the maximum, and exactly the glyphs that the
    /// count stands for have been emitted.
    pub open spec fn inv(self) -> bool {
        &&& self.count <= self.max_progress
        &&& self.progress == scaled(self.count, self.max_progress, self.style.width as nat)
    }

    /// The bar after an increment by `amount`: the count grows by `amount`,
    /// but not past the maximum.
    pub open spec fn after_inc(self, amount: nat) -> BarView {
        let count = if self.count + amount <= self.max_progress {
            self.count + amount
        } else {
            self.max_progress
        };
        BarView {
            count,
            progress: scaled(count, self.max_progress, self.style.width as nat),
            ..self
        }
    }

    /// What an increment by `amount` emits: one indicator glyph for each
    /// unit of visual progress gained.
    pub open spec fn inc_text(self, amount: nat) -> Seq<char> {
        repeat(self.style.indicator, (self.after_inc(amount).progress - self.progress) as nat)
    }

    /// The bar after it was finished: full, and closed.
    pub open spec fn after_finish(self) -> BarView {
        BarView { finished: true, ..self.after_inc(self.max_progress) }
    }

    /// What finishing emits: the glyphs still missing, then a newline unless
    /// the bar was closed before.
    pub open spec fn finish_text(self) -> Seq<char> {
        self.inc_text(self.max_progress) + if self.finished {
            seq![]
        } else {
            seq!['\n']
        }
    }

    /// The bar after it was aborted: full and closed, with nothing emitted.
    pub open spec fn after_abort(self) -> BarView {
        BarView {
            count: self.max_progress,
            progress: scaled(self.max_progress, self.max_progress, self.style.width as nat),
            finished: true,
            ..self
        }
    }
}

/// The count, the glyphs emitted for it, and whether the bar was closed.
#[derive(Clone, Copy, Debug)]
struct Counter {
    count: usize,
    progress: usize,
    finished: bool,
}

/// A progress bar that only ever appends to its output.
///
/// Each operation returns the text to append to the output stream. Where
/// several threads share one bar, they call it through one lock, which puts
/// their increments in some order: what is emitted in total depends only on
/// their sum.
#[derive(Debug)]
pub struct ProgressBar {
    counter: Counter,
    max_progress: usize,
    style: Style,
}

impl View for ProgressBar {
    type V = BarView;

    closed spec fn view(&self) -> BarView {
        BarView {
            count: self.counter.count as nat,
            progress: self.counter.progress as nat,
            finished: self.counter.finished,
            max_progress: self.max_progress as nat,
            style: self.style,
        }
    }
}

/// Scaling is monotonic in the count and never passes the width.
pub(crate) proof fn lemma_scaled_bounds(a: nat, b: nat, max_progress: nat, width: nat)
    requires
        a <= b <= max_progress,
    ensures
        scaled(a, max_progress, width) <= scaled(b, max_progress, width) <= width,
{
    if max_progress > 0 {
        lemma_mul_inequality(a as int, b as int, width as int);
        lemma_div_is_ordered((a * width) as int, (b * width) as int, max_progress as int);
        lemma_mul_inequality(b as int, max_progress as int, width as int);
        lemma_div_is_ordered((b * width) as int, (max_progress * width) as int, max_progress as int);
        assert(max_progress * width == width * max_progress) by (nonlinear_arith);
        lemma_div_by_multiple(width as int, max_progress as int);
    }
}

/// The number of glyphs that `count` stands for on a bar of `max_progress`
/// and `width`, computed without overflow.
fn scaled_progress(count: usize, max_progress: usize, width: usize) -> (r: usize)
    requires
        count <= max_progress,
    ensures
        r == scaled(count as nat, max_progress as nat, width as nat),
{
    if max_progress > 0 {
        proof {
            lemma_scaled_bounds(count as nat, count as nat, max_progress as nat, width as nat);
        }
        assert((count as u128) * (width as u128) <= u128::MAX) by (nonlinear_arith)
            requires
                count <= u64::MAX,
                width <= u64::MAX,
        ;
        ((count as u128) * (width as u128) / (max_progress as u128)) as usize
    } else {
        0
    }
}

impl ProgressBar {
    /// The counter agrees with the bar's invariant.
    pub open spec fn wf(&self) -> bool {
        self@.inv()
    }

    /// A bar of the default style, full at `max_progress`, together with
    /// the scale that is drawn once when it is made.
    pub fn new(max_progress: usize) -> (r: (ProgressBar, String))
        ensures
            r.0.wf(),
            r.0@ == (BarView {
                count: 0,
                progress: 0,
                finished: false,
                max_progress: max_progress as nat,
                style: Style::spec_default(),
            }),
            r.1@ == scale_text(Style::spec_default()),
    {
        ProgressBar::with_style(max_progress, Style::default())
    }

    /// A bar in `style`, full at `max_progress`, together with the scale
    /// that is drawn once when it is made.
    pub fn with_style(max_progress: usize, style: Style) -> (r: (ProgressBar, String))
        ensures
            r.0.wf(),
            r.0@ == (BarView {
                count: 0,
                progress: 0,
                finished: false,
                max_progress: max_progress as nat,
                style,
            }),
            r.1@ == scale_text(style),
    {
        let scale = draw_bar(&style);
        let counter = Counter { count: 0, progress: 0, finished: false };
        (ProgressBar { counter, max_progress, style }, scale)
    }

    /// The style of the bar.
    pub fn style(&self) -> (r: &Style)
        ensures
            *r == self@.style,
    {
        &self.style
    }

    /// Adds `amount` to the progress, up to the maximum, and returns the
    /// indicator glyphs for the visual progress gained.
    ///
    /// A bar that was finished stays finished: its newline is not emitted
    /// again.
    pub fn inc(&mut self, amount: usize) -> (r: String)
        requires
            old(self).wf(),
        ensures
            final(self).wf(),
            final(self)@ == old(self)@.after_inc(amount as nat),
            r@ == old(self)@.inc_text(amount as nat),
    {
        let c = self.counter;
        let new_count = if amount >= self.max_progress - c.count {
            self.max_progress
        } else {
            c.count + amount
        };
        let new_progress = scaled_progress(new_count, self.max_progress, self.style.width);
        proof {
            lemma_scaled_bounds(
                c.count as nat,
                new_count as nat,
                self.max_progress as nat,
                self.style.width as nat,
            );
        }
        let gained = new_progress - c.progress;
        self.counter = Counter { count: new_count, progress: new_progress, finished: c.finished };
        let mut out = String::new();
        push_repeat(&mut out, self.style.indicator, gained);
        out
    }

    /// Fills the bar and, the first time, closes it with a newline; returns
    /// what is to be emitted.
    pub fn finish(&mut self) -> (r: String)
        requires
            old(self).wf(),
        ensures
            final(self).wf(),
            final(self)@ == old(self)@.after_finish(),
            r@ == old(self)@.finish_text(),
    {
        let mut out = self.inc(self.max_progress);
        if !self.counter.finished {
            push_char(&mut out, '\n');
            self.counter.finished = true;
        }
        out
    }

    /// Marks the bar full and closed without emitting anything.
    pub fn abort(&mut self)
        requires
            old(self).wf(),
        ensures
            final(self).wf(),
            final(self)@ == old(self)@.after_abort(),
    {
        let full = scaled_progress(self.max_progress, self.max_progress, self.style.width);
        self.counter = Counter { count: self.max_progress, progress: full, finished: true };
    }
}

} // verus!
