use vstd::prelude::*;

use crate::style::Style;
use crate::text::{decimal, push_char, push_decimal, push_repeat, repeat};

verus! {

/// Whether the scale of a bar `width` characters wide can be split into
/// `segments` equal segments, each wide enough for a label.
pub open spec fn segments_fit(width: nat, segments: nat) -> bool {
    width % segments == 0 && width / segments > 3
}

/// The number of segments of the scale: the first of 10, 5, 4 and 2 that
/// fits, else 1.
pub open spec fn spec_num_segments(width: nat) -> nat {
    if segments_fit(width, 10) {
        10
    } else if segments_fit(width, 5) {
        5
    } else if segments_fit(width, 4) {
        4
    } else if segments_fit(width, 2) {
        2
    } else {
        1
    }
}

/// Chooses how many equal segments the scale of a bar `width` characters
/// wide is divided into.
pub fn num_segments(width: usize) -> (r: usize)
    ensures
        r == spec_num_segments(width as nat),
{
    let candidates: [usize; 4] = [10, 5, 4, 2];
    let mut i: usize = 0;
    while i < 4
        invariant
            i <= 4,
            candidates@ == seq![10usize, 5, 4, 2],
            forall|j: int| 0 <= j < i ==> !segments_fit(width as nat, #[trigger] candidates@[j] as nat),
        decreases 4 - i,
    {
        let s = candidates[i];
        if width % s == 0 && width / s > 3 {
            assert(candidates@[i as int] == s);
            return s;
        }
        i += 1;
    }
    assert(!segments_fit(width as nat, candidates@[0] as nat));
    assert(!segments_fit(width as nat, candidates@[1] as nat));
    assert(!segments_fit(width as nat, candidates@[2] as nat));
    assert(!segments_fit(width as nat, candidates@[3] as nat));
    1
}

/// The first `k` cells of the label row: each is padding of
/// `seg_width - 3` spaces and the percentage reached at the end of that
/// segment.
pub open spec fn label_cells(seg_width: nat, segments: nat, k: nat) -> Seq<char>
    decreases k,
{
    if k == 0 {
        seq![]
    } else {
        label_cells(seg_width, segments, (k - 1) as nat) + repeat(' ', (seg_width - 3) as nat)
            + decimal(k * 100 / segments) + seq!['%']
    }
}

/// The row of `XX%` labels above a scale of `segments` segments.
pub open spec fn label_line(width: nat, segments: nat) -> Seq<char> {
    seq!['0', '%', ' '] + label_cells(width / segments, segments, segments) + seq!['\n']
}

/// The first `k` cells of the tick row: each is `seg_width - 1` bar glyphs
/// closed by a tick.
pub open spec fn tick_cells(bar: char, tick: char, seg_width: nat, k: nat) -> Seq<char>
    decreases k,
{
    if k == 0 {
        seq![]
    } else {
        tick_cells(bar, tick, seg_width, (k - 1) as nat) + repeat(bar, (seg_width - 1) as nat)
            + seq![tick]
    }
}

/// The tick row of a scale of `segments` segments: an opening tick, then
/// the cells.
pub open spec fn tick_line(style: Style, segments: nat) -> Seq<char> {
    seq![style.tick] + tick_cells(style.bar, style.tick, style.width as nat / segments, segments)
        + seq!['\n']
}

/// The scale drawn once when a bar is made: the label row where the bar is
/// wider than 3 and labels are on, then the tick row; a bar one character
/// wide has a lone tick, a bar of width 0 has no scale.
pub open spec fn scale_text(style: Style) -> Seq<char> {
    let segments = spec_num_segments(style.width as nat);
    let labels = if style.width > 3 && style.labels {
        label_line(style.width as nat, segments)
    } else {
        seq![]
    };
    let ticks = if style.width > 1 {
        tick_line(style, segments)
    } else if style.width == 1 {
        seq![style.tick, '\n']
    } else {
        seq![]
    };
    labels + ticks
}

/// Appends the row of `XX%` labels for a scale `width` characters wide,
/// split into `segments` segments.
pub fn draw_labels(out: &mut String, width: usize, segments: usize)
    requires
        segments > 0,
        width % segments == 0,
        width / segments >= 3,
    ensures
        final(out)@ == old(out)@ + label_line(width as nat, segments as nat),
{
    push_char(out, '0');
    push_char(out, '%');
    push_char(out, ' ');
    let seg_width = width / segments;
    let mut k: usize = 0;
    while k < segments
        invariant
            k <= segments,
            segments > 0,
            seg_width == width / segments,
            seg_width >= 3,
            out@ == old(out)@ + seq!['0', '%', ' '] + label_cells(
                seg_width as nat,
                segments as nat,
                k as nat,
            ),
        decreases segments - k,
    {
        push_repeat(out, ' ', seg_width - 3);
        let scaled: u128 = (k as u128 + 1) * 100 / (segments as u128);
        assert(scaled <= 100) by (nonlinear_arith)
            requires
                scaled == (k + 1) * 100 / segments as int,
                k < segments,
                segments > 0,
        ;
        let percent = scaled as usize;
        push_decimal(out, percent);
        push_char(out, '%');
        k += 1;
        assert(out@ =~= old(out)@ + seq!['0', '%', ' '] + label_cells(
            seg_width as nat,
            segments as nat,
            k as nat,
        ));
    }
    push_char(out, '\n');
    assert(out@ =~= old(out)@ + label_line(width as nat, segments as nat));
}

/// Appends the tick row of a scale in `style`, split into `segments`
/// segments.
pub fn draw_tickbar(out: &mut String, style: &Style, segments: usize)
    requires
        segments > 0,
        style.width % segments == 0,
        style.width / segments >= 1,
    ensures
        final(out)@ == old(out)@ + tick_line(*style, segments as nat),
{
    let width = style.width;
    push_char(out, style.tick);
    let seg_width = width / segments;
    let mut k: usize = 0;
    while k < segments
        invariant
            k <= segments,
            seg_width == width / segments,
            seg_width >= 1,
            width == style.width,
            out@ == old(out)@ + seq![style.tick] + tick_cells(
                style.bar,
                style.tick,
                seg_width as nat,
                k as nat,
            ),
        decreases segments - k,
    {
        push_repeat(out, style.bar, seg_width - 1);
        push_char(out, style.tick);
        k += 1;
        assert(out@ =~= old(out)@ + seq![style.tick] + tick_cells(
            style.bar,
            style.tick,
            seg_width as nat,
            k as nat,
        ));
    }
    push_char(out, '\n');
    assert(out@ =~= old(out)@ + tick_line(*style, segments as nat));
}

/// The chosen segment count splits the width evenly, into segments at
/// least as wide as needed to draw them.
proof fn lemma_segments_divide(width: nat)
    ensures
        spec_num_segments(width) > 0,
        width % spec_num_segments(width) == 0,
        spec_num_segments(width) > 1 ==> width / spec_num_segments(width) > 3,
        spec_num_segments(width) == 1 ==> width / spec_num_segments(width) == width,
{
}

/// The scale of a bar in `style`, drawn once when the bar is made.
pub fn draw_bar(style: &Style) -> (r: String)
    ensures
        r@ == scale_text(*style),
{
    let mut out = String::new();
    let width = style.width;
    let segments = num_segments(width);
    proof {
        lemma_segments_divide(width as nat);
    }
    if width > 3 && style.labels {
        draw_labels(&mut out, width, segments);
    }
    if width > 1 {
        draw_tickbar(&mut out, style, segments);
    } else if width == 1 {
        push_char(&mut out, style.tick);
        push_char(&mut out, '\n');
    }
    assert(out@ =~= scale_text(*style));
    out
}

} // verus!
