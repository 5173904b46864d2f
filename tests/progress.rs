use logbar::{
    draw_bar, draw_labels, draw_tickbar, num_segments, ProgressBar, Style, DEFAULT_BAR,
    DEFAULT_INDICATOR, DEFAULT_TICK, DEFAULT_WIDTH,
};

fn glyphs(c: char, n: usize) -> String {
    std::iter::repeat(c).take(n).collect()
}

#[test]
fn construct() {
    let max_progress = 1000;
    {
        let (bar, _) = ProgressBar::new(max_progress);
        assert_eq!(bar.style().width, DEFAULT_WIDTH);
    }

    {
        let width = 80;
        let mut style = Style::default();
        style.width = width;
        let (bar, _) = ProgressBar::with_style(max_progress, style);
        assert_eq!(bar.style().width, width);
    }
}

#[test]
fn inc() {
    let max_progress = 20;

    let (mut bar, _) = ProgressBar::new(max_progress);
    let mut out = String::new();
    for k in 1..=max_progress {
        let step = bar.inc(1);
        assert_eq!(step, glyphs('#', k * 50 / 20 - (k - 1) * 50 / 20));
        out.push_str(&step);
    }
    assert_eq!(out, glyphs('#', 50));

    let (mut bar, _) = ProgressBar::new(max_progress);
    assert_eq!(bar.inc(2 * max_progress), glyphs('#', 50));

    let (_bar, scale) = ProgressBar::new(max_progress);
    assert_eq!(scale, draw_bar(&Style::default()));
}

#[test]
fn empty() {
    let max_progress = 0;

    let (mut bar, _) = ProgressBar::new(max_progress);
    assert_eq!(bar.inc(0), "");
    assert_eq!(bar.inc(1), "");
    assert_eq!(bar.finish(), "\n");
}

#[test]
fn finish() {
    let max_progress = 200;
    let (mut bar, _) = ProgressBar::new(max_progress);
    assert_eq!(bar.finish(), format!("{}\n", glyphs('#', 50)));
}

#[test]
fn abort() {
    let max_progress = 200;
    let (mut bar, _) = ProgressBar::new(max_progress);
    assert_eq!(bar.inc(50), glyphs('#', 12));
}

#[test]
fn alt_styles() {
    let max_progress = 200;

    let style = Style::new().indicator('█');
    let bar_style = style;
    let (mut bar, _) = ProgressBar::with_style(max_progress, style);
    assert_eq!(bar.finish(), format!("{}\n", glyphs('█', 50)));
    assert_eq!(bar.style(), &bar_style);

    let style = Style::new().tick('↓');
    let (mut bar, scale) = ProgressBar::with_style(max_progress, style);
    assert!(scale.contains("↓====↓"));
    assert_eq!(bar.finish(), format!("{}\n", glyphs('#', 50)));

    let style = Style::new().bar('-');
    let (mut bar, scale) = ProgressBar::with_style(max_progress, style);
    assert!(scale.contains("|----|"));
    assert_eq!(bar.finish(), format!("{}\n", glyphs('#', 50)));

    let style = Style::new().labels(false);
    let (mut bar, scale) = ProgressBar::with_style(max_progress, style);
    assert_eq!(scale, format!("|{}\n", "====|".repeat(10)));
    assert_eq!(bar.finish(), format!("{}\n", glyphs('#', 50)));

    let style = Style::new().indicator('█').labels(false).tick('↓').bar('-');
    let (mut bar, scale) = ProgressBar::with_style(max_progress, style);
    assert_eq!(scale, format!("↓{}\n", "----↓".repeat(10)));
    assert_eq!(bar.finish(), format!("{}\n", glyphs('█', 50)));

    for w in 0..=20 {
        let style = Style::new().width(w);
        let (mut bar, scale) = ProgressBar::with_style(max_progress, style);
        let tick_row = scale.lines().last().unwrap_or("");
        assert_eq!(tick_row.chars().count(), match w {
            0 => 0,
            1 => 1,
            _ => w + 1,
        });
        assert_eq!(bar.finish(), format!("{}\n", glyphs('#', w)));
        if w == 20 {
            assert_eq!(scale, "0%  20% 40% 60% 80% 100%\n|===|===|===|===|===|\n");
        }
    }
    let w = 40;
    let style = Style::new().width(w);
    let (mut bar, scale) = ProgressBar::with_style(max_progress, style.clone());
    assert_eq!(
        scale,
        "0%  10% 20% 30% 40% 50% 60% 70% 80% 90% 100%\n|===|===|===|===|===|===|===|===|===|===|\n"
    );
    assert_eq!(bar.finish(), format!("{}\n", glyphs('#', w)));
}

#[test]
fn default_style_values() {
    let style = Style::new();
    assert_eq!(style, Style::default());
    assert_eq!(style.width, 50);
    assert!(style.labels);
    assert_eq!(style.tick, DEFAULT_TICK);
    assert_eq!(style.bar, DEFAULT_BAR);
    assert_eq!(style.indicator, DEFAULT_INDICATOR);
    assert_eq!((DEFAULT_TICK, DEFAULT_BAR, DEFAULT_INDICATOR), ('|', '=', '#'));
}

#[test]
fn builders_set_one_field_each() {
    let style = Style::new().width(80).labels(false).tick('↓').bar('-').indicator('█');
    assert_eq!(style.width, 80);
    assert!(!style.labels);
    assert_eq!(style.tick, '↓');
    assert_eq!(style.bar, '-');
    assert_eq!(style.indicator, '█');
    assert_eq!(Style::new().width(7), Style { width: 7, ..Style::default() });
    assert!(Style::new().width(7) < Style::new().width(8));
}

#[test]
fn segments_follow_preference_order() {
    assert_eq!(num_segments(50), 10);
    assert_eq!(num_segments(40), 10);
    assert_eq!(num_segments(30), 5);
    assert_eq!(num_segments(20), 5);
    assert_eq!(num_segments(16), 4);
    assert_eq!(num_segments(12), 2);
    assert_eq!(num_segments(8), 2);
    assert_eq!(num_segments(7), 1);
    assert_eq!(num_segments(4), 1);
    assert_eq!(num_segments(1), 1);
    assert_eq!(num_segments(0), 1);
}

#[test]
fn default_scale_text() {
    let mut labels = String::from("0% ");
    for p in 1..=10 {
        labels.push_str(&format!("  {}%", p * 10));
    }
    let expected = format!("{}\n|{}\n", labels, "====|".repeat(10));
    assert_eq!(draw_bar(&Style::default()), expected);
}

#[test]
fn label_and_tick_rows() {
    let mut out = String::from(">");
    draw_labels(&mut out, 8, 2);
    assert_eq!(out, ">0%  50% 100%\n");

    let mut out = String::new();
    draw_labels(&mut out, 20, 4);
    assert_eq!(out, "0%   25%  50%  75%  100%\n");

    let mut out = String::new();
    draw_tickbar(&mut out, &Style::new().width(8), 2);
    assert_eq!(out, "|===|===|\n");
}

#[test]
fn narrow_scales() {
    assert_eq!(draw_bar(&Style::new().width(3)), "|==|\n");
    assert_eq!(draw_bar(&Style::new().width(4)), "0%  100%\n|===|\n");
    assert_eq!(draw_bar(&Style::new().width(4).labels(false)), "|===|\n");
    assert_eq!(draw_bar(&Style::new().width(2)), "|=|\n");
}

#[test]
fn scenario_ten_steps() {
    let (mut bar, mut out) = ProgressBar::new(10);
    assert_eq!(
        out,
        "0%   10%  20%  30%  40%  50%  60%  70%  80%  90%  100%\n|====|====|====|====|====|====|====|====|====|====|\n"
    );
    let scale_len = out.len();
    assert_eq!(bar.inc(1), glyphs('#', 5));
    assert_eq!(bar.inc(3), glyphs('#', 15));
    assert_eq!(bar.finish(), format!("{}\n", glyphs('#', 30)));
    out.push_str(&glyphs('#', 50));
    out.push('\n');
    assert_eq!(out.len(), scale_len + 51);
}

#[test]
fn zero_width_draws_nothing() {
    let style = Style::new().width(0);
    assert_eq!(draw_bar(&style), "");
    let (mut bar, scale) = ProgressBar::with_style(10, style);
    assert_eq!(scale, "");
    assert_eq!(bar.inc(3), "");
    assert_eq!(bar.inc(100), "");
    assert_eq!(bar.finish(), "\n");
}

#[test]
fn one_wide_bar() {
    let style = Style::new().width(1);
    assert_eq!(draw_bar(&style), "|\n");
    let (mut bar, scale) = ProgressBar::with_style(3, style);
    assert_eq!(scale, "|\n");
    let mut total = String::new();
    total.push_str(&bar.inc(1));
    total.push_str(&bar.inc(1));
    assert_eq!(total, "");
    total.push_str(&bar.inc(1));
    total.push_str(&bar.finish());
    assert_eq!(total, "#\n");
}

#[test]
fn split_does_not_change_total() {
    let splits: [&[usize]; 4] = [&[30], &[1, 2, 3, 24], &[7, 7, 7, 7, 2], &[29, 1]];
    for amounts in splits {
        let (mut bar, _) = ProgressBar::with_style(30, Style::new().width(40));
        let mut out = String::new();
        for &a in amounts {
            out.push_str(&bar.inc(a));
        }
        assert_eq!(out, glyphs('#', 40));
    }
    let (mut bar, _) = ProgressBar::new(30);
    let mut out = String::new();
    for a in [5, 5, 5] {
        out.push_str(&bar.inc(a));
    }
    assert_eq!(out, glyphs('#', 15 * 50 / 30));
}

#[test]
fn overshoot_saturates() {
    let (mut bar, _) = ProgressBar::new(10);
    assert_eq!(bar.inc(25), glyphs('#', 50));
    assert_eq!(bar.inc(1), "");
    assert_eq!(bar.finish(), "\n");
}

#[test]
fn large_counts_do_not_overflow() {
    let (mut bar, _) = ProgressBar::with_style(usize::MAX, Style::new().width(1000));
    assert_eq!(bar.inc(0), "");
    assert_eq!(bar.inc(usize::MAX - 1), glyphs('#', 999));
    assert_eq!(bar.inc(1), glyphs('#', 1));
    let (mut bar, _) = ProgressBar::new(usize::MAX);
    assert_eq!(bar.inc(usize::MAX / 2), glyphs('#', 24));
    assert_eq!(bar.inc(usize::MAX), glyphs('#', 26));
    assert_eq!(bar.inc(usize::MAX), "");
}

#[test]
fn finish_twice_one_newline() {
    let (mut bar, _) = ProgressBar::new(4);
    assert_eq!(bar.inc(1), glyphs('#', 12));
    assert_eq!(bar.finish(), format!("{}\n", glyphs('#', 38)));
    assert_eq!(bar.finish(), "");
}

#[test]
fn increments_after_finish_do_not_reopen() {
    let (mut bar, _) = ProgressBar::new(4);
    assert_eq!(bar.finish(), format!("{}\n", glyphs('#', 50)));
    assert_eq!(bar.inc(2), "");
    assert_eq!(bar.finish(), "");
}

#[test]
fn abort_emits_nothing() {
    let (mut bar, _) = ProgressBar::new(200);
    assert_eq!(bar.inc(50), glyphs('#', 12));
    bar.abort();
    assert_eq!(bar.inc(10), "");
    assert_eq!(bar.finish(), "");

    let (mut bar, _) = ProgressBar::new(0);
    bar.abort();
    assert_eq!(bar.inc(1), "");
    assert_eq!(bar.finish(), "");
}

#[test]
fn shared_total_fills_width() {
    let (mut bar, _) = ProgressBar::with_style(12, Style::new().width(9).indicator('*'));
    let mut out = String::new();
    for a in [3, 1, 4, 1, 3] {
        out.push_str(&bar.inc(a));
    }
    assert_eq!(out, glyphs('*', 9));
}
