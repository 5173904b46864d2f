//! A log-friendly progress bar.
//!
//! The bar never rewrites what it has printed: it draws a scale once, then
//! appends one indicator glyph per unit of visual progress and a closing
//! newline. The library computes exactly which text is to be appended; the
//! caller writes it to a stream.
pub mod bar;
pub mod laws;
pub mod scale;
pub mod style;
pub mod text;

pub use bar::{BarView, ProgressBar};
pub use scale::{draw_bar, draw_labels, draw_tickbar, num_segments};
pub use style::{Style, DEFAULT_BAR, DEFAULT_INDICATOR, DEFAULT_TICK, DEFAULT_WIDTH};
