//! Terminal charting: a sparse point matrix, scaling policies, a canvas that
//! renders the matrix to rows of text, and a bounds-checked screen buffer with
//! ANSI-aware text layout.

pub mod chart;
pub mod matrix;
pub mod point;
pub mod rate;
pub mod rate_printer;
pub mod rate_provider;
pub mod term_style;
pub mod text;
pub mod ui;
pub mod util;
