//! Day-bucketed and rolling-window summaries of an infant-care event log,
//! shaped as chart traces.
//!
//! All quantities are exact integers: volumes in thousandths of an ounce or in
//! millilitres, durations in milliseconds, and every plotted value a ratio of
//! two integers.

pub mod aggregate;
pub mod day_map;
pub mod event;
pub mod graph;
pub mod plotly;
pub mod rolling;
