//! A verified line-series builder: it turns sampled `(x, y)` data into an
//! ordered sequence of drawable primitives — optional per-point markers
//! followed by a single path that connects every sample in order.
//!
//! The builder is constructed either from paired `x`/`y` sequences (the longer
//! one is silently truncated to the shorter) or from a `y` sequence alone, in
//! which case an ascending integer x-axis is synthesized, saturating at the
//! chosen index type's maximum instead of wrapping. Emission consumes the
//! builder and never fails.

mod bounded;
mod primitive;
mod series;
mod style;

pub use bounded::BoundedIndex;
pub use primitive::Primitive;
pub use series::primitive_count;
pub use series::MatLineSeries;
pub use style::ShapeStyle;
