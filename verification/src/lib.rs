//! A simulated seventeen-segment alphanumeric display.
//!
//! The crate provides three things: a compact bitmask over the seventeen
//! named segments of a character cell ([`bits`]), a font table mapping
//! characters to segment masks ([`font`]), and an exact vector-geometry
//! generator that produces the polygon outline of each segment from four
//! canonical base shapes and a mirror transform ([`geometry`]).
//! A renderable cell with a per-segment geometry cache lives in
//! [`display`], and a small startup-progress counter for host shells in
//! [`loading`].

pub mod bits;
pub mod display;
pub mod font;
pub mod geometry;
pub mod loading;

pub use bits::Segment;
pub use bits::SegmentBits;
pub use display::DigitDisplay;
pub use display::DigitOptions;
pub use font::SegmentedFont;
pub use geometry::DrawingOptions;
pub use geometry::Point;
pub use loading::LoadingStatus;
