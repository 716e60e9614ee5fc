//! A grid-layout container for a dynamically sized collection of homogeneous
//! items.
//!
//! The crate is split into four parts, mirroring the design of the widget:
//!
//! * [`geometry`] — integer sizes, points, rectangles and box constraints,
//!   together with the notion of a major and a minor axis;
//! * [`data`] — the item-collection adapter: ordered read-only and mutating
//!   visitation with copy-on-any-change semantics;
//! * [`layout`] — the packing algorithm that places children into a wrapped
//!   grid and reports the bounding rectangle and overflow insets;
//! * [`grid`] — the grid widget itself: the child pool, its reconciliation
//!   against the collection length, and the four lifecycle passes.

pub mod data;
pub mod geometry;
pub mod grid;
pub mod layout;
