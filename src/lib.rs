//! Cells that hand out one exclusive handle to their storage, at most once
//! (or, for the reclaimable cell, to one holder at a time).

mod primitives;
pub mod const_cell;
pub mod reclaim;
pub mod state;
pub mod static_cell;

pub use const_cell::ConstStaticCell;
pub use reclaim::{ReclaimCell, ReclaimError, ReclaimView};
pub use state::{Phase, Request};
pub use static_cell::StaticCell;
