//! Layout of a pointed star badge: the ring of tip and notch vertices, the
//! fan of wedges that fills it, and the colors those wedges cycle through.
//!
//! Coordinates are left to the caller. The library decides which vertex
//! comes where, which corners make up each wedge and which fill each shape
//! gets; positions follow from these by rotating the two start vectors.

use vstd::prelude::*;

mod error;
mod fan;
mod ring;
mod star;

pub use error::StarError;
pub use fan::{
    cycle_colors, fan_corners, lemma_fills_cycle, lemma_wedges_share_center, wedge_at, wedge_fan, wedge_fill, Corner, Wedge,
};
pub use ring::{lemma_ring_closes, ring_vertex, vertex_ring, RingVertex, VertexKind};
pub use star::{check_spokes, outline_layout, segment_layout, Outline, Segments, MIN_SPOKES};
