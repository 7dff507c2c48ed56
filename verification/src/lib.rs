//! Storage-latency probe core: aligned-buffer placement, random block-aligned
//! offset selection, a latency histogram with a monotone error counter, and the
//! Prometheus text rendering of both.

pub mod align;
pub mod probe;
pub mod registry;
pub mod render;
pub mod sampler;
