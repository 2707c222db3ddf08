//! Planning for a compute pass that paints a storage image once per frame.
//!
//! The engine owns the GPU, the asset store and the render graph. This
//! library holds what the program decides for itself: how large the image
//! is, how it is created, which pipeline runs against it, and what the
//! render-graph node does on each frame.

pub mod engine;
pub mod image;
pub mod layout;
pub mod node;
pub mod pipeline;
