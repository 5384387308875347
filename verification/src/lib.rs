//! A registry of triple-buffered GPU surfaces.
//!
//! An external renderer draws frames into a surface, and a compositor shows them, each at its own
//! pace. [`SurfaceRegistry`] keeps for every surface three buffers and says at each moment which of
//! them the renderer draws into, which holds the latest complete frame, and which is on display.
//!
//! The contracts are stated over the models in [`model`]. What each operation does to the parts of
//! a value stands in [`meaning`]; [`laws`], [`history`], [`ids`] and [`timeline`] state what holds
//! across operations.

pub mod history;
pub mod ids;
pub mod laws;
pub mod meaning;
pub mod model;
pub mod registry;
pub mod support;
mod surface_buffers;
pub mod texture;
pub mod timeline;
mod triple_buffer;

pub use registry::{SurfaceId, SurfaceRegistry, SurfaceTextureSnapshot};
pub use support::{support, Support};
pub use texture::{Backend, SurfaceBuffer, TextureInfo, TextureLimits};
pub use triple_buffer::TripleBuffer;
