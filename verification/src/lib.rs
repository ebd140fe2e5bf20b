//! Selective per-region background blur behind rectangular screen regions.
//!
//! Each frame the host clears the per-surface blur state, extracts the marked
//! visual nodes into an ordered sequence of region records, serializes that
//! state into GPU-visible bytes, makes sure the two specialized render
//! pipelines exist, and finally runs a horizontal and a vertical blur pass
//! restricted to the recorded regions.
//!
//! All geometric and visual quantities are 32-bit IEEE-754 binary32 values.
//! This library stores each such value as its bit pattern in a `u32` (see
//! [`scalar`]); the host converts between its native scalar type and the bit
//! pattern at the boundary, and real-valued arithmetic (scaling a border
//! radius, turning a center and a size into corner coordinates) is carried
//! out by the host on its native types. Everything else - ordering, clamping,
//! record assembly, the binary buffer layout, pipeline specialization keys and
//! the per-frame compositing protocol - is verified here.

pub mod scalar;
pub mod settings;
pub mod region;
pub mod camera;
pub mod surfaces;
pub mod extract;
pub mod codec;
pub mod sync;
pub mod pipeline;
pub mod compose;
