//! Host-side core of a progressively converging GPU path tracer.
//!
//! The library owns the decisions a frame loop has to get right: which of the
//! two accumulation images is written and which is read, when the sample
//! counter resets, when the per-pixel seed image is regenerated, and the exact
//! word-for-word layout of every record the compute kernel reads. Scalars
//! coming from the renderer are IEEE-754 single-precision bit patterns; the
//! library carries them as opaque 32-bit words, so pose comparison, record
//! layout and round trips are exact.

pub mod accumulation;
pub mod camera;
pub mod geometry;
pub mod material;
pub mod pipeline;
pub mod sample;
pub mod seeds;
pub mod vec3;

pub use accumulation::AccumulationBufferSet;
pub use camera::Camera;
pub use camera::CameraUniform;
pub use geometry::GeometryStorage;
pub use geometry::Shape;
pub use material::MaterialKind;
pub use material::MaterialStorage;
pub use pipeline::DispatchPlan;
pub use pipeline::FramePlan;
pub use pipeline::Pipeline;
pub use sample::SampleCounter;
pub use vec3::Vec3Bits;
