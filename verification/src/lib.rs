//! Rendering of a vector image to a fixed-size RGBA buffer, with the result
//! kept per object instance until a parameter changes.
//!
//! The crate holds the parts of that pipeline that decide something: the key
//! under which a rendered frame is kept, the geometry that turns a source
//! extent, a clip box and a target size into a canvas size and a scale, the
//! placement of the canvas inside the target, and the store of frames.
//! The image is parsed and drawn by resvg.

pub mod cache;
pub mod compose;
pub mod error;
pub mod frame;
pub mod render;
pub mod request;
pub mod scene;
pub mod snapshot;
pub mod style;
pub mod text;
pub mod transform;
pub mod units;

pub use cache::CacheEntry;
pub use cache::CacheStore;
pub use compose::compose;
pub use error::RenderError;
pub use frame::Frame;
pub use render::render;
pub use render::render_scene;
pub use request::decide;
pub use request::serve;
pub use request::RenderRequest;
pub use request::Step;
pub use scene::parse_scene;
pub use snapshot::ConfigSnapshot;
pub use style::style_override;
pub use transform::plan;
pub use transform::IntrinsicSize;
pub use transform::RenderPlan;
pub use transform::Scale;
pub use units::Length;
