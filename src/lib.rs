//! A retained-command 2D drawing batcher: scenes of drawing commands are
//! compiled into packed index data, byte ranges of shared GPU buffers and an
//! ordered list of draw and view-switch issues that one render pass replays.
//!
//! The library computes no floating point: positions, cameras and their
//! transforms belong to the caller, and are carried through as opaque values.

pub mod bitmap;
pub mod decode;
pub mod error;
pub mod pixel;
pub mod renderer;
pub mod scene;
pub mod shape;

pub use crate::bitmap::Bitmap;
pub use crate::decode::{from_image, from_image_bytes};
pub use crate::error::SglError;
pub use crate::pixel::Pixel;
pub use crate::renderer::{RenderCommand, RenderCommands, SharedBuffers};
pub use crate::scene::{DrawCommand, Scene, TextureId};
pub use crate::shape::{RectangleShape, Thickness};
