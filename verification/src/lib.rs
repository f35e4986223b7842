//! Verified core of a small ray tracer that renders a textured cube over a
//! bounded floor: 24-bit colours, textures and their sampling, materials,
//! the per-face layout of the cube, the framebuffer, and the search for the
//! cube's textures among the asset files.
pub mod color;
pub mod texture;
pub mod material;
pub mod cube_face;
pub mod texture_search;
pub mod framebuffer;

pub use color::Color;
pub use texture::Texture;
pub use material::Material;
pub use cube_face::{Axis, CubeFace, UvAxis, UvLayout, face_material};
pub use texture_search::{Asset, CubeSkin, SearchAction, SearchState, search_step, start_search};
pub use framebuffer::Framebuffer;
