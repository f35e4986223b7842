use std::sync::Arc;
use vstd::prelude::*;
use crate::color::{Color, white};
use crate::texture::Texture;

verus! {

/// Another handle to the texture behind `texture`.
/// Trusted: `Arc::clone` makes a new pointer to the same allocation, so the
/// handle stands for the same texture.
#[verifier::external_body]
fn share_texture(texture: &Arc<Texture>) -> (shared: Arc<Texture>)
    ensures
        shared == *texture,
{
    Arc::clone(texture)
}

/// The surface description of an object: a flat diffuse colour, or a texture
/// sampled at the hit's UV coordinates.
pub struct Material {
    pub diffuse: Color,
    pub texture: Option<Arc<Texture>>,
}

impl Material {
    /// An untextured material of the given colour.
    pub fn new(diffuse: Color) -> (m: Material)
        ensures
            m.diffuse == diffuse,
            m.texture.is_none(),
    {
        Material { diffuse, texture: None }
    }

    /// A textured material; its diffuse colour is white.
    pub fn with_texture(texture: Arc<Texture>) -> (m: Material)
        ensures
            m.diffuse == white(),
            m.texture == Some(texture),
    {
        Material { diffuse: Color::new(255, 255, 255), texture: Some(texture) }
    }
}

impl Clone for Material {
    /// A copy that shares the texture.
    fn clone(&self) -> (m: Material)
        ensures
            m == *self,
    {
        let texture = match &self.texture {
            Some(t) => Some(share_texture(t)),
            None => None,
        };
        Material { diffuse: self.diffuse, texture }
    }
}

} // verus!
