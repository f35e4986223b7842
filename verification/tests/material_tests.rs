use raytracercube::{Color, Material, Texture};
use std::sync::Arc;

#[test]
fn plain_material_has_no_texture() {
    let m = Material::new(Color::new(255, 0, 0));
    assert_eq!(m.diffuse, Color::new(255, 0, 0));
    assert!(m.texture.is_none());
}

#[test]
fn textured_material_is_white_under_its_texture() {
    let tex = Arc::new(Texture::default_grid());
    let m = Material::with_texture(tex.clone());
    assert_eq!(m.diffuse, Color::new(255, 255, 255));
    assert!(Arc::ptr_eq(m.texture.as_ref().unwrap(), &tex));
}

#[test]
fn cloned_material_shares_the_texture() {
    let tex = Arc::new(Texture::new(1, 1, vec![Color::new(1, 2, 3)]));
    let m = Material::with_texture(tex.clone());
    let copy = m.clone();
    assert_eq!(copy.diffuse, m.diffuse);
    assert!(Arc::ptr_eq(copy.texture.as_ref().unwrap(), &tex));
    assert_eq!(Arc::strong_count(&tex), 3);
    let plain = Material::new(Color::new(4, 5, 6)).clone();
    assert_eq!(plain.diffuse, Color::new(4, 5, 6));
    assert!(plain.texture.is_none());
}
