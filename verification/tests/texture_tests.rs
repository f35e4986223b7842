use raytracercube::{Color, Texture};

/// Wraps UV coordinates into [0, 1) and scales them to texel coordinates,
/// as the renderer does before sampling.
fn sample(texture: &Texture, u: f32, v: f32) -> Color {
    let u = u.rem_euclid(1.0);
    let v = v.rem_euclid(1.0);
    let x = (u * texture.width as f32) as u32;
    let y = (v * texture.height as f32) as u32;
    texture.texel(x, y)
}

#[test]
fn test_default_grid_sampling() {
    let texture = Texture::default_grid();
    assert_eq!(texture.width, 64);
    assert_eq!(texture.height, 64);

    let c1 = sample(&texture, 0.5, 0.5);
    let c2 = sample(&texture, 1.5, 2.5);
    assert_eq!(c1.to_hex(), c2.to_hex());
}

#[test]
fn grid_has_one_texel_per_cell() {
    let texture = Texture::default_grid();
    assert_eq!(texture.pixels.len(), 64 * 64);
}

#[test]
fn grid_border_cross_and_checker() {
    let texture = Texture::default_grid();
    let dark = Color::new(25, 90, 80);
    let light = Color::new(60, 230, 205);
    let mid = Color::new(40, 185, 165);
    assert_eq!(texture.texel(0, 0), dark);
    assert_eq!(texture.texel(63, 20), dark);
    assert_eq!(texture.texel(31, 10), dark);
    assert_eq!(texture.texel(10, 33), dark);
    assert_eq!(texture.texel(5, 5), light);
    assert_eq!(texture.texel(20, 5), mid);
    assert_eq!(texture.texel(20, 20), light);
    assert_eq!(texture.pixels[5 * 64 + 20], mid);
}

#[test]
fn sampling_past_the_edge_gives_the_edge_texel() {
    let pixels = vec![
        Color::new(1, 0, 0),
        Color::new(2, 0, 0),
        Color::new(3, 0, 0),
        Color::new(4, 0, 0),
        Color::new(5, 0, 0),
        Color::new(6, 0, 0),
    ];
    let texture = Texture::new(3, 2, pixels);
    assert_eq!(texture.texel(2, 1), Color::new(6, 0, 0));
    assert_eq!(texture.texel(1, 0), Color::new(2, 0, 0));
    assert_eq!(texture.texel(100, 0), Color::new(3, 0, 0));
    assert_eq!(texture.texel(0, 9), Color::new(4, 0, 0));
    assert_eq!(texture.texel(u32::MAX, u32::MAX), Color::new(6, 0, 0));
}

#[test]
fn blank_texture_samples_white() {
    let white = Color::new(255, 255, 255);
    assert_eq!(Texture::new(0, 4, vec![Color::new(1, 2, 3)]).texel(0, 0), white);
    assert_eq!(Texture::new(4, 0, vec![Color::new(1, 2, 3)]).texel(0, 0), white);
    assert_eq!(Texture::new(2, 2, vec![]).texel(1, 1), white);
}

#[test]
fn missing_texel_samples_white() {
    let texture = Texture::new(2, 2, vec![Color::new(7, 8, 9)]);
    assert_eq!(texture.texel(0, 0), Color::new(7, 8, 9));
    assert_eq!(texture.texel(1, 1), Color::new(255, 255, 255));
}

#[test]
fn rgba_bytes_become_texels() {
    let bytes = [1u8, 2, 3, 4, 5, 6, 7, 8, 9];
    let texture = Texture::from_rgba(2, 1, &bytes);
    assert_eq!(texture.width, 2);
    assert_eq!(texture.height, 1);
    assert_eq!(texture.pixels, vec![Color::new(1, 2, 3), Color::new(5, 6, 7)]);
    assert_eq!(texture.texel(1, 0), Color::new(5, 6, 7));
}

#[test]
fn new_keeps_its_fields() {
    let texture = Texture::new(1, 1, vec![Color::new(9, 9, 9)]);
    assert_eq!(texture.width, 1);
    assert_eq!(texture.height, 1);
    assert_eq!(texture.pixels, vec![Color::new(9, 9, 9)]);
}
