use raytracercube::Framebuffer;

#[test]
fn new_framebuffer_is_black() {
    let fb = Framebuffer::new(4, 3);
    assert_eq!(fb.width, 4);
    assert_eq!(fb.height, 3);
    assert_eq!(fb.buffer, vec![0u32; 12]);
}

#[test]
fn point_paints_one_pixel() {
    let mut fb = Framebuffer::new(4, 3);
    fb.set_current_color(0x0A1528);
    assert_eq!(fb.current_color, 0x0A1528);
    fb.point(2, 1);
    assert_eq!(fb.buffer[1 * 4 + 2], 0x0A1528);
    assert_eq!(fb.buffer.iter().filter(|&&p| p != 0).count(), 1);
}

#[test]
fn point_outside_changes_nothing() {
    let mut fb = Framebuffer::new(4, 3);
    fb.point(4, 0);
    fb.point(0, 3);
    assert_eq!(fb.buffer, vec![0u32; 12]);
}
