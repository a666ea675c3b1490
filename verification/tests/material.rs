use bevy_polyline::{Color, PolylineMaterial};

#[test]
fn uniform_buffer_holds_color_then_width() {
    let color = Color::new(
        1.0f32.to_bits(),
        0.5f32.to_bits(),
        0.25f32.to_bits(),
        1.0f32.to_bits(),
    );
    let m = PolylineMaterial::new(5.0f32.to_bits(), color);
    let b = m.uniform_buffer();
    assert_eq!(b.len(), 20);
    assert_eq!(&b[0..4], &1.0f32.to_bits().to_le_bytes());
    assert_eq!(&b[4..8], &0.5f32.to_bits().to_le_bytes());
    assert_eq!(&b[8..12], &0.25f32.to_bits().to_le_bytes());
    assert_eq!(&b[12..16], &1.0f32.to_bits().to_le_bytes());
    assert_eq!(&b[16..20], &5.0f32.to_bits().to_le_bytes());
}

#[test]
fn default_material_is_white_with_width_one() {
    let m = PolylineMaterial::default();
    assert_eq!(m.width_bits, 1.0f32.to_bits());
    assert_eq!(m.color, Color::white());
}

#[test]
fn white_is_all_ones() {
    let w = Color::white();
    assert_eq!(w.red_bits, 1.0f32.to_bits());
    assert_eq!(w.green_bits, 1.0f32.to_bits());
    assert_eq!(w.blue_bits, 1.0f32.to_bits());
    assert_eq!(w.alpha_bits, 1.0f32.to_bits());
}

#[test]
fn new_keeps_its_fields() {
    let c = Color::new(1, 2, 3, 4);
    assert_eq!(c.red_bits, 1);
    assert_eq!(c.green_bits, 2);
    assert_eq!(c.blue_bits, 3);
    assert_eq!(c.alpha_bits, 4);
    let m = PolylineMaterial::new(7, c);
    assert_eq!(m.width_bits, 7);
    assert_eq!(m.color, c);
}
