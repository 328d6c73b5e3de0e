use nuklear_backend_gdi::{convert_color, Color};

#[test]
fn colorref_packs_red_green_blue() {
    assert_eq!(convert_color(Color { r: 0x12, g: 0x34, b: 0x56, a: 0x78 }), 0x0056_3412);
}

#[test]
fn colorref_drops_alpha() {
    assert_eq!(convert_color(Color { r: 255, g: 255, b: 255, a: 0 }), 0x00FF_FFFF);
    assert_eq!(convert_color(Color { r: 0, g: 0, b: 0, a: 255 }), 0);
    assert_eq!(convert_color(Color { r: 1, g: 0, b: 0, a: 9 }), 1);
    assert_eq!(convert_color(Color { r: 0, g: 0, b: 1, a: 9 }), 0x1_0000);
}
