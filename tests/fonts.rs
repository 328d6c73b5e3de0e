use nuklear_backend_gdi::Fonts;

#[test]
fn fonts_get_consecutive_ids() {
    let mut fonts = Fonts::new();
    assert_eq!(fonts.len(), 0);
    assert_eq!(fonts.add("Arial"), 0);
    assert_eq!(fonts.add("Consolas"), 1);
    assert_eq!(fonts.len(), 2);
    assert_eq!(fonts.get(0), Some(&"Arial"));
    assert_eq!(fonts.get(1), Some(&"Consolas"));
}

#[test]
fn unknown_font_id_gives_none() {
    let mut fonts = Fonts::new();
    assert_eq!(fonts.get(0), None::<&u8>);
    fonts.add(7u8);
    assert_eq!(fonts.get(1), None);
    assert_eq!(fonts.get(usize::MAX), None);
}
