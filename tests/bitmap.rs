use nuklear_backend_gdi::{dib_bits, image_dib};

#[test]
fn dib_reverses_rows_and_swaps_red_blue() {
    // 2 x 2 image, top row then bottom row.
    let rgba = vec![
        1, 2, 3, 4, 5, 6, 7, 8, // top
        9, 10, 11, 12, 13, 14, 15, 16, // bottom
    ];
    let bits = dib_bits(2, 2, &rgba).unwrap();
    assert_eq!(
        bits,
        vec![
            11, 10, 9, 12, 15, 14, 13, 16, // bottom row first
            3, 2, 1, 4, 7, 6, 5, 8,
        ]
    );
}

#[test]
fn dib_of_single_row() {
    let rgba = vec![10, 20, 30, 40, 50, 60, 70, 80, 90, 100, 110, 120];
    assert_eq!(
        dib_bits(3, 1, &rgba),
        Some(vec![30, 20, 10, 40, 70, 60, 50, 80, 110, 100, 90, 120])
    );
}

#[test]
fn dib_of_empty_image() {
    assert_eq!(dib_bits(0, 0, &Vec::new()), Some(Vec::new()));
    assert_eq!(dib_bits(5, 0, &Vec::new()), Some(Vec::new()));
}

#[test]
fn dib_rejects_wrong_buffer_length() {
    assert_eq!(dib_bits(2, 2, &vec![0u8; 15]), None);
    assert_eq!(dib_bits(2, 2, &vec![0u8; 17]), None);
    assert_eq!(dib_bits(u32::MAX, u32::MAX, &vec![0u8; 4]), None);
}

#[test]
fn image_is_laid_out_bottom_up_bgra() {
    let buf = image::RgbaImage::from_raw(1, 2, vec![1, 2, 3, 4, 5, 6, 7, 8]).unwrap();
    let dib = image_dib(&image::DynamicImage::ImageRgba8(buf));
    assert_eq!(dib.width, 1);
    assert_eq!(dib.height, 2);
    assert_eq!(dib.bits, vec![7, 6, 5, 8, 3, 2, 1, 4]);
}

#[test]
fn gray_image_gets_opaque_alpha() {
    let buf = image::GrayImage::from_raw(2, 1, vec![9, 200]).unwrap();
    let dib = image_dib(&image::DynamicImage::ImageLuma8(buf));
    assert_eq!((dib.width, dib.height), (2, 1));
    assert_eq!(dib.bits, vec![9, 9, 9, 255, 200, 200, 200, 255]);
}
