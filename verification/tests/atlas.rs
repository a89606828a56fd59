use mecha_wayland::atlas::{decode_atlas, frame_image, AtlasError, PngFrame};

fn encode(width: u32, height: u32, color: png::ColorType, pixels: &[u8]) -> Vec<u8> {
    let mut bytes: Vec<u8> = Vec::new();
    {
        let mut encoder = png::Encoder::new(&mut bytes, width, height);
        encoder.set_color(color);
        encoder.set_depth(png::BitDepth::Eight);
        let mut writer = encoder.write_header().unwrap();
        writer.write_image_data(pixels).unwrap();
    }
    bytes
}

#[test]
fn a_grayscale_atlas_decodes_to_its_pixels() {
    let pixels = [0u8, 17, 34, 51, 255, 1];
    let bytes = encode(3, 2, png::ColorType::Grayscale, &pixels);
    let image = decode_atlas(&bytes).unwrap();
    assert_eq!((image.width, image.height), (3, 2));
    assert_eq!(image.data, pixels.to_vec());
}

#[test]
fn a_colour_image_keeps_all_its_bytes() {
    let pixels = [1u8, 2, 3, 4, 5, 6];
    let bytes = encode(2, 1, png::ColorType::Rgb, &pixels);
    let image = decode_atlas(&bytes).unwrap();
    assert_eq!((image.width, image.height), (2, 1));
    assert_eq!(image.data, pixels.to_vec());
}

#[test]
fn garbage_has_no_header() {
    assert!(matches!(decode_atlas(&[1, 2, 3, 4]), Err(AtlasError::Header(_))));
    assert!(matches!(decode_atlas(&[]), Err(AtlasError::Header(_))));
}

#[test]
fn damaged_pixels_are_a_frame_error() {
    let pixels = [7u8; 64];
    let mut bytes = encode(8, 8, png::ColorType::Grayscale, &pixels);
    // The signature takes 8 bytes and the header chunk 25; then come the length and the name of
    // the pixel chunk, and its data.
    for b in bytes.iter_mut().skip(41) {
        *b = 0xff;
    }
    assert!(matches!(decode_atlas(&bytes), Err(AtlasError::Frame(_))));
}

#[test]
fn the_image_is_the_used_part_of_the_buffer() {
    let image = frame_image(PngFrame {
        width: 2,
        height: 1,
        buffer_size: 2,
        data: vec![9, 8, 7, 6],
    });
    assert_eq!((image.width, image.height), (2, 1));
    assert_eq!(image.data, vec![9, 8]);
}
