use std::io::Cursor;
use voxelgfx::textures::Textures;

fn png_bytes(width: u32, height: u32, rgba: [u8; 4]) -> Vec<u8> {
    let img = image::RgbaImage::from_pixel(width, height, image::Rgba(rgba));
    let mut bytes: Vec<u8> = Vec::new();
    img.write_to(&mut Cursor::new(&mut bytes), image::ImageFormat::Png)
        .unwrap();
    bytes
}

#[test]
fn load_image_decodes_png_bytes() {
    let bytes = png_bytes(2, 3, [10, 20, 30, 255]);
    let mut textures = Textures::new();
    assert_eq!(textures.load_image("sky", &bytes), Ok(true));
    let texture = textures.get_texture("sky").unwrap();
    assert_eq!(texture.dimensions, (2, 3));
    assert_eq!(texture.rgba8.len(), 4 * 2 * 3);
    for pixel in texture.rgba8.chunks(4) {
        assert_eq!(pixel, &[10, 20, 30, 255]);
    }
    // the store holds pixels, not the encoded file
    assert_ne!(texture.rgba8, bytes);
}

#[test]
fn load_image_rejects_garbage() {
    let mut textures = Textures::new();
    let r = textures.load_image("sky", &[1, 2, 3, 4]);
    assert_eq!(r.unwrap_err(), "Image could not be decoded");
    assert!(textures.get_texture("sky").is_err());
}

#[test]
fn icon_rgba8_returns_raw_pixels() {
    let bytes = png_bytes(1, 1, [1, 2, 3, 4]);
    let textures = Textures::new();
    let pixels = textures.icon_rgba8(&bytes).unwrap();
    assert_eq!(pixels, vec![1, 2, 3, 4]);
    assert!(textures.icon_rgba8(&[0, 0]).is_none());
}
