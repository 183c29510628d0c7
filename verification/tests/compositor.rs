use eveicongenerator::icons::compositor::{
    blend_additive, blueprint_composite, composite_blueprint, composite_tech, copy_or_convert,
    overlay_at, read_image, resize_to, tech_composite, write_image, Raster,
};
use eveicongenerator::icons::recipe::IconError;

fn flat(width: u32, height: u32, pixel: [u8; 4]) -> Raster {
    let mut pixels = Vec::new();
    for _ in 0..(width * height) {
        pixels.extend_from_slice(&pixel);
    }
    Raster::new(width, height, pixels).unwrap()
}

fn png(img: &Raster) -> Vec<u8> {
    write_image(img, false).unwrap()
}

#[test]
fn raster_needs_four_bytes_a_pixel() {
    assert!(Raster::new(2, 2, vec![0; 16]).is_some());
    assert!(Raster::new(2, 2, vec![0; 15]).is_none());
    assert!(Raster::new(0, 7, Vec::new()).is_some());
    assert!(flat(3, 2, [1, 2, 3, 4]).is_well_formed());
    assert!(!Raster { width: 1, height: 1, pixels: vec![0; 3] }.is_well_formed());
}

#[test]
fn png_round_trip_keeps_pixels() {
    let img = flat(3, 2, [10, 20, 30, 255]);
    let bytes = png(&img);
    assert_eq!(&bytes[..8], b"\x89PNG\r\n\x1a\n");
    let back = read_image(&bytes).unwrap();
    assert_eq!((back.width, back.height), (3, 2));
    assert_eq!(back.pixels, img.pixels);
}

#[test]
fn jpeg_is_written_as_jpeg() {
    let img = flat(8, 8, [200, 100, 50, 255]);
    let bytes = write_image(&img, true).unwrap();
    assert_eq!(&bytes[..2], &[0xff, 0xd8]);
    let back = read_image(&bytes).unwrap();
    assert_eq!((back.width, back.height), (8, 8));
}

#[test]
fn unreadable_bytes_are_an_image_error() {
    assert!(matches!(read_image(b"not an image"), Err(IconError::Image(_))));
    assert!(matches!(composite_tech(b"no", b"no"), Err(IconError::Image(_))));
}

#[test]
fn resize_gives_the_asked_size() {
    let img = flat(128, 32, [9, 9, 9, 255]);
    let out = resize_to(&img, 64, 64);
    assert_eq!((out.width, out.height), (64, 64));
    assert_eq!(out.pixels.len(), 64 * 64 * 4);
    assert!(out.pixels.chunks(4).all(|p| p == [9, 9, 9, 255]));
}

#[test]
fn overlay_covers_only_where_the_top_lies() {
    let mut base = flat(4, 4, [0, 0, 0, 255]);
    let top = flat(2, 2, [255, 0, 0, 255]);
    overlay_at(&mut base, &top, 1, 1);
    assert_eq!((base.width, base.height), (4, 4));
    let at = |x: usize, y: usize| base.pixels[(y * 4 + x) * 4..(y * 4 + x) * 4 + 4].to_vec();
    assert_eq!(at(0, 0), vec![0, 0, 0, 255]);
    assert_eq!(at(1, 1), vec![255, 0, 0, 255]);
    assert_eq!(at(2, 2), vec![255, 0, 0, 255]);
    assert_eq!(at(3, 3), vec![0, 0, 0, 255]);
}

#[test]
fn transparent_overlay_changes_nothing() {
    let mut base = flat(4, 4, [7, 8, 9, 255]);
    let top = flat(4, 4, [255, 255, 255, 0]);
    overlay_at(&mut base, &top, 0, 0);
    assert!(base.pixels.chunks(4).all(|p| p == [7, 8, 9, 255]));
}

#[test]
fn blend_adds_colours_and_keeps_alpha() {
    let mut base = flat(2, 2, [10, 20, 250, 200]);
    let top = flat(2, 2, [5, 5, 50, 255]);
    assert!(blend_additive(&mut base, &top));
    assert!(base.pixels.chunks(4).all(|p| p == [15, 25, 255, 200]));
}

#[test]
fn blend_refuses_other_sizes() {
    let mut base = flat(2, 2, [10, 20, 30, 255]);
    let top = flat(2, 3, [5, 5, 5, 255]);
    assert!(!blend_additive(&mut base, &top));
    assert!(base.pixels.chunks(4).all(|p| p == [10, 20, 30, 255]));
}

#[test]
fn tech_overlay_lies_in_the_upper_left_corner() {
    let icon = flat(128, 128, [0, 0, 255, 255]);
    let tech = flat(32, 32, [255, 0, 0, 255]);
    let out = tech_composite(&icon, &tech);
    assert_eq!((out.width, out.height), (64, 64));
    let at = |x: usize, y: usize| out.pixels[(y * 64 + x) * 4..(y * 64 + x) * 4 + 4].to_vec();
    assert_eq!(at(0, 0), vec![255, 0, 0, 255]);
    assert_eq!(at(15, 15), vec![255, 0, 0, 255]);
    assert_eq!(at(16, 16), vec![0, 0, 255, 255]);
    assert_eq!(at(63, 63), vec![0, 0, 255, 255]);
}

#[test]
fn tech_file_is_a_png_of_64_pixels() {
    let icon = png(&flat(32, 32, [0, 0, 255, 255]));
    let tech = png(&flat(16, 16, [255, 0, 0, 255]));
    let out = read_image(&composite_tech(&icon, &tech).unwrap()).unwrap();
    assert_eq!((out.width, out.height), (64, 64));
    assert_eq!(&out.pixels[..4], &[255, 0, 0, 255]);
    assert_eq!(&out.pixels[out.pixels.len() - 4..], &[0, 0, 255, 255]);
}

#[test]
fn blueprint_is_background_icon_corner_and_tier() {
    let background = flat(64, 64, [0, 0, 100, 255]);
    let corner = flat(64, 64, [20, 0, 0, 255]);
    let icon = flat(64, 64, [0, 50, 0, 0]);
    let tier = flat(16, 16, [255, 255, 255, 255]);
    let plain = blueprint_composite(flat(64, 64, [0, 0, 100, 255]), &corner, &icon, None).unwrap();
    assert!(plain.pixels.chunks(4).all(|p| p == [20, 0, 100, 255]));
    let tiered = blueprint_composite(background, &corner, &icon, Some(&tier)).unwrap();
    assert_eq!(&tiered.pixels[..4], &[255, 255, 255, 255]);
    assert_eq!(&tiered.pixels[tiered.pixels.len() - 4..], &[20, 0, 100, 255]);
    assert!(blueprint_composite(flat(64, 64, [0, 0, 0, 255]), &flat(32, 32, [0; 4]), &icon, None).is_none());
}

#[test]
fn blueprint_file_from_bytes() {
    let background = png(&flat(64, 64, [0, 0, 100, 255]));
    let corner = png(&flat(64, 64, [20, 0, 0, 255]));
    let icon = png(&flat(32, 32, [0, 200, 0, 255]));
    let tier = png(&flat(16, 16, [255, 255, 255, 255]));
    let out = read_image(&composite_blueprint(&background, &corner, &icon, Some(&tier)).unwrap()).unwrap();
    assert_eq!((out.width, out.height), (64, 64));
    assert_eq!(&out.pixels[..4], &[255, 255, 255, 255]);
    assert_eq!(&out.pixels[out.pixels.len() - 4..], &[20, 200, 0, 255]);
    let small = png(&flat(8, 8, [20, 0, 0, 255]));
    assert!(matches!(
        composite_blueprint(&background, &small, &icon, None),
        Err(IconError::Dimensions)
    ));
    assert!(matches!(
        composite_blueprint(&background, &corner, b"bad", None),
        Err(IconError::Image(_))
    ));
}

#[test]
fn copy_where_the_extension_fits() {
    let bytes = b"any bytes at all".to_vec();
    assert_eq!(copy_or_convert(&bytes, "res:/a/b.png", ".png").unwrap(), bytes);
    assert_eq!(copy_or_convert(&bytes, "res:/a/b.tga", ".tga").unwrap(), bytes);
}

#[test]
fn convert_where_the_extension_differs() {
    let source = png(&flat(4, 4, [1, 2, 3, 255]));
    let out = copy_or_convert(&source, "res:/a/b.png", ".jpg").unwrap();
    assert_eq!(&out[..2], &[0xff, 0xd8]);
    let again = copy_or_convert(&out, "res:/a/b.jpg", ".png").unwrap();
    assert_eq!(&again[..8], b"\x89PNG\r\n\x1a\n");
    assert!(matches!(copy_or_convert(b"bad", "res:/a/b.dds", ".jpeg"), Err(IconError::Image(_))));
}
