use desktop_snake::image::{
    black, blank_image, occupied_image, red, solid_image, CellImages, Color, PIXEL_SIZE,
};

fn all_pixels_are(image: &bmp::Image, r: u8, g: u8, b: u8) -> bool {
    let mut same = true;
    for y in 0..image.get_height() {
        for x in 0..image.get_width() {
            same = same && image.get_pixel(x, y) == bmp::Pixel::new(r, g, b);
        }
    }
    same
}

#[test]
fn pixel_size_is_256() {
    assert_eq!(PIXEL_SIZE, 256);
}

#[test]
fn colors_of_the_cells() {
    assert_eq!(black(), Color { r: 0, g: 0, b: 0 });
    assert_eq!(red(), Color { r: 255, g: 0, b: 0 });
}

#[test]
fn blank_image_is_a_black_square() {
    let image = blank_image();
    assert_eq!(image.get_width(), 256);
    assert_eq!(image.get_height(), 256);
    assert!(all_pixels_are(&image, 0, 0, 0));
}

#[test]
fn occupied_image_is_a_red_square() {
    let image = occupied_image();
    assert_eq!(image.get_width(), 256);
    assert_eq!(image.get_height(), 256);
    assert!(all_pixels_are(&image, 255, 0, 0));
}

#[test]
fn solid_image_has_the_colour_everywhere() {
    let image = solid_image(5, Color { r: 1, g: 2, b: 3 });
    assert_eq!(image.get_width(), 5);
    assert_eq!(image.get_height(), 5);
    assert!(all_pixels_are(&image, 1, 2, 3));
    assert!(image != bmp::Image::new(5, 5));
}

#[test]
fn solid_image_of_side_zero_and_one() {
    let none = solid_image(0, red());
    assert_eq!(none.get_width(), 0);
    assert_eq!(none.get_height(), 0);
    let one = solid_image(1, red());
    assert_eq!(one.get_pixel(0, 0), bmp::Pixel::new(255, 0, 0));
}

#[test]
fn image_for_picks_by_state() {
    let images = CellImages::new();
    assert!(all_pixels_are(images.image_for(true), 255, 0, 0));
    assert!(all_pixels_are(images.image_for(false), 0, 0, 0));
    assert!(images.image_for(true) == &images.occupied);
    assert!(images.image_for(false) == &images.blank);
}

#[test]
fn encoded_image_has_the_size_of_its_pixels() {
    let mut bytes: Vec<u8> = Vec::new();
    occupied_image().to_writer(&mut bytes).unwrap();
    assert_eq!(bytes.len(), 54 + 256 * 256 * 3);
    assert_eq!(&bytes[0..2], &[0x42, 0x4d]);
    assert_eq!(&bytes[54..57], &[0, 0, 255]);
}
