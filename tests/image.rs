use raytracer::image::Image;
use raytracer::pixel::Pixel;

#[test]
fn new_image_is_black() {
    let img = Image::new("out.ppm", 3, 2);
    assert_eq!(img.filename, "out.ppm");
    assert_eq!((img.width, img.height), (3, 2));
    assert_eq!(img.canvas.len(), 2);
    for row in img.canvas.iter() {
        assert_eq!(row.len(), 3);
        assert!(row.iter().all(|p| *p == Pixel::black()));
    }
    assert_eq!(Pixel::default(), Pixel::new(0, 0, 0));
}

#[test]
fn set_and_get_pixel() {
    let mut img = Image::new("x", 2, 2);
    img.set(1, 0, Pixel::new(1, 2, 3));
    assert_eq!(img.get(1, 0), Pixel::new(1, 2, 3));
    assert_eq!(img.get(0, 1), Pixel::black());
    assert_eq!(img.canvas[0][1], Pixel::new(1, 2, 3));
}

#[test]
fn ppm_text_of_small_image() {
    let mut img = Image::new("x", 2, 1);
    img.set(0, 0, Pixel::white());
    img.set(1, 0, Pixel::new(0, 7, 10));
    let text = String::from_utf8(img.to_ppm()).unwrap();
    assert_eq!(text, "P3\n2 1\n255\n255 255 255\n0 7 10\n");
}

#[test]
fn ppm_text_of_empty_image() {
    let img = Image::new("x", 0, 0);
    assert_eq!(String::from_utf8(img.to_ppm()).unwrap(), "P3\n0 0\n255\n");
}

#[test]
fn ppm_rows_top_to_bottom() {
    let mut img = Image::new("x", 1, 12);
    for y in 0..12 {
        img.set(0, y, Pixel::new(y as u8, 100, 9));
    }
    let text = String::from_utf8(img.to_ppm()).unwrap();
    let lines: Vec<&str> = text.lines().collect();
    assert_eq!(lines[0], "P3");
    assert_eq!(lines[1], "1 12");
    assert_eq!(lines[2], "255");
    assert_eq!(lines.len(), 15);
    assert_eq!(lines[3], "0 100 9");
    assert_eq!(lines[14], "11 100 9");
}
