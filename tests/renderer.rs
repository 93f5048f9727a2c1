use raytracer::image::Image;
use raytracer::pixel::Pixel;
use raytracer::renderer::{render, RenderOption};

#[test]
fn render_flips_rows_to_camera_space() {
    let mut img = Image::new("x", 3, 4);
    render(&mut img, |x: usize, v: usize| Pixel::new(x as u8, v as u8, 0));
    for y in 0..4 {
        for x in 0..3 {
            assert_eq!(img.get(x, y), Pixel::new(x as u8, (3 - y) as u8, 0));
        }
    }
}

#[test]
fn render_keeps_size_and_name() {
    let mut img = Image::new("scene.ppm", 5, 1);
    render(&mut img, |_x: usize, _v: usize| Pixel::white());
    assert_eq!((img.width, img.height), (5, 1));
    assert_eq!(img.filename, "scene.ppm");
    assert!(img.canvas[0].iter().all(|p| *p == Pixel::white()));
}

#[test]
fn render_option_fields() {
    let option = RenderOption { samples_per_pixel: 50, max_depth: 0 };
    assert_eq!(option.samples_per_pixel, 50);
    assert_eq!(option.max_depth, 0);
}

use raytracer::renderer::{ray_color, Bounce};

fn times(a: u64, b: u64) -> u64 {
    a * b
}

#[test]
fn no_depth_gives_black() {
    let trace = |_r: u32| -> Bounce<u64, u32> { Bounce::Miss(7) };
    assert_eq!(ray_color(0u32, 0, &trace, &times, 0u64), 0);
    let trace = |r: u32| -> Bounce<u64, u32> { Bounce::Scattered(3, r + 1) };
    assert_eq!(ray_color(5u32, 0, &trace, &times, 0u64), 0);
}

#[test]
fn escaping_ray_sees_background() {
    let trace = |r: u32| -> Bounce<u64, u32> { Bounce::Miss(100 + r as u64) };
    assert_eq!(ray_color(4u32, 1, &trace, &times, 0u64), 104);
    assert_eq!(ray_color(4u32, 50, &trace, &times, 0u64), 104);
}

#[test]
fn absorbed_ray_is_black() {
    let trace = |_r: u32| -> Bounce<u64, u32> { Bounce::Absorbed };
    assert_eq!(ray_color(1u32, 3, &trace, &times, 9u64), 9);
}

#[test]
fn bounces_multiply_attenuation() {
    let trace = |r: u32| -> Bounce<u64, u32> {
        if r < 3 {
            Bounce::Scattered(2, r + 1)
        } else {
            Bounce::Miss(5)
        }
    };
    assert_eq!(ray_color(0u32, 10, &trace, &times, 0u64), 2 * 2 * 2 * 5);
    assert_eq!(ray_color(0u32, 4, &trace, &times, 0u64), 40);
    assert_eq!(ray_color(0u32, 3, &trace, &times, 0u64), 0);
    assert_eq!(ray_color(2u32, 2, &trace, &times, 0u64), 10);
}
