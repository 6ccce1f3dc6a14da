use raycast::image::Image;
use raycast::image::ImageSettings;
use raycast::linear_algebra::Vec4;
use raycast::render::calculate_all;
use raycast::render::calculate_all_parallel;
use raycast::render::center_offset;
use raycast::render::collect_colors;
use raycast::render::make_pixels;
use raycast::render::render;
use raycast::render::Pixel;

#[test]
fn image_settings_from() {
    let s = ImageSettings::from(1000, 800);
    assert_eq!(s.width, 1000);
    assert_eq!(s.height, 800);
}

#[test]
fn pixel_from_starts_unevaluated() {
    let s = ImageSettings::from(4, 4);
    let p = Pixel::from(s, 2, 3);
    assert_eq!(p.position.x, 2);
    assert_eq!(p.position.y, 3);
    assert_eq!(p.result_color.x, 0);
    assert_eq!(p.result_color.y, 0);
    assert_eq!(p.result_color.z, 0);
    assert_eq!(p.result_color.w, 0);
}

#[test]
fn pixel_calculate_hit_is_opaque_black() {
    let s = ImageSettings::from(4, 4);
    let mut p = Pixel::from(s, 0, 0);
    p.calculate(true);
    let c = p.get_color();
    assert_eq!(c.x, 0);
    assert_eq!(c.y, 0);
    assert_eq!(c.z, 0);
    assert_eq!(c.w, 255);
}

#[test]
fn pixel_calculate_miss_is_opaque_white() {
    let s = ImageSettings::from(4, 4);
    let mut p = Pixel::from(s, 3, 1);
    p.calculate(false);
    let c = p.get_color();
    assert_eq!(c.x, 255);
    assert_eq!(c.y, 255);
    assert_eq!(c.z, 255);
    assert_eq!(c.w, 255);
}

#[test]
fn pixel_calculate_twice_same_color() {
    let s = ImageSettings::from(5, 5);
    let mut once = Pixel::from(s, 1, 2);
    once.calculate(true);
    let mut twice = Pixel::from(s, 1, 2);
    twice.calculate(true);
    twice.calculate(true);
    let a = once.get_color();
    let b = twice.get_color();
    assert_eq!(a.x, b.x);
    assert_eq!(a.y, b.y);
    assert_eq!(a.z, b.z);
    assert_eq!(a.w, b.w);
}

#[test]
fn center_offset_is_signed() {
    assert_eq!(center_offset(0, 1000), -500);
    assert_eq!(center_offset(500, 1000), 0);
    assert_eq!(center_offset(999, 1000), 499);
    assert_eq!(center_offset(2, 5), 0);
    assert_eq!(center_offset(0, 5), -2);
}

#[test]
fn make_pixels_row_major() {
    let s = ImageSettings::from(3, 2);
    let pixels = make_pixels(s);
    assert_eq!(pixels.len(), 6);
    let expected = [(0, 0), (1, 0), (2, 0), (0, 1), (1, 1), (2, 1)];
    for (i, (x, y)) in expected.iter().enumerate() {
        assert_eq!(pixels[i].position.x, *x);
        assert_eq!(pixels[i].position.y, *y);
    }
}

#[test]
fn sequential_dispatch_writes_every_pixel() {
    let s = ImageSettings::from(4, 3);
    let mut pixels = make_pixels(s);
    calculate_all(&mut pixels, false);
    assert_eq!(pixels.len(), 12);
    for p in &pixels {
        assert_eq!(p.result_color.x, 255);
        assert_eq!(p.result_color.w, 255);
    }
}

#[test]
fn parallel_matches_sequential() {
    let s = ImageSettings::from(64, 3);
    let mut seq_pixels = make_pixels(s);
    let mut par_pixels = make_pixels(s);
    calculate_all(&mut seq_pixels, true);
    calculate_all_parallel(&mut par_pixels, true);
    let seq_colors = collect_colors(seq_pixels);
    let par_colors = collect_colors(par_pixels);
    assert_eq!(seq_colors.len(), par_colors.len());
    for i in 0..seq_colors.len() {
        assert_eq!(seq_colors[i].x, par_colors[i].x);
        assert_eq!(seq_colors[i].y, par_colors[i].y);
        assert_eq!(seq_colors[i].z, par_colors[i].z);
        assert_eq!(seq_colors[i].w, par_colors[i].w);
    }
}

#[test]
fn parallel_dispatch_overwrites_initial_colors() {
    let s = ImageSettings::from(8, 8);
    let mut pixels = make_pixels(s);
    calculate_all_parallel(&mut pixels, true);
    for p in &pixels {
        assert_eq!(p.result_color.w, 255);
    }
}

#[test]
fn collect_colors_keeps_order() {
    let s = ImageSettings::from(2, 1);
    let mut pixels = make_pixels(s);
    pixels[0].calculate(true);
    pixels[1].calculate(false);
    let colors = collect_colors(pixels);
    assert_eq!(colors.len(), 2);
    assert_eq!(colors[0].x, 0);
    assert_eq!(colors[1].x, 255);
}

#[test]
fn render_buffer_shape() {
    let s = ImageSettings::from(5, 4);
    let img = render(s, false);
    assert_eq!(img.settings.width, 5);
    assert_eq!(img.settings.height, 4);
    assert_eq!(img.pixel_data.len(), 20);
    let x = 3u32;
    let y = 2u32;
    let flat = (y * s.width + x) as usize;
    let c = &img.pixel_data[flat];
    assert_eq!(c.x, 255);
    assert_eq!(c.y, 255);
    assert_eq!(c.z, 255);
    assert_eq!(c.w, 255);
}

#[test]
fn render_hit_is_black_frame() {
    let s = ImageSettings::from(2, 2);
    let img = render(s, true);
    assert_eq!(img.pixel_data.len(), 4);
    for c in &img.pixel_data {
        assert_eq!(c.x, 0);
        assert_eq!(c.y, 0);
        assert_eq!(c.z, 0);
        assert_eq!(c.w, 255);
    }
}

#[test]
fn render_smallest_raster() {
    let s = ImageSettings::from(1, 1);
    let img = render(s, true);
    assert_eq!(img.pixel_data.len(), 1);
    assert_eq!(img.pixel_data[0].x, 0);
    assert_eq!(img.pixel_data[0].w, 255);
    let bytes = img.rgba_bytes();
    assert_eq!(bytes, vec![0, 0, 0, 255]);
}

#[test]
fn rgba_bytes_layout() {
    let colors = vec![Vec4::from(1u8, 2u8, 3u8, 4u8), Vec4::from(9u8, 8u8, 7u8, 6u8)];
    let s = ImageSettings::from(2, 1);
    let img = Image::from(colors, s);
    let bytes = img.rgba_bytes();
    assert_eq!(bytes, vec![1, 2, 3, 4, 9, 8, 7, 6]);
}
