use simple_ray_tracer::Image;

#[test]
fn image_keeps_dimensions() {
    let img = Image::new(1200, 675);
    assert_eq!(img.width(), 1200);
    assert_eq!(img.height(), 675);
}

#[test]
fn image_zero_height_becomes_one() {
    let img = Image::new(400, 0);
    assert_eq!(img.width(), 400);
    assert_eq!(img.height(), 1);
}

#[test]
fn image_zero_width_is_kept() {
    let img = Image::new(0, 5);
    assert_eq!(img.width(), 0);
    assert_eq!(img.pixel_count(), 0);
}

#[test]
fn pixel_count_is_width_times_height() {
    assert_eq!(Image::new(1200, 675).pixel_count(), 810_000);
    assert_eq!(Image::new(7, 0).pixel_count(), 7);
}

#[test]
fn pixel_count_of_largest_frame() {
    let img = Image::new(u32::MAX, u32::MAX);
    assert_eq!(img.pixel_count(), (u32::MAX as u64) * (u32::MAX as u64));
}

#[test]
fn pixels_are_walked_row_by_row() {
    let img = Image::new(4, 3);
    assert_eq!(img.pixel_at(0), (0, 0));
    assert_eq!(img.pixel_at(3), (3, 0));
    assert_eq!(img.pixel_at(4), (0, 1));
    assert_eq!(img.pixel_at(6), (2, 1));
    assert_eq!(img.pixel_at(11), (3, 2));
}

#[test]
fn every_pixel_is_visited_once() {
    let img = Image::new(5, 4);
    let mut seen = vec![false; 20];
    for i in 0..img.pixel_count() {
        let (x, y) = img.pixel_at(i);
        assert!(x < 5 && y < 4);
        let k = (y * 5 + x) as usize;
        assert!(!seen[k]);
        seen[k] = true;
    }
    assert!(seen.iter().all(|v| *v));
}

#[test]
fn last_pixel_of_largest_frame() {
    let img = Image::new(u32::MAX, u32::MAX);
    let last = img.pixel_count() - 1;
    assert_eq!(img.pixel_at(last), (u32::MAX - 1, u32::MAX - 1));
}
