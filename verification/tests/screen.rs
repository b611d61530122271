use raytracing_iow::screen::Screen;

#[test]
fn a_screen_keeps_its_dimensions() {
    let s = Screen::new(1200, 675);
    assert_eq!(s.width(), 1200);
    assert_eq!(s.height(), 675);
}

#[test]
fn the_pixel_count_is_the_area() {
    let s = Screen::new(1200, 675);
    assert_eq!(s.pixel_count(), 810000);
}

#[test]
fn raster_coordinates_walk_rows_top_to_bottom() {
    let s = Screen::new(3, 2);
    let coords = s.raster_coordinates();
    assert_eq!(coords, vec![(0, 0), (1, 0), (2, 0), (0, 1), (1, 1), (2, 1)]);
}

#[test]
fn raster_coordinates_of_an_empty_screen_are_empty() {
    let s = Screen::new(0, 5);
    assert!(s.raster_coordinates().is_empty());
}

#[test]
fn pixels_are_laid_out_in_raster_order() {
    let s = Screen::new(4, 3);
    assert_eq!(s.pixel_index(0, 0), 0);
    assert_eq!(s.pixel_index(3, 0), 3);
    assert_eq!(s.pixel_index(0, 1), 4);
    assert_eq!(s.pixel_index(2, 2), 10);
    assert_eq!(s.pixel_index(3, 2), 11);
}
