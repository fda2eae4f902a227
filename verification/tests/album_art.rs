use spotui::state::album_art_state::AlbumArtState;
use spotui::ui::album_art::{copy_rows, pixels_to_rows, AlbumArtGenerator, Rgb};

fn rgb(r: u8, g: u8, b: u8) -> Rgb {
    Rgb { r, g, b }
}

#[test]
fn pixels_are_grouped_by_row() {
    let pixels = vec![(0, 0, 1, 2, 3), (1, 0, 4, 5, 6), (0, 1, 7, 8, 9), (1, 1, 10, 11, 12)];
    let rows = pixels_to_rows(&pixels);
    assert_eq!(rows.len(), 2);
    assert!(rows[0] == vec![rgb(1, 2, 3), rgb(4, 5, 6)]);
    assert!(rows[1] == vec![rgb(7, 8, 9), rgb(10, 11, 12)]);
}

#[test]
fn no_pixels_give_one_empty_row() {
    let rows = pixels_to_rows(&Vec::new());
    assert_eq!(rows.len(), 1);
    assert!(rows[0].is_empty());
}

#[test]
fn first_pixel_off_row_zero_leaves_an_empty_first_row() {
    let rows = pixels_to_rows(&vec![(0, 3, 1, 1, 1)]);
    assert_eq!(rows.len(), 2);
    assert!(rows[0].is_empty());
    assert!(rows[1] == vec![rgb(1, 1, 1)]);
}

#[test]
fn copied_rows_are_equal() {
    let rows = vec![vec![rgb(1, 2, 3)], vec![], vec![rgb(9, 9, 9), rgb(0, 0, 0)]];
    assert!(copy_rows(&rows) == rows);
}

fn png_bytes() -> Vec<u8> {
    let mut img = image::RgbImage::new(2, 2);
    img.put_pixel(0, 0, image::Rgb([255, 0, 0]));
    img.put_pixel(1, 0, image::Rgb([0, 255, 0]));
    img.put_pixel(0, 1, image::Rgb([0, 0, 255]));
    img.put_pixel(1, 1, image::Rgb([255, 255, 255]));
    let mut bytes: Vec<u8> = Vec::new();
    image::DynamicImage::ImageRgb8(img)
        .write_to(&mut std::io::Cursor::new(&mut bytes), image::ImageOutputFormat::Png)
        .unwrap();
    bytes
}

#[test]
fn cover_is_drawn_width_by_half_width() {
    let art = AlbumArtGenerator::generate_ascii_art(&png_bytes(), 4).unwrap();
    assert_eq!(art.len(), 2);
    assert_eq!(art[0].len(), 4);
    assert_eq!(art[1].len(), 4);
    assert!(art[0][0] == rgb(255, 0, 0));
    assert!(art[0][3] == rgb(0, 255, 0));
    assert!(art[1][0] == rgb(0, 0, 255));
    assert!(art[1][3] == rgb(255, 255, 255));
}

#[test]
fn narrow_cover_has_one_row() {
    let art = AlbumArtGenerator::generate_ascii_art(&png_bytes(), 2).unwrap();
    assert_eq!(art.len(), 1);
    assert_eq!(art[0].len(), 2);
}

#[test]
fn bytes_that_are_not_an_image_give_no_art() {
    assert!(AlbumArtGenerator::generate_ascii_art(b"not an image", 10).is_none());
}

#[test]
fn new_cover_asks_for_a_drawing() {
    let mut state = AlbumArtState::new();
    let request = state.try_update_by_src("http://cover/1".to_string()).unwrap();
    assert_eq!(request.remote, "http://cover/1");
    assert_eq!(request.width, 50);
    assert!(state.try_update_by_src("http://cover/1".to_string()).is_none());
    let request = state.try_update_by_src("http://cover/2".to_string()).unwrap();
    assert_eq!(request.remote, "http://cover/2");
}

#[test]
fn new_width_redraws_a_known_cover_only() {
    let mut state = AlbumArtState::new();
    assert!(state.try_update_by_width(30).is_none());
    state.try_update_by_src("http://cover".to_string());
    assert!(state.try_update_by_width(30).is_none());
    let request = state.try_update_by_width(40).unwrap();
    assert_eq!(request.remote, "http://cover");
    assert_eq!(request.width, 40);
    let request = state.try_update_by_src("http://other".to_string()).unwrap();
    assert_eq!(request.width, 40);
}

#[test]
fn art_is_kept_and_handed_out() {
    let mut state = AlbumArtState::new();
    assert!(state.get_album_art().is_none());
    state.set_art(Some(vec![vec![rgb(1, 1, 1)]]));
    assert!(state.get_album_art() == Some(vec![vec![rgb(1, 1, 1)]]));
    state.set_art(None);
    assert!(state.get_album_art().is_none());
}
