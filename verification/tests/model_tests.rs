use capture_client::pixel::Pixel;
use capture_client::sge::Sge;
use capture_client::window::Window;

#[test]
fn pixel_new_sets_components() {
    let p = Pixel::new(12, 200, 255);
    assert_eq!(p.r, 12);
    assert_eq!(p.g, 200);
    assert_eq!(p.b, 255);
}

#[test]
fn pixel_default_is_black() {
    let p = Pixel::default();
    assert_eq!(p, Pixel::new(0, 0, 0));
}

#[test]
fn window_new_keeps_title() {
    let w = Window::<16>::new("test Window".to_string());
    assert_eq!(w.title, "test Window");
}

#[test]
fn sge_new_counts_pixels_and_keeps_token() {
    let mut buffer = vec![Pixel::new(1, 2, 3); 7];
    let sge = Sge::new(&mut buffer[2..6], 0xdead_beef);
    assert_eq!(sge.buffer_length, 4);
    assert_eq!(sge.memory_region_token, 0xdead_beef);
    assert_eq!(buffer, vec![Pixel::new(1, 2, 3); 7]);
}

#[test]
fn sge_new_empty_buffer() {
    let mut buffer: Vec<Pixel> = Vec::new();
    let sge = Sge::new(&mut buffer, 9);
    assert_eq!(sge.buffer_length, 0);
    assert_eq!(sge.memory_region_token, 9);
}
