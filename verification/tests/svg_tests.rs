use ralaire::view::svg::image_is_svg;
use ralaire::view::ImageView;

#[test]
fn svg_document_is_recognised() {
    let bytes = br#"<svg xmlns="http://www.w3.org/2000/svg" width="10" height="10"><rect width="5" height="5"/></svg>"#.to_vec();
    assert!(image_is_svg(&bytes));
    assert!(ImageView::new(bytes).is_svg());
}

#[test]
fn text_that_is_not_svg_is_rejected() {
    assert!(!image_is_svg(&b"hello".to_vec()));
    assert!(!image_is_svg(&b"<svg".to_vec()));
}

#[test]
fn bytes_that_are_not_utf8_are_rejected() {
    assert!(!image_is_svg(&vec![0xff, 0xfe, 0x3c]));
    assert!(!image_is_svg(&vec![0x89, b'P', b'N', b'G']));
}
