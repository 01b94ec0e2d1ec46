use scb::format::{infer, recognize, ImageFormat};

#[test]
fn identifier_is_the_name_the_codec_knows() {
    assert_eq!(ImageFormat::Png.identifier(), "png");
    assert_eq!(ImageFormat::Jpeg.identifier(), "jpeg");
}

#[test]
fn recognize_png() {
    assert_eq!(recognize("png"), Some(ImageFormat::Png));
    assert_eq!(recognize("PNG"), Some(ImageFormat::Png));
    assert_eq!(recognize("Png"), Some(ImageFormat::Png));
}

#[test]
fn recognize_jpeg_under_both_spellings() {
    assert_eq!(recognize("jpg"), Some(ImageFormat::Jpeg));
    assert_eq!(recognize("jpeg"), Some(ImageFormat::Jpeg));
    assert_eq!(recognize("JPG"), Some(ImageFormat::Jpeg));
    assert_eq!(recognize("JPEG"), Some(ImageFormat::Jpeg));
    assert_eq!(recognize("JpEg"), Some(ImageFormat::Jpeg));
}

#[test]
fn recognize_nothing_else() {
    assert_eq!(recognize(""), None);
    assert_eq!(recognize("bmp"), None);
    assert_eq!(recognize("gif"), None);
    assert_eq!(recognize("txt"), None);
    assert_eq!(recognize("jpe"), None);
    assert_eq!(recognize("jpegs"), None);
    assert_eq!(recognize("pngx"), None);
    assert_eq!(recognize(" png"), None);
    assert_eq!(recognize("png "), None);
    assert_eq!(recognize("p.g"), None);
}

#[test]
fn infer_png_from_its_extension() {
    assert_eq!(infer("/home/user/clipboard_image.png"), ImageFormat::Png);
    assert_eq!(infer("shot.PNG"), ImageFormat::Png);
}

#[test]
fn infer_jpeg_from_jpg_and_jpeg() {
    assert_eq!(infer("/home/user/shot.jpg"), ImageFormat::Jpeg);
    assert_eq!(infer("/home/user/shot.jpeg"), ImageFormat::Jpeg);
    assert_eq!(infer("shot.JPG"), ImageFormat::Jpeg);
    assert_eq!(infer("shot.Jpeg"), ImageFormat::Jpeg);
    assert_eq!(infer("/tmp/a.png/shot.jpg"), ImageFormat::Jpeg);
    assert_eq!(infer("shot.png.jpg"), ImageFormat::Jpeg);
}

#[test]
fn infer_jpeg_is_never_written_as_png() {
    assert_ne!(infer("shot.jpg").identifier(), "png");
    assert_ne!(infer("shot.jpeg").identifier(), "png");
    assert_eq!(infer("shot.jpg").identifier(), "jpeg");
}

#[test]
fn infer_falls_back_to_png_without_extension() {
    assert_eq!(infer("/home/user/shot"), ImageFormat::Png);
    assert_eq!(infer("shot"), ImageFormat::Png);
    assert_eq!(infer(""), ImageFormat::Png);
    assert_eq!(infer("/"), ImageFormat::Png);
    assert_eq!(infer(".jpg"), ImageFormat::Png);
    assert_eq!(infer("/tmp/dir.jpg/shot"), ImageFormat::Png);
    assert_eq!(infer("/tmp/shot.jpg/.."), ImageFormat::Png);
}

#[test]
fn infer_falls_back_to_png_on_unrecognized_extension() {
    assert_eq!(infer("shot.bmp"), ImageFormat::Png);
    assert_eq!(infer("shot.gif"), ImageFormat::Png);
    assert_eq!(infer("shot.txt"), ImageFormat::Png);
    assert_eq!(infer("shot."), ImageFormat::Png);
    assert_eq!(infer("shot.jpg.bak"), ImageFormat::Png);
    assert_eq!(infer("shot.jpg "), ImageFormat::Png);
    assert_eq!(infer("shot.jpgx"), ImageFormat::Png);
}
