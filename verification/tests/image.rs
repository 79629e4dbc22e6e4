use shareshot::capture::locate_screenshot;
use shareshot::error::Error;
use shareshot::image::Image;

#[test]
fn read_guesses_the_media_type_from_the_extension() {
    let image = Image::read("/tmp/shot.png".to_string(), vec![1, 2, 3]);
    assert_eq!(image.path(), "/tmp/shot.png");
    assert_eq!(image.bytes(), &vec![1, 2, 3]);
    assert_eq!(image.mime_type(), "image/png");
    assert_eq!(Image::read("a.JPG".to_string(), vec![]).mime_type(), "image/jpeg");
    assert_eq!(Image::read("a.b.gif".to_string(), vec![]).mime_type(), "image/gif");
}

#[test]
fn read_falls_back_to_octet_stream() {
    for path in ["/tmp/shot", "", "/tmp/shot.", "/tmp/dir.png/shot", "shot.no-such-extension"] {
        assert_eq!(
            Image::read(path.to_string(), vec![0]).mime_type(),
            "application/octet-stream",
            "{path:?}"
        );
    }
}

#[test]
fn new_takes_the_media_type_it_is_given() {
    let image = Image::new("shot.png".to_string(), vec![1], Some("image/webp".to_string()));
    assert_eq!(image.path(), "shot.png");
    assert_eq!(image.bytes(), &vec![1]);
    assert_eq!(image.mime_type(), "image/webp");
    let unknown = Image::new("shot.png".to_string(), vec![], None);
    assert_eq!(unknown.mime_type(), "application/octet-stream");
    assert_eq!(unknown, Image::new("shot.png".to_string(), vec![], Some("application/octet-stream".to_string())));
}

#[test]
fn clone_of_an_image_is_equal() {
    let image = Image::read("x.png".to_string(), vec![9, 8]);
    assert_eq!(image.clone(), image);
}

#[test]
fn locate_screenshot_decodes_the_path_of_the_uri() {
    assert_eq!(
        locate_screenshot("file:///home/u/Pictures/Screenshot%20from%202024.png"),
        Ok("/home/u/Pictures/Screenshot from 2024.png".to_string())
    );
    assert_eq!(locate_screenshot("file:///tmp/%C3%A9.png"), Ok("/tmp/\u{e9}.png".to_string()));
    assert_eq!(locate_screenshot("file:///tmp/plain.png"), Ok("/tmp/plain.png".to_string()));
    assert_eq!(locate_screenshot("file:///tmp/a+b.png"), Ok("/tmp/a+b.png".to_string()));
    assert_eq!(
        locate_screenshot("file:///tmp/with space.png?x=1#frag"),
        Ok("/tmp/with space.png".to_string())
    );
    assert_eq!(locate_screenshot("file://host/tmp/shot.png"), Ok("/tmp/shot.png".to_string()));
}

#[test]
fn locate_screenshot_rejects_what_is_no_uri() {
    assert_eq!(locate_screenshot(""), Err(Error::UriCodec));
    assert_eq!(locate_screenshot("/tmp/shot.png"), Err(Error::UriCodec));
    assert_eq!(locate_screenshot("not a uri"), Err(Error::UriCodec));
}

#[test]
fn locate_screenshot_rejects_bytes_that_are_no_text() {
    assert_eq!(locate_screenshot("file:///tmp/%FF.png"), Err(Error::UriCodec));
    assert_eq!(locate_screenshot("file:///tmp/%C3"), Err(Error::UriCodec));
}
