use std::io::Cursor;

use image::{DynamicImage, GrayImage, ImageFormat, RgbImage};
use location_backend::media::{
    check_name, check_size, check_sniffed, content_type_for, file_extension, place_upload,
    requested_path, serve_image, storage_name, upload_image, upload_response, Lookup, Sniffed,
    StoredMedia, MAX_FILE_SIZE, MAX_HEIGHT, MAX_WIDTH,
};
use location_backend::status::Failure;

fn encoded(image: DynamicImage, format: ImageFormat) -> Vec<u8> {
    let mut buffer = Cursor::new(Vec::new());
    image.write_to(&mut buffer, format).unwrap();
    buffer.into_inner()
}

fn gray(width: u32, height: u32, format: ImageFormat) -> Vec<u8> {
    encoded(DynamicImage::ImageLuma8(GrayImage::new(width, height)), format)
}

fn rgb(width: u32, height: u32, format: ImageFormat) -> Vec<u8> {
    encoded(DynamicImage::ImageRgb8(RgbImage::new(width, height)), format)
}

fn sniffed(extension: &str, width: u32, height: u32) -> Option<Sniffed> {
    Some(Sniffed { extension: extension.to_string(), width, height })
}

fn is_hyphenated_id(id: &str) -> bool {
    id.len() == 36
        && id.char_indices().all(|(i, c)| match i {
            8 | 13 | 18 | 23 => c == '-',
            _ => matches!(c, '0'..='9' | 'a'..='f'),
        })
}

fn assert_stored_as(media: &StoredMedia, bytes: &[u8], extension: &str) {
    assert_eq!(media.byte_content, bytes);
    assert_eq!(media.detected_format, extension);
    let (id, rest) = media.storage_name.split_at(36);
    assert!(is_hyphenated_id(id), "{id:?}");
    assert_eq!(rest, format!(".{extension}"));
}

#[test]
fn ceilings_have_their_values() {
    assert_eq!(MAX_FILE_SIZE, 5_242_880);
    assert_eq!(MAX_WIDTH, 4096);
    assert_eq!(MAX_HEIGHT, 4096);
}

#[test]
fn missing_field_is_a_bad_request() {
    let error = upload_image(None).unwrap_err();
    assert_eq!(error, Failure::BadRequest);
    assert_eq!(error.status_code(), 400);
}

#[test]
fn one_byte_over_the_ceiling_is_too_large() {
    let payload = vec![0_u8; 5 * 1024 * 1024 + 1];
    let error = upload_image(Some(payload)).unwrap_err();
    assert_eq!(error, Failure::PayloadTooLarge);
    assert_eq!(error.status_code(), 413);
}

#[test]
fn oversized_image_is_too_large_not_accepted() {
    // A real image followed by padding: it would decode, but it is never looked at.
    let mut payload = gray(8, 8, ImageFormat::Png);
    payload.resize(5 * 1024 * 1024 + 1, 0);
    assert_eq!(upload_image(Some(payload)).unwrap_err(), Failure::PayloadTooLarge);
}

#[test]
fn image_of_one_byte_under_the_ceiling_is_stored() {
    let mut payload = gray(8, 8, ImageFormat::Png);
    payload.resize(5 * 1024 * 1024 - 1, 0);
    let media = upload_image(Some(payload.clone())).unwrap();
    assert_stored_as(&media, &payload, "png");
}

#[test]
fn payload_of_exactly_the_ceiling_is_looked_at() {
    let mut payload = gray(8, 8, ImageFormat::Png);
    payload.resize(5 * 1024 * 1024, 0);
    assert!(upload_image(Some(payload)).is_ok());
    let garbage = vec![0_u8; 5 * 1024 * 1024];
    assert_eq!(upload_image(Some(garbage)).unwrap_err(), Failure::UnsupportedMediaType);
}

#[test]
fn bytes_that_are_no_image_are_unsupported() {
    for payload in [
        Vec::new(),
        b"hello world".to_vec(),
        b"<html><body>image/png</body></html>".to_vec(),
        b"Content-Type: image/png\r\n\r\n".to_vec(),
        vec![0_u8; 1024],
    ] {
        let error = upload_image(Some(payload)).unwrap_err();
        assert_eq!(error, Failure::UnsupportedMediaType);
        assert_eq!(error.status_code(), 415);
    }
}

#[test]
fn image_header_without_an_image_is_unsupported() {
    // The leading bytes of a PNG, and nothing that decodes after them.
    let mut truncated = gray(8, 8, ImageFormat::Png);
    truncated.truncate(20);
    assert_eq!(upload_image(Some(truncated)).unwrap_err(), Failure::UnsupportedMediaType);
    let magic_only = vec![0x89, b'P', b'N', b'G', 0x0d, 0x0a, 0x1a, 0x0a];
    assert_eq!(upload_image(Some(magic_only)).unwrap_err(), Failure::UnsupportedMediaType);
}

#[test]
fn extension_is_that_of_the_format_found() {
    for (format, extension) in [
        (ImageFormat::Png, "png"),
        (ImageFormat::Jpeg, "jpg"),
        (ImageFormat::Gif, "gif"),
        (ImageFormat::WebP, "webp"),
        (ImageFormat::Bmp, "bmp"),
    ] {
        let payload = rgb(3, 2, format);
        let media = upload_image(Some(payload.clone())).unwrap();
        assert_stored_as(&media, &payload, extension);
    }
}

#[test]
fn image_wider_than_the_ceiling_is_a_bad_request() {
    let error = upload_image(Some(gray(4097, 10, ImageFormat::Png))).unwrap_err();
    assert_eq!(error, Failure::BadRequest);
    assert_eq!(error.status_code(), 400);
}

#[test]
fn image_higher_than_the_ceiling_is_a_bad_request() {
    let error = upload_image(Some(gray(10, 4097, ImageFormat::Png))).unwrap_err();
    assert_eq!(error, Failure::BadRequest);
}

#[test]
fn image_at_the_ceiling_is_stored() {
    let payload = gray(4096, 4096, ImageFormat::Png);
    assert!(payload.len() <= MAX_FILE_SIZE);
    let media = upload_image(Some(payload.clone())).unwrap();
    assert_stored_as(&media, &payload, "png");
}

#[test]
fn each_upload_gets_a_name_of_its_own() {
    let payload = gray(2, 2, ImageFormat::Png);
    let first = upload_image(Some(payload.clone())).unwrap();
    let second = upload_image(Some(payload)).unwrap();
    assert_ne!(first.storage_name, second.storage_name);
    assert_eq!(first.byte_content, second.byte_content);
}

#[test]
fn stored_name_is_accepted_and_served_with_its_type() {
    for (format, content_type) in [
        (ImageFormat::Png, "image/png"),
        (ImageFormat::Jpeg, "image/jpeg"),
        (ImageFormat::Gif, "image/gif"),
        (ImageFormat::WebP, "image/webp"),
        (ImageFormat::Bmp, "application/octet-stream"),
    ] {
        let payload = rgb(4, 4, format);
        let media = upload_image(Some(payload.clone())).unwrap();
        assert_eq!(check_name(&media.storage_name), Ok(()));
        let served =
            serve_image(&media.storage_name, Lookup::Found(media.byte_content.clone())).unwrap();
        assert_eq!(served.content_type, content_type);
        assert_eq!(served.body, payload);
    }
}

#[test]
fn size_check_alone() {
    assert_eq!(check_size(0), Ok(()));
    assert_eq!(check_size(5_242_879), Ok(()));
    assert_eq!(check_size(5_242_880), Ok(()));
    assert_eq!(check_size(5_242_881), Err(Failure::PayloadTooLarge));
    assert_eq!(check_size(usize::MAX), Err(Failure::PayloadTooLarge));
}

#[test]
fn dimension_check_alone() {
    assert_eq!(check_sniffed(None).unwrap_err(), Failure::UnsupportedMediaType);
    assert_eq!(check_sniffed(sniffed("png", 4097, 10)).unwrap_err(), Failure::BadRequest);
    assert_eq!(check_sniffed(sniffed("png", 10, 4097)).unwrap_err(), Failure::BadRequest);
    assert_eq!(check_sniffed(sniffed("png", u32::MAX, u32::MAX)).unwrap_err(), Failure::BadRequest);
    let kept = check_sniffed(sniffed("png", 4096, 4096)).unwrap();
    assert_eq!((kept.extension.as_str(), kept.width, kept.height), ("png", 4096, 4096));
    assert!(check_sniffed(sniffed("gif", 0, 0)).is_ok());
    assert!(check_sniffed(sniffed("gif", 1, 4096)).is_ok());
}

#[test]
fn placing_an_upload_from_given_values() {
    let id = "123e4567-e89b-42d3-a456-426614174000";
    let media = place_upload(vec![1, 2, 3], sniffed("webp", 4096, 1), id).unwrap();
    assert_eq!(media.storage_name, "123e4567-e89b-42d3-a456-426614174000.webp");
    assert_eq!(media.detected_format, "webp");
    assert_eq!(media.byte_content, vec![1, 2, 3]);
    assert_eq!(
        place_upload(vec![1, 2, 3], None, id).unwrap_err(),
        Failure::UnsupportedMediaType
    );
    assert_eq!(
        place_upload(vec![1, 2, 3], sniffed("png", 4097, 10), id).unwrap_err(),
        Failure::BadRequest
    );
    // The size is judged first, whatever was found in the bytes.
    let large = vec![0_u8; MAX_FILE_SIZE + 1];
    assert_eq!(
        place_upload(large.clone(), sniffed("png", 1, 1), id).unwrap_err(),
        Failure::PayloadTooLarge
    );
    assert_eq!(
        place_upload(large.clone(), sniffed("png", 9999, 9999), id).unwrap_err(),
        Failure::PayloadTooLarge
    );
    assert_eq!(place_upload(large, None, id).unwrap_err(), Failure::PayloadTooLarge);
    assert!(place_upload(vec![0_u8; MAX_FILE_SIZE], sniffed("png", 1, 1), id).is_ok());
}

#[test]
fn storage_name_joins_id_and_extension() {
    assert_eq!(storage_name("abc", "png"), "abc.png");
    assert_eq!(storage_name("", ""), ".");
    assert_eq!(storage_name("id", "jpg"), "id.jpg");
}

#[test]
fn response_names_the_url_of_the_stored_object() {
    let media = place_upload(vec![7], sniffed("png", 1, 1), "some-id").unwrap();
    let response = upload_response(&media, true).unwrap();
    assert_eq!(response.image_url, "/uploads/some-id.png");
    let error = upload_response(&media, false).unwrap_err();
    assert_eq!(error, Failure::InternalError);
    assert_eq!(error.status_code(), 500);
}

#[test]
fn traversal_attempts_are_bad_requests() {
    for name in [
        "../../etc/passwd",
        "a/b.png",
        "..",
        "a..b",
        "..png",
        "x.png..",
        "/",
        "/etc/passwd",
        "a\\b.png",
        "\\",
        "..\\..\\boot.ini",
        "..%2F..%2Fetc%2Fpasswd",
        "uploads/x.png",
        "a/",
    ] {
        assert_eq!(check_name(name), Err(Failure::BadRequest), "{name:?}");
        assert_eq!(requested_path(name), Err(Failure::BadRequest), "{name:?}");
        // Whatever the storage holds, the answer is the same.
        for lookup in [Lookup::Missing, Lookup::Unreadable, Lookup::Found(vec![1, 2, 3])] {
            let error = serve_image(name, lookup).unwrap_err();
            assert_eq!(error, Failure::BadRequest, "{name:?}");
            assert_eq!(error.status_code(), 400);
        }
    }
}

#[test]
fn plain_names_pass_the_name_check() {
    for name in [
        "x.png",
        "123e4567-e89b-42d3-a456-426614174000.jpg",
        "",
        ".",
        ".hidden",
        "a.b.c",
        "no-extension",
        "sp ace.png",
        "\u{00e9}\u{1F600}.gif",
        ". .",
        "%2e%2e",
    ] {
        assert_eq!(check_name(name), Ok(()), "{name:?}");
        assert_eq!(requested_path(name), Ok(format!("uploads/{name}")), "{name:?}");
    }
}

#[test]
fn missing_object_is_not_found() {
    let error = serve_image("x.png", Lookup::Missing).unwrap_err();
    assert_eq!(error, Failure::NotFound);
    assert_eq!(error.status_code(), 404);
}

#[test]
fn unreadable_object_is_an_internal_error() {
    let error = serve_image("x.png", Lookup::Unreadable).unwrap_err();
    assert_eq!(error, Failure::InternalError);
    assert_eq!(error.status_code(), 500);
}

#[test]
fn found_object_is_served_as_it_is() {
    let served = serve_image("x.png", Lookup::Found(vec![1, 2, 3])).unwrap();
    assert_eq!(served.content_type, "image/png");
    assert_eq!(served.body, vec![1, 2, 3]);
    let empty = serve_image("x.gif", Lookup::Found(Vec::new())).unwrap();
    assert_eq!(empty.content_type, "image/gif");
    assert!(empty.body.is_empty());
}

#[test]
fn retrieval_is_repeatable() {
    let content = gray(5, 5, ImageFormat::Png);
    let first = serve_image("stored.png", Lookup::Found(content.clone())).unwrap();
    let second = serve_image("stored.png", Lookup::Found(content.clone())).unwrap();
    assert_eq!(first.body, second.body);
    assert_eq!(first.body, content);
    assert_eq!(first.content_type, second.content_type);
}

#[test]
fn content_type_follows_the_extension() {
    for (name, content_type) in [
        ("a.jpg", "image/jpeg"),
        ("a.jpeg", "image/jpeg"),
        ("a.png", "image/png"),
        ("a.gif", "image/gif"),
        ("a.webp", "image/webp"),
        ("a.bmp", "application/octet-stream"),
        ("a.PNG", "application/octet-stream"),
        ("a.Jpg", "application/octet-stream"),
        ("a.png ", "application/octet-stream"),
        ("a.pngx", "application/octet-stream"),
        ("a.pn", "application/octet-stream"),
        ("a.", "application/octet-stream"),
        ("a", "application/octet-stream"),
        ("png", "application/octet-stream"),
        (".png", "application/octet-stream"),
        ("", "application/octet-stream"),
        (".", "application/octet-stream"),
        ("a.gif.png", "image/png"),
        ("a.png.txt", "application/octet-stream"),
        ("x.y.jpeg", "image/jpeg"),
        ("\u{00e9}.webp", "image/webp"),
    ] {
        assert_eq!(content_type_for(name), content_type, "{name:?}");
    }
}

#[test]
fn extension_is_what_follows_the_last_dot() {
    assert_eq!(file_extension("a.png"), Some("png"));
    assert_eq!(file_extension("a.b.c"), Some("c"));
    assert_eq!(file_extension("a."), Some(""));
    assert_eq!(file_extension("a"), None);
    assert_eq!(file_extension(""), None);
    assert_eq!(file_extension(".png"), None);
    assert_eq!(file_extension("."), None);
    assert_eq!(file_extension("..png"), Some("png"));
    assert_eq!(file_extension("\u{1F600}.\u{00e9}"), Some("\u{00e9}"));
}
