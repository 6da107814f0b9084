use helloui_core::media::{
    image_mime_of_extension, media_address_body, media_local_path, video_mime_of_extension,
    can_encode, data_url, decode_data_url, edit_image_read_image_base64,
    generated_images_get_preview, generated_images_get_video_data, image_mime, media_request_path,
    media_response, media_url, perfect_pixel_read_image, served_mime, video_mime, FileRead,
    ImageReader,
};
use helloui_core::paths::Platform;

#[test]
fn data_url_encodes_with_standard_base64() {
    assert_eq!(data_url("image/png", b"hello"), "data:image/png;base64,aGVsbG8=");
    assert_eq!(data_url("image/png", b""), "data:image/png;base64,");
    assert_eq!(data_url("image/jpeg", &[0xfb, 0xff, 0xfe]), "data:image/jpeg;base64,+//+");
    assert_eq!(data_url("x/y", b"ab"), "data:x/y;base64,YWI=");
    assert_eq!(data_url("x/y", b"a"), "data:x/y;base64,YQ==");
}

#[test]
fn every_real_length_can_be_encoded() {
    assert!(can_encode(0));
    assert!(can_encode(1 << 30));
    assert!(can_encode(usize::MAX / 2));
    assert!(!can_encode(usize::MAX));
}

#[test]
fn image_media_types_by_reader() {
    assert_eq!(image_mime(ImageReader::Editor, "/a/b.JPG"), "image/jpeg");
    assert_eq!(image_mime(ImageReader::Editor, "/a/b.jpeg"), "image/jpeg");
    assert_eq!(image_mime(ImageReader::Editor, "/a/b.png"), "image/png");
    assert_eq!(image_mime(ImageReader::Editor, "/a/b.webp"), "image/webp");
    assert_eq!(image_mime(ImageReader::Editor, "/a/b.gif"), "image/gif");
    assert_eq!(image_mime(ImageReader::Editor, "/a/b.bmp"), "image/bmp");
    assert_eq!(image_mime(ImageReader::Editor, "/a/b.tiff"), "image/png");
    assert_eq!(image_mime(ImageReader::Editor, "/a/b"), "image/png");
    assert_eq!(image_mime(ImageReader::PerfectPixel, "/a/b.gif"), "image/png");
    assert_eq!(image_mime(ImageReader::PerfectPixel, "/a/b.bmp"), "image/bmp");
    assert_eq!(image_mime(ImageReader::Gallery, "/a/b.gif"), "image/png");
    assert_eq!(image_mime(ImageReader::Gallery, "/a/b.bmp"), "image/png");
    assert_eq!(image_mime(ImageReader::Gallery, "/a/b.WebP"), "image/webp");
}

#[test]
fn video_media_types() {
    assert_eq!(video_mime("/v/a.mp4"), "video/mp4");
    assert_eq!(video_mime("/v/a.AVI"), "video/avi");
    assert_eq!(video_mime("/v/a.webm"), "video/webm");
    assert_eq!(video_mime("/v/a.mkv"), "video/mp4");
    assert_eq!(video_mime("/v/a"), "video/mp4");
}

#[test]
fn the_editor_reads_an_image() {
    let read = FileRead::Data { bytes: b"hello".to_vec() };
    assert_eq!(
        edit_image_read_image_base64("/p/x.gif", read),
        Ok("data:image/gif;base64,aGVsbG8=".to_string())
    );
    assert_eq!(
        edit_image_read_image_base64("/p/x.gif", FileRead::Missing),
        Err("File not found: /p/x.gif".to_string())
    );
    assert_eq!(
        edit_image_read_image_base64("/p/x.gif", FileRead::Failed { reason: "denied".to_string() }),
        Err("denied".to_string())
    );
}

#[test]
fn the_pixel_tool_and_the_gallery_read_an_image() {
    let read = FileRead::Data { bytes: b"hello".to_vec() };
    assert_eq!(
        perfect_pixel_read_image("/p/x.bmp", read),
        Ok("data:image/bmp;base64,aGVsbG8=".to_string())
    );
    assert_eq!(
        perfect_pixel_read_image("/p/x.bmp", FileRead::Missing),
        Err("File not found".to_string())
    );
    let read = FileRead::Data { bytes: b"hello".to_vec() };
    assert_eq!(
        generated_images_get_preview("/p/x.jpg", read),
        Ok("data:image/jpeg;base64,aGVsbG8=".to_string())
    );
    assert_eq!(
        generated_images_get_preview("/p/x.jpg", FileRead::Missing),
        Err("File not found".to_string())
    );
}

#[test]
fn video_data_carries_bytes_and_type() {
    let got = generated_images_get_video_data("/v/a.avi", FileRead::Data { bytes: vec![1, 2, 3] })
        .unwrap();
    assert_eq!(got.data, vec![1, 2, 3]);
    assert_eq!(got.mime_type, "video/avi");
    assert_eq!(
        generated_images_get_video_data("/v/a.avi", FileRead::Missing).unwrap_err(),
        "File not found"
    );
    assert_eq!(
        generated_images_get_video_data("/v/a.avi", FileRead::Failed { reason: "io".to_string() })
            .unwrap_err(),
        "io"
    );
}

#[test]
fn a_data_url_is_taken_apart() {
    let img = decode_data_url("data:image/jpeg;base64,aGVsbG8=").unwrap();
    assert_eq!(img.data, b"hello".to_vec());
    assert_eq!(img.extension, "jpg");
    assert_eq!(img.file_name, "perfect-pixel.jpg");
    let img = decode_data_url("data:image/jpg;base64,aGVsbG8=").unwrap();
    assert_eq!(img.extension, "jpg");
    let img = decode_data_url("data:image/webp;base64,").unwrap();
    assert_eq!(img.extension, "webp");
    assert!(img.data.is_empty());
    let img = decode_data_url("data:image/png;base64,YQ==").unwrap();
    assert_eq!(img.extension, "png");
    assert_eq!(img.file_name, "perfect-pixel.png");
    assert_eq!(img.data, b"a".to_vec());
}

#[test]
fn a_data_url_without_comma_loses_its_first_character() {
    let img = decode_data_url("xaGVsbG8=").unwrap();
    assert_eq!(img.data, b"hello".to_vec());
    assert_eq!(img.extension, "png");
    assert!(decode_data_url("").unwrap().data.is_empty());
}

#[test]
fn a_payload_that_is_no_base64_is_refused() {
    assert!(decode_data_url("data:image/png;base64,@@@").is_err());
    assert!(decode_data_url("data:image/png;base64,aGVsbG8").is_err());
    assert!(!decode_data_url("data:image/png;base64,!").unwrap_err().is_empty());
}

#[test]
fn media_url_percent_encodes_the_path() {
    assert_eq!(media_url("/out/generated_1.mp4"), "media://%2Fout%2Fgenerated_1.mp4");
    assert_eq!(media_url("abc-XYZ_0.9~"), "media://abc-XYZ_0.9~");
    assert_eq!(
        media_url("C:\\out put\\généré.mp4"),
        "media://C%3A%5Cout%20put%5Cg%C3%A9n%C3%A9r%C3%A9.mp4"
    );
    assert_eq!(media_url(""), "media://");
    assert_eq!(media_url("a+b%"), "media://a%2Bb%25");
}

#[test]
fn a_media_request_is_decoded() {
    assert_eq!(
        media_request_path("media://%2Fout%2Fgenerated_1.mp4", Platform::Linux),
        "/out/generated_1.mp4"
    );
    assert_eq!(
        media_request_path("media://%2FC%3A%5Cout%5Ca%20b.png", Platform::Windows),
        "C:\\out\\a b.png"
    );
    assert_eq!(
        media_request_path("media://%2FC%3A%5Cout%5Ca%20b.png", Platform::Linux),
        "/C:\\out\\a b.png"
    );
    assert_eq!(media_request_path("media://plain/path", Platform::MacOs), "plain/path");
    assert_eq!(media_request_path("http://other", Platform::Linux), "");
    assert_eq!(media_request_path("media://", Platform::Windows), "");
    // bytes that are not UTF-8 once decoded: the raw text stands
    assert_eq!(media_request_path("media://%FF", Platform::Linux), "%FF");
    assert_eq!(media_request_path("media://a+b", Platform::Linux), "a+b");
}

#[test]
fn encoding_and_decoding_round_trip() {
    for path in ["/out/a b.mp4", "/données/été.png", "C:\\x\\y.avi", "100%.webp"] {
        assert_eq!(media_request_path(&media_url(path), Platform::Linux), path);
    }
}

#[test]
fn served_media_types() {
    assert_eq!(served_mime("/a/b.mp4"), "video/mp4");
    assert_eq!(served_mime("/a/b.avi"), "video/avi");
    assert_eq!(served_mime("/a/b.png"), "image/png");
    assert_eq!(served_mime("/a/b.jpg"), "image/jpeg");
    assert_eq!(served_mime("/a/b.jpeg"), "image/jpeg");
    assert_eq!(served_mime("/a/b.webp"), "image/webp");
    assert_eq!(served_mime("/a/b.PNG"), "application/octet-stream");
    assert_eq!(served_mime("/a/b.json"), "application/octet-stream");
    assert_eq!(served_mime(""), "application/octet-stream");
}

#[test]
fn media_responses() {
    let ok = media_response("/a/b.png", Ok(vec![1, 2]));
    assert_eq!(ok.status, 200);
    assert_eq!(ok.content_type.as_deref(), Some("image/png"));
    assert!(ok.allow_any_origin);
    assert_eq!(ok.body, vec![1, 2]);
    let missing = media_response("/a/b.png", Err("No such file".to_string()));
    assert_eq!(missing.status, 404);
    assert!(missing.content_type.is_none());
    assert!(!missing.allow_any_origin);
    assert_eq!(missing.body, b"File not found: No such file".to_vec());
}

#[test]
fn an_extension_in_small_letters_tells_the_media_type() {
    assert_eq!(image_mime_of_extension(ImageReader::Editor, "gif"), "image/gif");
    assert_eq!(image_mime_of_extension(ImageReader::Gallery, "gif"), "image/png");
    assert_eq!(image_mime_of_extension(ImageReader::Editor, "JPG"), "image/png");
    assert_eq!(video_mime_of_extension("webm"), "video/webm");
    assert_eq!(video_mime_of_extension("AVI"), "video/mp4");
}

#[test]
fn the_body_of_an_address_and_its_local_path() {
    assert_eq!(media_address_body("media://%2Fout%2Fa.png"), "%2Fout%2Fa.png");
    assert_eq!(media_address_body("file:///x"), "");
    assert_eq!(media_address_body("media:/"), "");
    let body = "%2Fx".to_string();
    assert_eq!(media_local_path(body.clone(), Some("/x".to_string()), Platform::Linux), "/x");
    assert_eq!(media_local_path(body.clone(), Some("/x".to_string()), Platform::Windows), "x");
    assert_eq!(media_local_path(body.clone(), None, Platform::Windows), "%2Fx");
    assert_eq!(media_local_path("/raw".to_string(), None, Platform::Windows), "raw");
    assert_eq!(media_local_path(String::new(), Some(String::new()), Platform::Windows), "");
}
