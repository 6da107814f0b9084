//! Media types, data URLs and the addresses under which generated files are
//! served to the interface.

use vstd::prelude::*;
use vstd::string::StringExecFns;
use vstd::utf8::encode_utf8;
use crate::paths::{extension, path_extension, Platform};
use crate::text::{
    begins_with, chars_of, appended, find_chars, finishes_with, ends_with, lowercase,
    occurs_at, same_text, slice_of, starts_with, string_of, unicode_lowercased,
};

verus! {

/// Declares `base64::DecodeError`. Nothing inside it is visible.
#[verifier::external_type_specification]
#[verifier::external_body]
pub struct ExDecodeError(base64::DecodeError);

/// The standard base64 text of a run of bytes, with padding, as the `STANDARD`
/// engine of `base64` writes it.
pub uninterp spec fn base64_text(bytes: Seq<u8>) -> Seq<char>;

/// The bytes that a standard base64 text stands for, where it is well formed,
/// as the `STANDARD` engine of `base64` reads it.
pub uninterp spec fn base64_bytes(text: Seq<char>) -> Option<Seq<u8>>;

/// The text that a percent-encoded text stands for, where its bytes are UTF-8,
/// as `urlencoding::decode` reads it.
pub uninterp spec fn percent_decoded(text: Seq<char>) -> Option<Seq<char>>;

/// Whether the base64 text of `len` bytes has a length that fits in `usize`.
pub open spec fn encodable(len: nat) -> bool {
    len / 3 * 4 + 4 <= usize::MAX
}

/// Calls `Engine::encode` on `base64::engine::general_purpose::STANDARD`. The
/// result is named, not described. The call fails where the length of the
/// text would not fit in `usize`.
#[verifier::external_body]
fn encode_base64(data: &[u8]) -> (r: String)
    requires
        encodable(data@.len()),
    ensures
        r@ == base64_text(data@),
{
    base64::Engine::encode(&base64::engine::general_purpose::STANDARD, data)
}

/// Calls `Engine::decode` on `base64::engine::general_purpose::STANDARD`. The
/// bytes are named, not described; of the error nothing is claimed.
#[verifier::external_body]
fn decode_base64(text: &str) -> (r: Result<Vec<u8>, base64::DecodeError>)
    ensures
        r is Ok <==> base64_bytes(text@) is Some,
        r is Ok ==> r->Ok_0@ == base64_bytes(text@)->0,
{
    base64::Engine::decode(&base64::engine::general_purpose::STANDARD, text)
}

/// The message of a `base64::DecodeError`, as its `Display` writes it.
#[verifier::external_body]
fn decode_error_text(e: &base64::DecodeError) -> (r: String) {
    e.to_string()
}

pub open spec fn is_unreserved(b: u8) -> bool {
    (0x30 <= b && b <= 0x39) || (0x41 <= b && b <= 0x5A) || (0x61 <= b && b <= 0x7A) || b == 0x2D
        || b == 0x2E || b == 0x5F || b == 0x7E
}

pub open spec fn hex_digit(d: int) -> char {
    if d < 10 {
        (0x30 + d) as char
    } else {
        (0x41 + d - 10) as char
    }
}

/// Percent-encoding: letters, digits and `-`, `.`, `_`, `~` stay as they are;
/// every other byte becomes `%` and its two capital hex digits.
pub open spec fn percent_encoded(bytes: Seq<u8>) -> Seq<char>
    decreases bytes.len(),
{
    if bytes.len() == 0 {
        Seq::empty()
    } else {
        (if is_unreserved(bytes[0]) {
            seq![bytes[0] as char]
        } else {
            seq!['%', hex_digit(bytes[0] as int / 16), hex_digit(bytes[0] as int % 16)]
        }) + percent_encoded(bytes.skip(1))
    }
}

/// Calls `urlencoding::encode`, which percent-encodes the UTF-8 bytes of the
/// text, all but ASCII letters, digits and `-`, `.`, `_`, `~`.
#[verifier::external_body]
fn percent_encode(text: &str) -> (r: String)
    ensures
        r@ == percent_encoded(encode_utf8(text@)),
{
    urlencoding::encode(text).into_owned()
}

/// Calls `urlencoding::decode`. The result is named, not described.
#[verifier::external_body]
fn percent_decode(text: &str) -> (r: Option<String>)
    ensures
        r is Some <==> percent_decoded(text@) is Some,
        r is Some ==> r->0@ == percent_decoded(text@)->0,
{
    match urlencoding::decode(text) {
        Ok(c) => Some(c.into_owned()),
        Err(_) => None,
    }
}

/// Whether `len` bytes can be encoded.
pub fn can_encode(len: usize) -> (r: bool)
    ensures
        r == encodable(len as nat),
{
    len / 3 <= (usize::MAX - 4) / 4
}

/// A data URL: `data:`, the media type, `;base64,` and the base64 text.
pub open spec fn data_url_text(mime: Seq<char>, data: Seq<u8>) -> Seq<char> {
    "data:"@ + mime + ";base64,"@ + base64_text(data)
}

pub fn data_url(mime: &str, data: &[u8]) -> (r: String)
    requires
        encodable(data@.len()),
    ensures
        r@ == data_url_text(mime@, data@),
{
    let mut out = String::new();
    out.append("data:");
    out.append(mime);
    out.append(";base64,");
    let encoded = encode_base64(data);
    out.append(encoded.as_str());
    assert(out@ =~= data_url_text(mime@, data@));
    out
}

/// The extension that decides the media type: that of the path, or `fallback`
/// where it has none, in small letters.
pub open spec fn deciding_extension(path: Seq<char>, fallback: Seq<char>) -> Seq<char> {
    unicode_lowercased(
        match path_extension(path) {
            Some(e) => e,
            None => fallback,
        },
    )
}

fn lowered_extension(path: &str, fallback: &str) -> (r: String)
    ensures
        r@ == deciding_extension(path@, fallback@),
{
    match extension(path) {
        Some(e) => lowercase(e.as_str()),
        None => lowercase(fallback),
    }
}

/// Which images a reader takes for what they are; all others pass as PNG.
#[derive(Clone, Copy, Debug, PartialEq, Eq, Structural)]
pub enum ImageReader {
    /// The image editor: JPEG, PNG, WebP, GIF, BMP.
    Editor,
    /// The pixel tool: JPEG, PNG, WebP, BMP.
    PerfectPixel,
    /// The gallery: JPEG, PNG, WebP.
    Gallery,
}

pub open spec fn image_mime_of(reader: ImageReader, ext: Seq<char>) -> Seq<char> {
    if ext == "jpg"@ || ext == "jpeg"@ {
        "image/jpeg"@
    } else if ext == "webp"@ {
        "image/webp"@
    } else if ext == "gif"@ && reader == ImageReader::Editor {
        "image/gif"@
    } else if ext == "bmp"@ && reader != ImageReader::Gallery {
        "image/bmp"@
    } else {
        "image/png"@
    }
}

pub open spec fn video_mime_of(ext: Seq<char>) -> Seq<char> {
    if ext == "avi"@ {
        "video/avi"@
    } else if ext == "webm"@ {
        "video/webm"@
    } else {
        "video/mp4"@
    }
}

/// The media type that an extension in small letters stands for with a
/// reader of images.
pub fn image_mime_of_extension(reader: ImageReader, ext: &str) -> (r: String)
    ensures
        r@ == image_mime_of(reader, ext@),
{
    if same_text(ext, "jpg") || same_text(ext, "jpeg") {
        "image/jpeg".to_string()
    } else if same_text(ext, "webp") {
        "image/webp".to_string()
    } else if same_text(ext, "gif") && reader == ImageReader::Editor {
        "image/gif".to_string()
    } else if same_text(ext, "bmp") && reader != ImageReader::Gallery {
        "image/bmp".to_string()
    } else {
        "image/png".to_string()
    }
}

/// The media type that an extension in small letters stands for among
/// videos.
pub fn video_mime_of_extension(ext: &str) -> (r: String)
    ensures
        r@ == video_mime_of(ext@),
{
    if same_text(ext, "avi") {
        "video/avi".to_string()
    } else if same_text(ext, "webm") {
        "video/webm".to_string()
    } else {
        "video/mp4".to_string()
    }
}

/// The media type of an image file, by its extension.
pub fn image_mime(reader: ImageReader, path: &str) -> (r: String)
    ensures
        r@ == image_mime_of(reader, deciding_extension(path@, "png"@)),
{
    let ext = lowered_extension(path, "png");
    image_mime_of_extension(reader, ext.as_str())
}

/// The media type of a video file, by its extension.
pub fn video_mime(path: &str) -> (r: String)
    ensures
        r@ == video_mime_of(deciding_extension(path@, "mp4"@)),
{
    let ext = lowered_extension(path, "mp4");
    video_mime_of_extension(ext.as_str())
}

/// What reading a file gave.
#[derive(Debug)]
pub enum FileRead {
    /// There is no such file.
    Missing,
    /// The file is there but could not be read.
    Failed { reason: String },
    Data { bytes: Vec<u8> },
}

pub open spec fn readable(read: FileRead) -> bool {
    read matches FileRead::Data { bytes } ==> encodable(bytes@.len())
}

/// What an image reader answers: the data URL of the file, or why not.
pub open spec fn image_answer(
    reader: ImageReader,
    path: Seq<char>,
    read: FileRead,
    missing: Seq<char>,
) -> Result<Seq<char>, Seq<char>> {
    match read {
        FileRead::Missing => Err(missing),
        FileRead::Failed { reason } => Err(reason@),
        FileRead::Data { bytes } => Ok(
            data_url_text(image_mime_of(reader, deciding_extension(path, "png"@)), bytes@),
        ),
    }
}

pub open spec fn answer_view(r: Result<String, String>) -> Result<Seq<char>, Seq<char>> {
    match r {
        Ok(s) => Ok(s@),
        Err(e) => Err(e@),
    }
}

fn read_image(reader: ImageReader, path: &str, read: FileRead, missing: String) -> (r: Result<
    String,
    String,
>)
    requires
        readable(read),
    ensures
        answer_view(r) == image_answer(reader, path@, read, missing@),
{
    match read {
        FileRead::Missing => Err(missing),
        FileRead::Failed { reason } => Err(reason),
        FileRead::Data { bytes } => {
            let mime = image_mime(reader, path);
            Ok(data_url(mime.as_str(), bytes.as_slice()))
        },
    }
}

/// The image editor's view of a file: its data URL, or `File not found: ` and
/// the path where it is missing.
pub fn edit_image_read_image_base64(value: &str, read: FileRead) -> (r: Result<String, String>)
    requires
        readable(read),
    ensures
        answer_view(r) == image_answer(
            ImageReader::Editor,
            value@,
            read,
            "File not found: "@ + value@,
        ),
{
    read_image(ImageReader::Editor, value, read, appended("File not found: ", value))
}

/// The pixel tool's view of a file.
pub fn perfect_pixel_read_image(value: &str, read: FileRead) -> (r: Result<String, String>)
    requires
        readable(read),
    ensures
        answer_view(r) == image_answer(
            ImageReader::PerfectPixel,
            value@,
            read,
            "File not found"@,
        ),
{
    read_image(ImageReader::PerfectPixel, value, read, "File not found".to_string())
}

/// The gallery's view of a file.
pub fn generated_images_get_preview(value: &str, read: FileRead) -> (r: Result<String, String>)
    requires
        readable(read),
    ensures
        answer_view(r) == image_answer(ImageReader::Gallery, value@, read, "File not found"@),
{
    read_image(ImageReader::Gallery, value, read, "File not found".to_string())
}

/// A video file handed to the interface as bytes with their media type.
#[derive(Debug)]
pub struct VideoData {
    pub data: Vec<u8>,
    pub mime_type: String,
}

/// The bytes of a video file with its media type, or why not.
pub fn generated_images_get_video_data(value: &str, read: FileRead) -> (r: Result<
    VideoData,
    String,
>)
    ensures
        match read {
            FileRead::Missing => r is Err && r->Err_0@ == "File not found"@,
            FileRead::Failed { reason } => r is Err && r->Err_0@ == reason@,
            FileRead::Data { bytes } => r is Ok && r->Ok_0.data@ == bytes@ && r->Ok_0.mime_type@
                == video_mime_of(deciding_extension(value@, "mp4"@)),
        },
{
    match read {
        FileRead::Missing => Err("File not found".to_string()),
        FileRead::Failed { reason } => Err(reason),
        FileRead::Data { bytes } => Ok(VideoData { data: bytes, mime_type: video_mime(value) }),
    }
}

/// The part of a data URL that holds the data: what follows the first comma,
/// or what follows the first character where there is no comma.
pub open spec fn payload_of(value: Seq<char>) -> Seq<char> {
    if exists|i: int| occurs_at(value, seq![','], i) {
        let i = choose|i: int|
            occurs_at(value, seq![','], i) && forall|j: int|
                0 <= j < i ==> !occurs_at(value, seq![','], j);
        value.skip(i + 1)
    } else if value.len() > 0 {
        value.skip(1)
    } else {
        value
    }
}

/// The file extension under which a data URL is saved.
pub open spec fn saved_extension(value: Seq<char>) -> Seq<char> {
    if begins_with(value, "data:image/jpeg"@) || begins_with(value, "data:image/jpg"@) {
        "jpg"@
    } else if begins_with(value, "data:image/webp"@) {
        "webp"@
    } else {
        "png"@
    }
}

/// An image taken out of a data URL, ready to be saved.
#[derive(Debug)]
pub struct DecodedImage {
    pub extension: String,
    pub file_name: String,
    pub data: Vec<u8>,
}

/// Takes a data URL apart: the bytes it carries, the extension its media type
/// asks for and the file name proposed for it. It fails exactly where the
/// payload is no base64 text.
pub fn decode_data_url(value: &str) -> (r: Result<DecodedImage, String>)
    ensures
        r is Ok <==> base64_bytes(payload_of(value@)) is Some,
        r is Ok ==> {
            &&& r->Ok_0.data@ == base64_bytes(payload_of(value@))->0
            &&& r->Ok_0.extension@ == saved_extension(value@)
            &&& r->Ok_0.file_name@ == "perfect-pixel."@ + saved_extension(value@)
        },
{
    let chars = chars_of(value);
    let comma: Vec<char> = vec![','];
    assert(comma@ =~= seq![',']);
    let total: usize = chars.len();
    let start: usize = match find_chars(&chars, &comma) {
        Some(i) => {
            proof {
                let w = choose|w: int|
                    occurs_at(value@, seq![','], w) && forall|j: int|
                        0 <= j < w ==> !occurs_at(value@, seq![','], j);
                assert(w == i);
                assert(comma@.len() == 1);
                assert(i + 1 <= total);
            }
            i + 1
        },
        None => {
            if chars.len() > 0 {
                1
            } else {
                0
            }
        },
    };
    let payload_chars = slice_of(&chars, start, chars.len());
    let payload = string_of(&payload_chars);
    assert(payload@ =~= payload_of(value@));
    let ext = if starts_with(value, "data:image/jpeg") || starts_with(value, "data:image/jpg") {
        "jpg"
    } else if starts_with(value, "data:image/webp") {
        "webp"
    } else {
        "png"
    };
    match decode_base64(payload.as_str()) {
        Ok(data) => Ok(
            DecodedImage {
                extension: ext.to_string(),
                file_name: appended("perfect-pixel.", ext),
                data,
            },
        ),
        Err(e) => Err(decode_error_text(&e)),
    }
}

/// The address under which a local file is served: `media://` and the
/// percent-encoded path.
pub open spec fn media_url_text(path: Seq<char>) -> Seq<char> {
    "media://"@ + percent_encoded(encode_utf8(path))
}

pub fn media_url(path: &str) -> (r: String)
    ensures
        r@ == media_url_text(path@),
{
    let encoded = percent_encode(path);
    appended("media://", encoded.as_str())
}

/// What follows the scheme in a `media://` address; nothing, in an address
/// of another scheme.
pub open spec fn address_body(uri: Seq<char>) -> Seq<char> {
    if begins_with(uri, "media://"@) {
        uri.skip("media://"@.len() as int)
    } else {
        Seq::<char>::empty()
    }
}

/// The local path that the body of an address stands for, given what
/// decoding it gave: the decoded text, or the body itself where it could not
/// be decoded; on Windows without a leading slash.
pub open spec fn local_path(
    body: Seq<char>,
    decoded: Option<Seq<char>>,
    platform: Platform,
) -> Seq<char> {
    let path = match decoded {
        Some(p) => p,
        None => body,
    };
    if platform == Platform::Windows && path.len() > 0 && path[0] == '/' {
        path.skip(1)
    } else {
        path
    }
}

/// The local path that a `media://` address asks for: what follows the
/// scheme, percent-decoded where that can be done, and on Windows without a
/// leading slash. An address of another scheme asks for the empty path.
pub open spec fn requested_path(uri: Seq<char>, platform: Platform) -> Seq<char> {
    local_path(address_body(uri), percent_decoded(address_body(uri)), platform)
}

/// What follows the scheme in a `media://` address.
pub fn media_address_body(uri: &str) -> (r: String)
    ensures
        r@ == address_body(uri@),
{
    let chars = chars_of(uri);
    let scheme = chars_of("media://");
    let body = if crate::text::matches_at(&chars, &scheme, 0) {
        slice_of(&chars, scheme.len(), chars.len())
    } else {
        Vec::new()
    };
    string_of(&body)
}

/// The local path that the body of an address stands for, given what
/// decoding it gave.
pub fn media_local_path(body: String, decoded: Option<String>, platform: Platform) -> (r: String)
    ensures
        r@ == local_path(
            body@,
            match decoded {
                Some(p) => Some(p@),
                None => None,
            },
            platform,
        ),
{
    let path = match decoded {
        Some(p) => p,
        None => body,
    };
    let path_chars = chars_of(path.as_str());
    match platform {
        Platform::Windows => {
            if path_chars.len() > 0 && path_chars[0] == '/' {
                string_of(&slice_of(&path_chars, 1, path_chars.len()))
            } else {
                path
            }
        },
        _ => path,
    }
}

pub fn media_request_path(uri: &str, platform: Platform) -> (r: String)
    ensures
        r@ == requested_path(uri@, platform),
{
    let body = media_address_body(uri);
    let decoded = percent_decode(body.as_str());
    media_local_path(body, decoded, platform)
}

/// The media type under which a local file is served, by the end of its path.
pub open spec fn served_mime_of(path: Seq<char>) -> Seq<char> {
    if finishes_with(path, ".mp4"@) {
        "video/mp4"@
    } else if finishes_with(path, ".avi"@) {
        "video/avi"@
    } else if finishes_with(path, ".png"@) {
        "image/png"@
    } else if finishes_with(path, ".jpg"@) || finishes_with(path, ".jpeg"@) {
        "image/jpeg"@
    } else if finishes_with(path, ".webp"@) {
        "image/webp"@
    } else {
        "application/octet-stream"@
    }
}

pub fn served_mime(path: &str) -> (r: String)
    ensures
        r@ == served_mime_of(path@),
{
    if ends_with(path, ".mp4") {
        "video/mp4".to_string()
    } else if ends_with(path, ".avi") {
        "video/avi".to_string()
    } else if ends_with(path, ".png") {
        "image/png".to_string()
    } else if ends_with(path, ".jpg") || ends_with(path, ".jpeg") {
        "image/jpeg".to_string()
    } else if ends_with(path, ".webp") {
        "image/webp".to_string()
    } else {
        "application/octet-stream".to_string()
    }
}

/// The answer to a request for a local file.
#[derive(Debug)]
pub struct MediaResponse {
    pub status: u16,
    pub content_type: Option<String>,
    pub allow_any_origin: bool,
    pub body: Vec<u8>,
}

/// Answers a request for the file at `path`, given what reading it gave: the
/// bytes with their media type, or 404 with the reason as body.
pub fn media_response(path: &str, read: Result<Vec<u8>, String>) -> (r: MediaResponse)
    ensures
        match read {
            Ok(data) => r.status == 200 && r.body@ == data@ && r.allow_any_origin
                && r.content_type is Some && r.content_type->0@ == served_mime_of(path@),
            Err(reason) => r.status == 404 && !r.allow_any_origin && r.content_type is None
                && r.body@ == encode_utf8("File not found: "@ + reason@),
        },
{
    match read {
        Ok(data) => MediaResponse {
            status: 200,
            content_type: Some(served_mime(path)),
            allow_any_origin: true,
            body: data,
        },
        Err(reason) => {
            let text = appended("File not found: ", reason.as_str());
            MediaResponse {
                status: 404,
                content_type: None,
                allow_any_origin: false,
                body: text.as_str().as_bytes_vec(),
            }
        },
    }
}

} // verus!
