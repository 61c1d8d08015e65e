//! The media pipeline: which uploads are admitted, under which name an
//! admitted upload is stored, and how a stored object is served again.
//!
//! An upload is judged by its bytes alone. Its size is checked before
//! anything looks inside; its format and dimensions are those that `image`
//! finds in the bytes; its name is a fresh identifier from `uuid` followed by
//! the extension of the format that was found. Nothing a client declares
//! enters the name. Reading the request and touching the file system are the
//! caller's part: the functions here take what was read and say what to do.

use crate::status::Failure;
use crate::status::outcome_status;
use crate::text::{contains_char, contains_parent_token, find_last, join, same_text};
use crate::text::{has_parent_token, last_position, last_position_at, last_position_is_last};
use image::ImageReader;
use uuid::Uuid;
use vstd::prelude::*;

verus! {

/// The largest upload that is admitted: 5 MiB.
pub const MAX_FILE_SIZE: usize = 5 * 1024 * 1024;

/// The largest width, in pixels, that is admitted.
pub const MAX_WIDTH: u32 = 4096;

/// The largest height, in pixels, that is admitted.
pub const MAX_HEIGHT: u32 = 4096;

/// What the bytes of an image say of themselves.
#[derive(Debug, Clone)]
pub struct Sniffed {
    /// The file extension of the format that the bytes are in.
    pub extension: String,
    /// Width in pixels.
    pub width: u32,
    /// Height in pixels.
    pub height: u32,
}

/// What the bytes of an image say of themselves, as a mathematical value.
pub ghost struct SniffedView {
    pub extension: Seq<char>,
    pub width: u32,
    pub height: u32,
}

impl View for Sniffed {
    type V = SniffedView;

    open spec fn view(&self) -> SniffedView {
        SniffedView { extension: self.extension@, width: self.width, height: self.height }
    }
}

/// An upload that was admitted: the bytes, the name to store them under and
/// the format they are in. What `upload_image` hands out is well formed; see
/// `StoredMedia::is_well_formed`.
#[derive(Debug, Clone)]
pub struct StoredMedia {
    /// The generated name, an identifier followed by a dot and the extension.
    pub storage_name: String,
    /// The bytes as they were uploaded.
    pub byte_content: Vec<u8>,
    /// The extension of the format found in the bytes.
    pub detected_format: String,
}

/// The body of the answer to a stored upload.
#[derive(Debug, Clone)]
pub struct UploadResponse {
    pub image_url: String,
}

/// `c` is a decimal digit or a lower-case letter from `a` to `f`.
pub open spec fn is_lower_hex(c: char) -> bool {
    ('0' as u32 <= c as u32 && c as u32 <= '9' as u32) || ('a' as u32 <= c as u32 && c as u32
        <= 'f' as u32)
}

/// `c` is a decimal digit or a lower-case letter.
pub open spec fn is_lower_alphanumeric(c: char) -> bool {
    ('0' as u32 <= c as u32 && c as u32 <= '9' as u32) || ('a' as u32 <= c as u32 && c as u32
        <= 'z' as u32)
}

/// `id` has the hyphenated form of an identifier: 36 characters, hyphens in
/// the four fixed places and lower-case hexadecimal digits everywhere else.
pub open spec fn is_hyphenated_id(id: Seq<char>) -> bool {
    &&& id.len() == 36
    &&& forall|i: int|
        0 <= i < 36 ==> if i == 8 || i == 13 || i == 18 || i == 23 {
            #[trigger] id[i] == '-'
        } else {
            is_lower_hex(id[i])
        }
}

/// `extension` is not empty and holds lower-case letters and digits only.
pub open spec fn is_plain_extension(extension: Seq<char>) -> bool {
    &&& extension.len() > 0
    &&& forall|i: int| 0 <= i < extension.len() ==> is_lower_alphanumeric(#[trigger] extension[i])
}

/// What `image` finds in `bytes`: the extension that stands first for the
/// format it recognizes by the leading bytes, and the dimensions of the
/// decoded image; `None` where it recognizes no format or cannot decode the
/// bytes in it.
pub uninterp spec fn image_sniffed(bytes: Seq<u8>) -> Option<SniffedView>;

/// The view of an optional sniffing result.
pub open spec fn sniffed_view(sniffed: Option<Sniffed>) -> Option<SniffedView> {
    match sniffed {
        Some(s) => Some(s@),
        None => None,
    }
}

/// Guesses the format of `data` from its content and decodes it, with
/// `image::ImageReader::with_guessed_format`, `format` and `decode`; the
/// extension is the first of `ImageFormat::extensions_str`, the dimensions
/// are those of the decoded image.
///
/// Trusted: the result is a function of the bytes, named `image_sniffed`
/// (the library registers no decoding hooks and leaves the reader's limits
/// at their defaults); and an extension that comes back is one of the
/// crate's own lower-case names such as `png` or `jpg`.
#[verifier::external_body]
fn sniff_image(data: &[u8]) -> (sniffed: Option<Sniffed>)
    ensures
        sniffed_view(sniffed) == image_sniffed(data@),
        sniffed matches Some(s) ==> is_plain_extension(s.extension@),
{
    let reader = ImageReader::new(std::io::Cursor::new(data)).with_guessed_format().ok()?;
    let extension = reader.format()?.extensions_str().first()?.to_string();
    let image = reader.decode().ok()?;
    Some(Sniffed { extension, width: image.width(), height: image.height() })
}

/// A fresh random identifier in its hyphenated text form:
/// `uuid::Uuid::new_v4().to_string()`.
///
/// Trusted: of the value only its form is claimed, which is the same for
/// every identifier. Two calls are never known to agree.
#[verifier::external_body]
fn fresh_id() -> (id: String)
    ensures
        is_hyphenated_id(id@),
{
    Uuid::new_v4().to_string()
}

/// The name an upload is stored under: the identifier, a dot, the extension.
pub open spec fn storage_name_of(id: Seq<char>, extension: Seq<char>) -> Seq<char> {
    id + seq!['.'] + extension
}

/// The URL path under which a stored object is served.
pub open spec fn url_of(storage_name: Seq<char>) -> Seq<char> {
    "/uploads/"@ + storage_name
}

/// The file-system path of a stored object, relative to the working
/// directory: all objects lie flat in the one directory `uploads`.
pub open spec fn path_of(storage_name: Seq<char>) -> Seq<char> {
    "uploads/"@ + storage_name
}

/// The verdict on an upload of `len` bytes in which `sniffed` was found. The
/// size is judged first, then whether the bytes are an image, then the
/// dimensions.
pub open spec fn admitted(len: int, sniffed: Option<SniffedView>) -> Result<SniffedView, Failure> {
    if len > MAX_FILE_SIZE {
        Err(Failure::PayloadTooLarge)
    } else {
        match sniffed {
            None => Err(Failure::UnsupportedMediaType),
            Some(s) => if s.width > MAX_WIDTH || s.height > MAX_HEIGHT {
                Err(Failure::BadRequest)
            } else {
                Ok(s)
            },
        }
    }
}

/// The verdict on the content field of an upload request, `None` standing
/// for a request without a readable field.
pub open spec fn upload_verdict(field: Option<Seq<u8>>) -> Result<SniffedView, Failure> {
    match field {
        None => Err(Failure::BadRequest),
        Some(bytes) => admitted(bytes.len() as int, image_sniffed(bytes)),
    }
}

/// `media` is the stored form of `bytes`, in which `sniffed` was found, under
/// the identifier `id`.
pub open spec fn is_stored_as(
    media: StoredMedia,
    bytes: Seq<u8>,
    sniffed: SniffedView,
    id: Seq<char>,
) -> bool {
    &&& media.byte_content@ == bytes
    &&& media.detected_format@ == sniffed.extension
    &&& media.storage_name@ == storage_name_of(id, sniffed.extension)
}

/// `name` is a generated name for the extension `extension`: a hyphenated
/// identifier, 36 characters long, then a dot, then the extension.
pub open spec fn is_generated_name(name: Seq<char>, extension: Seq<char>) -> bool {
    &&& is_hyphenated_id(name.take(36))
    &&& name == storage_name_of(name.take(36), extension)
}

impl StoredMedia {
    /// The content is within the size ceiling, the format is a plain
    /// extension, and the name is a generated one for that format: nothing
    /// in it comes from a client.
    pub open spec fn is_well_formed(&self) -> bool {
        &&& self.byte_content@.len() <= MAX_FILE_SIZE
        &&& is_plain_extension(self.detected_format@)
        &&& is_generated_name(self.storage_name@, self.detected_format@)
    }
}

/// The view of an optional field.
pub open spec fn field_view(field: Option<Vec<u8>>) -> Option<Seq<u8>> {
    match field {
        Some(bytes) => Some(bytes@),
        None => None,
    }
}

/// A name that can stand for a stored object: it holds no path separator and
/// no parent-directory token.
pub open spec fn is_safe_name(name: Seq<char>) -> bool {
    !name.contains('/') && !name.contains('\\') && !has_parent_token(name)
}

/// Refuses an upload of more than `MAX_FILE_SIZE` bytes.
pub fn check_size(len: usize) -> (checked: Result<(), Failure>)
    ensures
        checked is Ok <==> len <= MAX_FILE_SIZE,
        checked is Err ==> checked == Err::<(), Failure>(Failure::PayloadTooLarge),
{
    if len > MAX_FILE_SIZE {
        Err(Failure::PayloadTooLarge)
    } else {
        Ok(())
    }
}

/// Refuses bytes in which no image was found, and images wider or higher
/// than the ceilings.
pub fn check_sniffed(sniffed: Option<Sniffed>) -> (checked: Result<Sniffed, Failure>)
    ensures
        match checked {
            Ok(s) => sniffed == Some(s) && s.width <= MAX_WIDTH && s.height <= MAX_HEIGHT,
            Err(failure) => match sniffed {
                None => failure == Failure::UnsupportedMediaType,
                Some(s) => failure == Failure::BadRequest && (s.width > MAX_WIDTH || s.height
                    > MAX_HEIGHT),
            },
        },
{
    match sniffed {
        None => Err(Failure::UnsupportedMediaType),
        Some(s) => if s.width > MAX_WIDTH || s.height > MAX_HEIGHT {
            Err(Failure::BadRequest)
        } else {
            Ok(s)
        },
    }
}

/// The name for an upload with the identifier `id` and the extension
/// `extension`.
pub fn storage_name(id: &str, extension: &str) -> (name: String)
    ensures
        name@ == storage_name_of(id@, extension@),
{
    proof {
        reveal_strlit(".");
    }
    let mut name = join(id, ".");
    assert(name@ =~= id@ + seq!['.']);
    name.append(extension);
    name
}

/// Judges an upload of which everything is given: the bytes, what was found
/// in them and the identifier to name it with. The upload is stored under
/// `id`, a dot and the extension that was found, exactly where the verdict
/// admits it. The name is only as good as the identifier and the extension
/// that are handed in; `upload_image` hands in a generated identifier and a
/// sniffed extension.
pub fn place_upload(bytes: Vec<u8>, sniffed: Option<Sniffed>, id: &str) -> (placed: Result<
    StoredMedia,
    Failure,
>)
    ensures
        match placed {
            Ok(media) => admitted(bytes@.len() as int, sniffed_view(sniffed)) matches Ok(s)
                && is_stored_as(media, bytes@, s, id@),
            Err(failure) => admitted(bytes@.len() as int, sniffed_view(sniffed)) matches Err(f)
                && f == failure,
        },
{
    match check_size(bytes.len()) {
        Err(failure) => { return Err(failure); },
        Ok(_) => {},
    }
    match check_sniffed(sniffed) {
        Err(failure) => Err(failure),
        Ok(s) => {
            let name = storage_name(id, s.extension.as_str());
            Ok(
                StoredMedia {
                    storage_name: name,
                    byte_content: bytes,
                    detected_format: s.extension,
                },
            )
        },
    }
}

/// Judges the content field of an upload request, `None` standing for a
/// request without a readable field.
///
/// A missing field is a bad request. A field of more than `MAX_FILE_SIZE`
/// bytes is too large, and is not looked into. Bytes in which `image` finds
/// no image are an unsupported media type. An image beyond the dimension
/// ceilings is a bad request. Everything else is admitted, and stored under a
/// fresh identifier followed by the extension of the format that was found:
/// a name that `serve_image` accepts.
pub fn upload_image(field: Option<Vec<u8>>) -> (placed: Result<StoredMedia, Failure>)
    ensures
        match placed {
            Ok(media) => upload_verdict(field_view(field)) matches Ok(s) && media.byte_content@
                == field->0@ && media.detected_format@ == s.extension
                && media.is_well_formed() && is_safe_name(media.storage_name@),
            Err(failure) => upload_verdict(field_view(field)) matches Err(f) && f == failure,
        },
{
    match field {
        None => Err(Failure::BadRequest),
        Some(bytes) => {
            match check_size(bytes.len()) {
                Err(failure) => { return Err(failure); },
                Ok(_) => {},
            }
            let found = sniff_image(bytes.as_slice());
            match check_sniffed(found) {
                Err(failure) => Err(failure),
                Ok(s) => {
                    let id = fresh_id();
                    let name = storage_name(id.as_str(), s.extension.as_str());
                    proof {
                        stored_name_is_safe(id@, s.extension@);
                        assert(name@.take(36) =~= id@);
                    }
                    Ok(
                        StoredMedia {
                            storage_name: name,
                            byte_content: bytes,
                            detected_format: s.extension,
                        },
                    )
                },
            }
        },
    }
}

/// The answer to an upload after the attempt to write it: the URL of the
/// stored object, or an internal error where writing failed.
pub fn upload_response(media: &StoredMedia, written: bool) -> (answer: Result<
    UploadResponse,
    Failure,
>)
    ensures
        match answer {
            Ok(response) => written && response.image_url@ == url_of(media.storage_name@),
            Err(failure) => !written && failure == Failure::InternalError,
        },
{
    if written {
        Ok(UploadResponse { image_url: join("/uploads/", media.storage_name.as_str()) })
    } else {
        Err(Failure::InternalError)
    }
}

/// A generated name holds no path separator and no parent-directory token.
pub proof fn stored_name_is_safe(id: Seq<char>, extension: Seq<char>)
    requires
        is_hyphenated_id(id),
        is_plain_extension(extension),
    ensures
        is_safe_name(storage_name_of(id, extension)),
{
    let name = storage_name_of(id, extension);
    assert forall|i: int| 0 <= i < name.len() implies name[i] != '/' && name[i] != '\\' && (name[i]
        == '.' ==> i == 36) by {
        if i < 36 {
            assert(name[i] == id[i]);
            if i == 8 || i == 13 || i == 18 || i == 23 {
            } else {
                assert(is_lower_hex(id[i]));
            }
        } else if i == 36 {
        } else {
            assert(name[i] == extension[i - 37]);
            assert(is_lower_alphanumeric(extension[i - 37]));
        }
    }
}

/// What looking a stored object up found.
#[derive(Debug, Clone)]
pub enum Lookup {
    /// No object of that name exists.
    Missing,
    /// The object exists but could not be read.
    Unreadable,
    /// The whole content of the object.
    Found(Vec<u8>),
}

/// A lookup result as a mathematical value.
pub ghost enum LookupView {
    Missing,
    Unreadable,
    Found(Seq<u8>),
}

impl View for Lookup {
    type V = LookupView;

    open spec fn view(&self) -> LookupView {
        match *self {
            Lookup::Missing => LookupView::Missing,
            Lookup::Unreadable => LookupView::Unreadable,
            Lookup::Found(bytes) => LookupView::Found(bytes@),
        }
    }
}

/// A stored object as it is sent back.
#[derive(Debug, Clone)]
pub struct ServedImage {
    /// The media type, from the name's extension.
    pub content_type: String,
    /// The content, as it was stored.
    pub body: Vec<u8>,
}

/// A served object as a mathematical value.
pub ghost struct ServedView {
    pub content_type: Seq<char>,
    pub body: Seq<u8>,
}

impl View for ServedImage {
    type V = ServedView;

    open spec fn view(&self) -> ServedView {
        ServedView { content_type: self.content_type@, body: self.body@ }
    }
}

/// The extension of a file name: what follows its last dot. A name without a
/// dot has none, and neither has a name whose only dot stands first.
pub open spec fn extension_of(name: Seq<char>) -> Option<Seq<char>> {
    match last_position(name, '.') {
        Some(p) => if p == 0 {
            None
        } else {
            Some(name.skip(p + 1))
        },
        None => None,
    }
}

/// The media type that stands for an extension. The mapping is closed: four
/// image types, and the generic type for everything else.
pub open spec fn content_type_of(extension: Option<Seq<char>>) -> Seq<char> {
    match extension {
        Some(e) => if e == "jpg"@ || e == "jpeg"@ {
            "image/jpeg"@
        } else if e == "png"@ {
            "image/png"@
        } else if e == "gif"@ {
            "image/gif"@
        } else if e == "webp"@ {
            "image/webp"@
        } else {
            "application/octet-stream"@
        },
        None => "application/octet-stream"@,
    }
}

/// The answer to a request for the object `name`, given what the lookup
/// found. An unsafe name is refused whatever the lookup says.
pub open spec fn served(name: Seq<char>, lookup: LookupView) -> Result<ServedView, Failure> {
    if !is_safe_name(name) {
        Err(Failure::BadRequest)
    } else {
        match lookup {
            LookupView::Missing => Err(Failure::NotFound),
            LookupView::Unreadable => Err(Failure::InternalError),
            LookupView::Found(bytes) => Ok(
                ServedView { content_type: content_type_of(extension_of(name)), body: bytes },
            ),
        }
    }
}

/// The view of an answer.
pub open spec fn served_view(answer: Result<ServedImage, Failure>) -> Result<ServedView, Failure> {
    match answer {
        Ok(image) => Ok(image@),
        Err(failure) => Err(failure),
    }
}

/// Refuses a requested name that holds a path separator or the
/// parent-directory token.
pub fn check_name(filename: &str) -> (checked: Result<(), Failure>)
    ensures
        checked is Ok <==> is_safe_name(filename@),
        checked is Err ==> checked == Err::<(), Failure>(Failure::BadRequest),
{
    if contains_parent_token(filename) || contains_char(filename, '/') || contains_char(
        filename,
        '\\',
    ) {
        Err(Failure::BadRequest)
    } else {
        Ok(())
    }
}

/// The path to look a requested object up under, relative to the working
/// directory. An unsafe name is refused here, before anything is looked up.
pub fn requested_path(filename: &str) -> (path: Result<String, Failure>)
    ensures
        match path {
            Ok(p) => is_safe_name(filename@) && p@ == path_of(filename@),
            Err(failure) => !is_safe_name(filename@) && failure == Failure::BadRequest,
        },
{
    match check_name(filename) {
        Err(failure) => Err(failure),
        Ok(_) => Ok(join("uploads/", filename)),
    }
}

/// The extension of a file name.
pub fn file_extension<'a>(filename: &'a str) -> (extension: Option<&'a str>)
    ensures
        match extension {
            Some(e) => extension_of(filename@) == Some(e@),
            None => extension_of(filename@) is None,
        },
{
    match find_last(filename, '.') {
        None => None,
        Some(p) => {
            proof {
                last_position_is_last(filename@, '.');
            }
            if p == 0 {
                None
            } else {
                let n: usize = filename.unicode_len();
                let rest = filename.substring_char(p + 1, n);
                assert(filename@.skip(p + 1) =~= filename@.subrange(p + 1, n as int));
                Some(rest)
            }
        },
    }
}

/// The media type a stored object is served with, from the extension of its
/// name.
pub fn content_type_for(filename: &str) -> (content_type: &'static str)
    ensures
        content_type@ == content_type_of(extension_of(filename@)),
{
    match file_extension(filename) {
        None => "application/octet-stream",
        Some(e) => if same_text(e, "jpg") || same_text(e, "jpeg") {
            "image/jpeg"
        } else if same_text(e, "png") {
            "image/png"
        } else if same_text(e, "gif") {
            "image/gif"
        } else if same_text(e, "webp") {
            "image/webp"
        } else {
            "application/octet-stream"
        },
    }
}

/// Answers a request for the object `filename`, given what the lookup found.
///
/// A name with a path separator or the parent-directory token is a bad
/// request, whatever was found. A missing object is not found; an unreadable
/// one is an internal error. Otherwise the content is sent back as it was
/// found, with the media type of the name's extension.
pub fn serve_image(filename: &str, lookup: Lookup) -> (answer: Result<ServedImage, Failure>)
    ensures
        served_view(answer) == served(filename@, lookup@),
{
    match check_name(filename) {
        Err(failure) => { return Err(failure); },
        Ok(_) => {},
    }
    match lookup {
        Lookup::Missing => Err(Failure::NotFound),
        Lookup::Unreadable => Err(Failure::InternalError),
        Lookup::Found(bytes) => Ok(
            ServedImage { content_type: String::from_str(content_type_for(filename)), body: bytes },
        ),
    }
}

/// An upload of more than `MAX_FILE_SIZE` bytes is refused as too large,
/// with 413, whatever its bytes hold: the verdict does not depend on what
/// decoding them would find.
pub proof fn oversized_is_refused(len: int, sniffed: Option<SniffedView>)
    requires
        len > MAX_FILE_SIZE,
    ensures
        admitted(len, sniffed) == Err::<SniffedView, Failure>(Failure::PayloadTooLarge),
        outcome_status(admitted(len, sniffed)) == 413,
{
}

/// Bytes within the size ceiling in which no image is found are refused as
/// an unsupported media type, with 415. The verdict takes nothing but the
/// bytes: a declared content type has no place to enter.
pub proof fn undecodable_is_refused(bytes: Seq<u8>)
    requires
        bytes.len() <= MAX_FILE_SIZE,
        image_sniffed(bytes) is None,
    ensures
        upload_verdict(Some(bytes)) == Err::<SniffedView, Failure>(Failure::UnsupportedMediaType),
        outcome_status(upload_verdict(Some(bytes))) == 415,
{
}

/// Within the size ceiling, an image is admitted exactly where neither its
/// width nor its height is above 4096 pixels; beyond that it is a bad
/// request, with 400.
pub proof fn dimension_ceiling(len: int, found: SniffedView)
    requires
        len <= MAX_FILE_SIZE,
    ensures
        found.width <= 4096 && found.height <= 4096 ==> admitted(len, Some(found)) == Ok::<
            SniffedView,
            Failure,
        >(found),
        found.width > 4096 || found.height > 4096 ==> admitted(len, Some(found)) == Err::<
            SniffedView,
            Failure,
        >(Failure::BadRequest) && outcome_status(admitted(len, Some(found))) == 400,
{
}

/// A requested name with a path separator or the parent-directory token is
/// refused as a bad request, with 400, whatever the storage holds: the answer
/// does not depend on the lookup.
pub proof fn traversal_is_refused(name: Seq<char>, lookup: LookupView)
    requires
        name.contains('/') || name.contains('\\') || has_parent_token(name),
    ensures
        served(name, lookup) == Err::<ServedView, Failure>(Failure::BadRequest),
        outcome_status(served(name, lookup)) == 400,
{
}

/// Two requests for the same name that find the same content get the same
/// answer, content and media type alike; and the content sent back is the
/// content that was found.
pub proof fn retrieval_repeats(name: Seq<char>, first: LookupView, second: LookupView)
    requires
        first == second,
    ensures
        served(name, first) == served(name, second),
        served(name, first) matches Ok(image) ==> first == LookupView::Found(image.body)
            && image.content_type == content_type_of(extension_of(name)),
{
}

/// What the pipeline stores, it serves: the name of a well-formed stored
/// object (a generated name for a plain extension) passes the name check,
/// its extension is the one it was generated with, and so its content comes
/// back with the media type of the format that was found in it.
pub proof fn stored_name_is_served(name: Seq<char>, extension: Seq<char>, content: Seq<u8>)
    requires
        is_generated_name(name, extension),
        is_plain_extension(extension),
    ensures
        is_safe_name(name),
        extension_of(name) == Some(extension),
        served(name, LookupView::Found(content)) == Ok::<ServedView, Failure>(
            ServedView { content_type: content_type_of(Some(extension)), body: content },
        ),
{
    let id = name.take(36);
    stored_name_is_safe(id, extension);
    assert forall|j: int| 36 < j < name.len() implies name[j] != '.' by {
        assert(name[j] == extension[j - 37]);
        assert(is_lower_alphanumeric(extension[j - 37]));
    }
    last_position_at(name, '.', 36);
    assert(name.skip(37) =~= extension);
}

} // verus!
